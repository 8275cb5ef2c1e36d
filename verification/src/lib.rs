//! Sleep mode for a button deck: after a spell without key presses the deck
//! is dimmed and then switched off, with a second set of values for the night.
//!
//! The library decides; it performs no input or output. It is told what
//! happened and answers with the new state and with the [`state::Effect`]s
//! that are to be carried out, in order.
pub mod action;
pub mod clock;
pub mod device;
pub mod json;
pub mod laws;
pub mod laws_of_effects;
pub mod laws_of_messages;
pub mod laws_of_text;
pub mod laws_of_values;
pub mod report;
pub mod settings;
pub mod startup;
pub mod state;
pub mod text;
