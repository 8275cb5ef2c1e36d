//! What is shown of the state: in the status file, on the button and in the
//! property inspector.
use vstd::prelude::*;

use crate::action::UUID;
use crate::clock::{shown, Moment, WallClock};
use crate::json::{
    content, flag_value, no_members, number_value, object_value, set_member, text_value, Json,
};
use crate::settings::{effective, effective_at, EffSettings};
use crate::state::{Observation, Phase, SleepState};
use crate::text::{fmt_mmss, mmss};

verus! {

/// The version that is shown.
pub const VERSION: &'static str = "1.4.0";

/// Seconds that are left of `delay` after `elapsed` seconds.
pub open spec fn secs_left(delay: u64, elapsed: u64) -> nat {
    if elapsed < delay {
        (delay - elapsed) as nat
    } else {
        0
    }
}

/// The text of the status file.
pub open spec fn status_of(seen: Observation) -> Seq<char> {
    "Sleep Mode: "@ + (if seen.enabled {
        "ON"@
    } else {
        "OFF"@
    }) + (if seen.eff.is_night {
        " [Night]"@
    } else {
        ""@
    }) + "  |  Phase: "@ + (match seen.phase {
        Phase::Awake => "Awake"@,
        Phase::Dim => "Dimmed"@,
        Phase::Off => "Off"@,
    }) + "  |  Idle: "@ + mmss(seen.elapsed as nat) + "\nDim in: "@ + mmss(
        secs_left(seen.eff.dim_at, seen.elapsed),
    ) + "  |  Off in: "@ + (if seen.eff.no_off {
        "–"@
    } else {
        mmss(secs_left(seen.eff.off_at, seen.elapsed))
    }) + "  |  v"@ + VERSION@ + "\n"@
}

/// The title of the button.
pub open spec fn button_title(phase: Phase, enabled: bool) -> Seq<char> {
    if !enabled {
        "Inactive"@
    } else {
        match phase {
            Phase::Awake => "Active"@,
            Phase::Dim => "Dim"@,
            Phase::Off => "Off"@,
        }
    }
}

/// The number of the button's image.
pub open spec fn button_state(phase: Phase, enabled: bool) -> int {
    if !enabled {
        0
    } else {
        match phase {
            Phase::Awake => 0,
            Phase::Dim => 1,
            Phase::Off => 2,
        }
    }
}

/// The message that sets the title of the button `context`.
pub open spec fn title_json(context: Seq<char>, title: Seq<char>) -> Json {
    Json::Object(
        map![
            "event"@ => Json::Text("setTitle"@),
            "context"@ => Json::Text(context),
            "payload"@ => Json::Object(
                map!["title"@ => Json::Text(title), "target"@ => Json::Number(0)],
            ),
        ],
    )
}

/// The message that sets the image of the button `context`.
pub open spec fn state_json(context: Seq<char>, state: int) -> Json {
    Json::Object(
        map![
            "event"@ => Json::Text("setState"@),
            "context"@ => Json::Text(context),
            "payload"@ => Json::Object(map!["state"@ => Json::Number(state)]),
        ],
    )
}

/// The status that the property inspector shows.
pub open spec fn inspector_status(phase: Phase, enabled: bool) -> Seq<char> {
    if !enabled {
        "Disabled"@
    } else {
        match phase {
            Phase::Awake => "Active"@,
            Phase::Dim => "Dimmed"@,
            Phase::Off => "Display off"@,
        }
    }
}

/// The time left of `delay` after `elapsed` seconds, and a dash where the
/// delay does not count or is over.
pub open spec fn countdown(counts: bool, delay: u64, elapsed: u64) -> Seq<char> {
    if counts && elapsed < delay {
        mmss((delay - elapsed) as nat)
    } else {
        "–"@
    }
}

/// The message that tells the property inspector of the button `context` how
/// things stand after `elapsed` seconds without activity.
pub open spec fn inspector_json(
    context: Seq<char>,
    phase: Phase,
    enabled: bool,
    elapsed: u64,
    eff: EffSettings,
) -> Json {
    Json::Object(
        map![
            "event"@ => Json::Text("sendToPropertyInspector"@),
            "context"@ => Json::Text(context),
            "action"@ => Json::Text(UUID@),
            "payload"@ => Json::Object(
                map![
                    "status"@ => Json::Text(inspector_status(phase, enabled)),
                    "until_dim"@ => Json::Text(countdown(enabled, eff.dim_at, elapsed)),
                    "until_off"@ => Json::Text(
                        countdown(enabled && !eff.no_off, eff.off_at, elapsed),
                    ),
                    "night_active"@ => Json::Flag(eff.is_night),
                    "version"@ => Json::Text(VERSION@),
                ],
            ),
        ],
    )
}

impl Observation {
    /// The text of the status file.
    pub fn status_text(&self) -> (text: String)
        ensures
            text@ == status_of(*self),
    {
        let phase_str = match self.phase {
            Phase::Awake => "Awake",
            Phase::Dim => "Dimmed",
            Phase::Off => "Off",
        };
        let enabled_str = if self.enabled {
            "ON"
        } else {
            "OFF"
        };
        let mode_str = if self.eff.is_night {
            " [Night]"
        } else {
            ""
        };
        let until_dim: u64 = if self.elapsed < self.eff.dim_at {
            self.eff.dim_at - self.elapsed
        } else {
            0
        };
        let until_off: u64 = if self.elapsed < self.eff.off_at {
            self.eff.off_at - self.elapsed
        } else {
            0
        };
        let off_str = if self.eff.no_off {
            "–".to_owned()
        } else {
            fmt_mmss(until_off)
        };
        let mut text = "Sleep Mode: ".to_owned();
        text.append(enabled_str);
        text.append(mode_str);
        text.append("  |  Phase: ");
        text.append(phase_str);
        text.append("  |  Idle: ");
        text.append(fmt_mmss(self.elapsed).as_str());
        text.append("\nDim in: ");
        text.append(fmt_mmss(until_dim).as_str());
        text.append("  |  Off in: ");
        text.append(off_str.as_str());
        text.append("  |  v");
        text.append(VERSION);
        text.append("\n");
        text
    }
}

/// The text that [`countdown`] names.
fn countdown_text(counts: bool, delay: u64, elapsed: u64) -> (text: String)
    ensures
        text@ == countdown(counts, delay, elapsed),
{
    if counts && elapsed < delay {
        fmt_mmss(delay - elapsed)
    } else {
        "–".to_owned()
    }
}

/// The message that [`title_json`] names.
fn title_message(context: &str, title: &str) -> (message: serde_json::Value)
    ensures
        content(message) == title_json(context@, title@),
{
    let mut payload = no_members();
    set_member(&mut payload, "title", text_value(title));
    set_member(&mut payload, "target", number_value(0));
    let mut message = no_members();
    set_member(&mut message, "event", text_value("setTitle"));
    set_member(&mut message, "context", text_value(context));
    set_member(&mut message, "payload", object_value(payload));
    object_value(message)
}

/// The message that [`state_json`] names.
fn state_message(context: &str, state: u16) -> (message: serde_json::Value)
    ensures
        content(message) == state_json(context@, state as int),
{
    let mut payload = no_members();
    set_member(&mut payload, "state", number_value(state as u64));
    let mut message = no_members();
    set_member(&mut message, "event", text_value("setState"));
    set_member(&mut message, "context", text_value(context));
    set_member(&mut message, "payload", object_value(payload));
    object_value(message)
}

/// The message that [`inspector_json`] names.
fn inspector_report(
    context: &str,
    phase: &Phase,
    enabled: bool,
    elapsed: u64,
    eff: &EffSettings,
) -> (message: serde_json::Value)
    ensures
        content(message) == inspector_json(context@, *phase, enabled, elapsed, *eff),
{
    let status = if !enabled {
        "Disabled"
    } else {
        match phase {
            Phase::Awake => "Active",
            Phase::Dim => "Dimmed",
            Phase::Off => "Display off",
        }
    };
    let until_dim = countdown_text(enabled, eff.dim_at, elapsed);
    let until_off = countdown_text(enabled && !eff.no_off, eff.off_at, elapsed);
    let mut payload = no_members();
    set_member(&mut payload, "status", text_value(status));
    set_member(&mut payload, "until_dim", text_value(until_dim.as_str()));
    set_member(&mut payload, "until_off", text_value(until_off.as_str()));
    set_member(&mut payload, "night_active", flag_value(eff.is_night));
    set_member(&mut payload, "version", text_value(VERSION));
    let mut message = no_members();
    set_member(&mut message, "event", text_value("sendToPropertyInspector"));
    set_member(&mut message, "context", text_value(context));
    set_member(&mut message, "action", text_value(UUID));
    set_member(&mut message, "payload", object_value(payload));
    object_value(message)
}

impl SleepState {
    /// The messages that show `phase` and `enabled` on the button: its title,
    /// then its image. There are none as long as no button has appeared.
    pub fn button_messages(&self, phase: &Phase, enabled: bool) -> (messages: Vec<
        serde_json::Value,
    >)
        ensures
            self.context@.len() == 0 ==> messages@.len() == 0,
            self.context@.len() > 0 ==> {
                &&& messages@.len() == 2
                &&& content(messages@[0]) == title_json(
                    self.context@,
                    button_title(*phase, enabled),
                )
                &&& content(messages@[1]) == state_json(
                    self.context@,
                    button_state(*phase, enabled),
                )
            },
    {
        let context = self.context.as_str();
        if context.is_empty() {
            return Vec::new();
        }
        let (title, state): (&str, u16) = if !enabled {
            ("Inactive", 0)
        } else {
            match phase {
                Phase::Awake => ("Active", 0),
                Phase::Dim => ("Dim", 1),
                Phase::Off => ("Off", 2),
            }
        };
        vec![title_message(context, title), state_message(context, state)]
    }

    /// The message that shows `phase` and `enabled` in the property inspector,
    /// with the times that are left at the moment `at` and the time of day
    /// `now`. There is none as long as no button has appeared.
    pub fn inspector_message_at(
        &self,
        phase: &Phase,
        enabled: bool,
        at: &Moment,
        now: &WallClock,
    ) -> (message: Option<serde_json::Value>)
        requires
            now.wf(),
            self.settings.fits_at(*now),
        ensures
            message is Some <==> self.context@.len() > 0,
            message matches Some(value) ==> content(value) == inspector_json(
                self.context@,
                *phase,
                enabled,
                at.secs_since(self.last_activity),
                self.settings.values_at(*now),
            ),
    {
        let eff = effective_at(&self.settings, now);
        let context = self.context.as_str();
        if context.is_empty() {
            return None;
        }
        let elapsed: u64 = at.elapsed_since(&self.last_activity);
        Some(inspector_report(context, phase, enabled, elapsed, &eff))
    }

    /// The message that shows `phase` and `enabled` in the property inspector,
    /// with the times that are left at the moment `at`, by the local clock.
    /// There is none as long as no button has appeared.
    pub fn inspector_message(&self, phase: &Phase, enabled: bool, at: &Moment) -> (message: Option<
        serde_json::Value,
    >)
        requires
            self.settings.fits(),
        ensures
            message is Some <==> self.context@.len() > 0,
            message matches Some(value) ==> exists|now: WallClock| #[trigger]
                now.wf() && content(value) == inspector_json(
                    self.context@,
                    *phase,
                    enabled,
                    at.secs_since(self.last_activity),
                    self.settings.values_at(now),
                ),
            self.settings.night_enabled ==> (message matches Some(value) ==> exists|
                now: WallClock,
            | #[trigger]
                shown(now) && now.wf() && content(value) == inspector_json(
                    self.context@,
                    *phase,
                    enabled,
                    at.secs_since(self.last_activity),
                    self.settings.values_at(now),
                )),
    {
        let eff = effective(&self.settings);
        let context = self.context.as_str();
        if context.is_empty() {
            return None;
        }
        let elapsed: u64 = at.elapsed_since(&self.last_activity);
        Some(inspector_report(context, phase, enabled, elapsed, &eff))
    }
}

} // verus!
