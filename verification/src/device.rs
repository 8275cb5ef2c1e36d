//! What is sent to the deck, and how the deck is found.
use vstd::prelude::*;

use crate::json::{
    content, json_text, no_members, number_value, object_value, set_member, text_value, value_text,
    Json,
};
use crate::text::{contains, decimal, decimal_text, occurs};

verus! {

/// The directory in which the input devices are listed by their names.
pub const DEVICE_DIR: &'static str = "/dev/input/by-id";

/// Milliseconds to wait between the two messages of a [`BrightnessRequest`].
pub const REGISTER_PAUSE_MS: u64 = 50;

/// The report that switches the display off: the report's number, the command
/// `CRT`, two zeros, `HAN`, and zeros to fill it up.
pub open spec fn sleep_report() -> Seq<u8> {
    seq![0u8, 0x43u8, 0x52u8, 0x54u8, 0u8, 0u8, 0x48u8, 0x41u8, 0x4Eu8] + Seq::new(
        504,
        |i: int| 0u8,
    )
}

/// The report that switches the display off. It is not merely dark after
/// this, as it is with a brightness of zero, but without power.
pub fn hid_sleep_report() -> (report: Vec<u8>)
    ensures
        report@ == sleep_report(),
{
    let mut buf: Vec<u8> = vec![0u8; 513];
    buf[1] = 0x43;
    buf[2] = 0x52;
    buf[3] = 0x54;
    buf[6] = 0x48;
    buf[7] = 0x41;
    buf[8] = 0x4E;
    assert(buf@ =~= sleep_report());
    buf
}

/// What sets the brightness of the deck: where to connect to, the message to
/// register with, and the command.
#[derive(Debug)]
pub struct BrightnessRequest {
    pub url: String,
    pub register: String,
    pub command: String,
}

/// The message that registers the sender as a plugin that may set the
/// brightness.
pub open spec fn register_json() -> Json {
    Json::Object(
        map![
            "event"@ => Json::Text("registerPlugin"@),
            "uuid"@ => Json::Text("opendeck_alternative_elgato_implementation"@),
        ],
    )
}

/// The command that sets the brightness of the device.
pub open spec fn brightness_json(value: u8) -> Json {
    Json::Object(
        map![
            "event"@ => Json::Text("deviceBrightness"@),
            "action"@ => Json::Text("set"@),
            "value"@ => Json::Number(value as int),
        ],
    )
}

/// The message that [`register_json`] names.
fn register_message() -> (message: serde_json::Value)
    ensures
        content(message) == register_json(),
{
    let mut message = no_members();
    set_member(&mut message, "event", text_value("registerPlugin"));
    set_member(&mut message, "uuid", text_value("opendeck_alternative_elgato_implementation"));
    object_value(message)
}

/// The message that [`brightness_json`] names.
fn brightness_message(value: u8) -> (message: serde_json::Value)
    ensures
        content(message) == brightness_json(value),
{
    let mut message = no_members();
    set_member(&mut message, "event", text_value("deviceBrightness"));
    set_member(&mut message, "action", text_value("set"));
    set_member(&mut message, "value", number_value(value as u64));
    object_value(message)
}

/// What sets the brightness to `value`, over the local port `port`. A port of
/// zero stands for none: nothing can be sent then.
pub fn brightness_request(port: u16, value: u8) -> (request: Option<BrightnessRequest>)
    ensures
        request is Some <==> port != 0,
        request matches Some(r) ==> {
            &&& r.url@ == "ws://127.0.0.1:"@ + decimal(port as nat)
            &&& r.register@ == json_text(register_json())
            &&& r.command@ == json_text(brightness_json(value))
        },
{
    if port == 0 {
        return None;
    }
    let mut url = "ws://127.0.0.1:".to_owned();
    url.append(decimal_text(port as u64).as_str());
    Some(
        BrightnessRequest {
            url,
            register: value_text(&register_message()),
            command: value_text(&brightness_message(value)),
        },
    )
}

/// The device of this name is a deck.
pub open spec fn names_deck(name: Seq<char>) -> bool {
    occurs("Elgato_Stream_Deck"@, name) && occurs("hidraw"@, name)
}

/// Whether the device of this name is a deck.
pub fn is_deck_name(name: &str) -> (b: bool)
    ensures
        b == names_deck(name@),
{
    contains(name, "Elgato_Stream_Deck") && contains(name, "hidraw")
}

/// What the search for the deck has met with.
#[derive(Debug)]
pub enum ScanEvent {
    /// An entry of the directory, by its name.
    Entry(String),
    /// The directory has no further entry, or none that can be read.
    End,
    /// The path that the last entry leads to.
    Resolved(String),
    /// The last entry leads nowhere.
    Unresolved,
}

/// How the search for the deck goes on.
#[derive(Debug)]
pub enum ScanAction {
    /// Read the next entry of the directory.
    ReadNext,
    /// Find out where the last entry leads to.
    Resolve,
    /// Stop, with the path of the deck if there is one.
    Finish(Option<String>),
}

/// How the search goes on after `event`.
pub open spec fn scan_action(event: ScanEvent) -> ScanAction {
    match event {
        ScanEvent::Entry(name) => if names_deck(name@) {
            ScanAction::Resolve
        } else {
            ScanAction::ReadNext
        },
        ScanEvent::End => ScanAction::Finish(None),
        ScanEvent::Resolved(path) => ScanAction::Finish(Some(path)),
        ScanEvent::Unresolved => ScanAction::ReadNext,
    }
}

/// Takes one event of the search for the deck.
pub fn scan_step(event: ScanEvent) -> (action: ScanAction)
    ensures
        action == scan_action(event),
{
    match event {
        ScanEvent::Entry(name) => {
            if is_deck_name(name.as_str()) {
                ScanAction::Resolve
            } else {
                ScanAction::ReadNext
            }
        },
        ScanEvent::End => ScanAction::Finish(None),
        ScanEvent::Resolved(path) => ScanAction::Finish(Some(path)),
        ScanEvent::Unresolved => ScanAction::ReadNext,
    }
}

/// An entry of a directory: its name, and the path it leads to, if to any.
pub struct Listed {
    pub name: String,
    pub path: Option<String>,
}

impl Listed {
    /// The entry is a deck that can be reached.
    pub open spec fn is_deck(self) -> bool {
        names_deck(self.name@) && self.path is Some
    }
}

/// What the search comes to on a directory with these entries, step by step.
pub open spec fn scan(entries: Seq<Listed>) -> Option<String>
    decreases entries.len(),
{
    if entries.len() == 0 {
        scan_action(ScanEvent::End)->Finish_0
    } else {
        let after_entry = scan_action(ScanEvent::Entry(entries[0].name));
        let action = if after_entry is Resolve {
            scan_action(
                match entries[0].path {
                    Some(path) => ScanEvent::Resolved(path),
                    None => ScanEvent::Unresolved,
                },
            )
        } else {
            after_entry
        };
        match action {
            ScanAction::Finish(found) => found,
            _ => scan(entries.drop_first()),
        }
    }
}

/// The search finds the first deck of the directory that can be reached, and
/// nothing only where there is none.
pub proof fn scan_finds_the_first_deck(entries: Seq<Listed>)
    ensures
        match scan(entries) {
            Some(path) => exists|i: int|
                0 <= i < entries.len() && (#[trigger] entries[i]).is_deck() && entries[i].path
                    == Some(path) && forall|j: int|
                    0 <= j < i ==> !(#[trigger] entries[j]).is_deck(),
            None => forall|j: int| 0 <= j < entries.len() ==> !(#[trigger] entries[j]).is_deck(),
        },
    decreases entries.len(),
{
    if entries.len() > 0 {
        let rest = entries.drop_first();
        if !entries[0].is_deck() {
            scan_finds_the_first_deck(rest);
            assert forall|j: int| 1 <= j < entries.len() implies entries[j] == rest[j - 1] by {}
            match scan(rest) {
                Some(path) => {
                    let i = choose|i: int|
                        0 <= i < rest.len() && (#[trigger] rest[i]).is_deck() && rest[i].path
                            == Some(path) && forall|j: int|
                            0 <= j < i ==> !(#[trigger] rest[j]).is_deck();
                    assert(entries[i + 1].is_deck());
                },
                None => {},
            }
        } else {
            assert(entries[0].is_deck());
        }
    }
}

} // verus!
