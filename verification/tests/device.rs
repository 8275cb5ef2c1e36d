use sleepmode::device::{
    brightness_request, hid_sleep_report, is_deck_name, scan_step, ScanAction, ScanEvent,
    DEVICE_DIR, REGISTER_PAUSE_MS,
};

#[test]
fn report_that_switches_off() {
    let report = hid_sleep_report();
    assert_eq!(report.len(), 513);
    assert_eq!(&report[..9], b"\0CRT\0\0HAN");
    assert!(report[9..].iter().all(|b| *b == 0));
}

#[test]
fn no_port_no_request() {
    assert!(brightness_request(0, 70).is_none());
}

#[test]
fn request_for_a_brightness() {
    let request = brightness_request(57116, 42).unwrap();
    assert_eq!(request.url, "ws://127.0.0.1:57116");
    assert_eq!(
        request.register,
        "{\"event\":\"registerPlugin\",\"uuid\":\"opendeck_alternative_elgato_implementation\"}"
    );
    assert_eq!(
        request.command,
        "{\"action\":\"set\",\"event\":\"deviceBrightness\",\"value\":42}"
    );
}

#[test]
fn request_at_the_limits() {
    let request = brightness_request(65535, 255).unwrap();
    assert_eq!(request.url, "ws://127.0.0.1:65535");
    let command: serde_json::Value = serde_json::from_str(&request.command).unwrap();
    assert_eq!(command["value"], 255);
    assert_eq!(command["event"], "deviceBrightness");
    assert_eq!(command["action"], "set");
    assert_eq!(brightness_request(1, 0).unwrap().url, "ws://127.0.0.1:1");
}

#[test]
fn names_of_decks() {
    assert!(is_deck_name("usb-Elgato_Stream_Deck_MK.2_A00SA-hidraw"));
    assert!(is_deck_name("hidrawElgato_Stream_Deck"));
    assert!(!is_deck_name("usb-Elgato_Stream_Deck_MK.2_A00SA-event-if00"));
    assert!(!is_deck_name("usb-Logitech_Keyboard-hidraw"));
    assert!(!is_deck_name("usb-elgato_stream_deck-hidraw"));
    assert!(!is_deck_name(""));
}

#[test]
fn constants_of_the_device() {
    assert_eq!(DEVICE_DIR, "/dev/input/by-id");
    assert_eq!(REGISTER_PAUSE_MS, 50);
}

fn run(entries: &[(&str, Option<&str>)]) -> Option<String> {
    let mut rest = entries.iter();
    let mut last: Option<&str> = None;
    let mut action = ScanAction::ReadNext;
    loop {
        let event = match action {
            ScanAction::ReadNext => match rest.next() {
                Some((name, path)) => {
                    last = *path;
                    ScanEvent::Entry(name.to_string())
                }
                None => ScanEvent::End,
            },
            ScanAction::Resolve => match last {
                Some(path) => ScanEvent::Resolved(path.to_string()),
                None => ScanEvent::Unresolved,
            },
            ScanAction::Finish(found) => return found,
        };
        action = scan_step(event);
    }
}

#[test]
fn search_steps() {
    assert!(matches!(scan_step(ScanEvent::Entry("mouse".to_string())), ScanAction::ReadNext));
    assert!(matches!(
        scan_step(ScanEvent::Entry("Elgato_Stream_Deck-hidraw".to_string())),
        ScanAction::Resolve
    ));
    assert!(matches!(scan_step(ScanEvent::Unresolved), ScanAction::ReadNext));
    assert!(matches!(scan_step(ScanEvent::End), ScanAction::Finish(None)));
    assert!(matches!(
        scan_step(ScanEvent::Resolved("/dev/hidraw3".to_string())),
        ScanAction::Finish(Some(path)) if path == "/dev/hidraw3"
    ));
}

#[test]
fn search_finds_the_first_deck() {
    let entries = [
        ("usb-Mouse", Some("/dev/input/event1")),
        ("usb-Elgato_Stream_Deck-1-hidraw", None),
        ("usb-Elgato_Stream_Deck-2-hidraw", Some("/dev/hidraw2")),
        ("usb-Elgato_Stream_Deck-3-hidraw", Some("/dev/hidraw3")),
    ];
    assert_eq!(run(&entries), Some("/dev/hidraw2".to_string()));
    assert_eq!(run(&entries[..2]), None);
    assert_eq!(run(&[]), None);
}
