use sleepmode::startup::{
    parse_port, port_from_args, startup_brightness, PORT_FLAG, STARTUP_PAUSE_MS, TICK_SECS,
};
use sleepmode::text::decimal_text;

fn args(list: &[&str]) -> Vec<String> {
    list.iter().map(|a| a.to_string()).collect()
}

#[test]
fn ports() {
    for text in [
        "0", "80", "57116", "65535", "+80", "000080", "0000000065535", "", "+", "-", "-1", "-0",
        "+-1", "++1", " 80", "80 ", "8_0", "0x50", "65536", "99999999999999999999", "1e3", "٣",
        "655350", "6553x", "70000x",
    ] {
        assert_eq!(parse_port(text), text.parse::<u16>().ok(), "{text}");
    }
    assert_eq!(parse_port("57116"), Some(57116));
    assert_eq!(parse_port("65536"), None);
}

#[test]
fn every_port_is_read_back() {
    for port in 0..=65535u16 {
        assert_eq!(parse_port(&decimal_text(port as u64)), Some(port));
    }
}

#[test]
fn port_behind_its_flag() {
    assert_eq!(PORT_FLAG, "-port");
    assert_eq!(port_from_args(&args(&["plugin", "-port", "57116", "-info", "{}"])), Some(57116));
    assert_eq!(port_from_args(&args(&["-info", "{}", "-port", "1"])), Some(1));
}

#[test]
fn missing_port() {
    assert_eq!(port_from_args(&args(&[])), None);
    assert_eq!(port_from_args(&args(&["plugin", "port", "80"])), None);
    assert_eq!(port_from_args(&args(&["plugin", "-port"])), None);
    assert_eq!(port_from_args(&args(&["plugin", "-port", "eighty"])), None);
}

#[test]
fn first_flag_counts() {
    assert_eq!(port_from_args(&args(&["-port", "x", "-port", "80"])), None);
    assert_eq!(port_from_args(&args(&["-port", "81", "-port", "80"])), Some(81));
    assert_eq!(port_from_args(&args(&["-port", "-port", "80"])), None);
}

#[test]
fn brightness_at_the_start() {
    assert_eq!(startup_brightness(), 70);
    assert_eq!(STARTUP_PAUSE_MS, 500);
    assert_eq!(TICK_SECS, 1);
}
