use sleepmode::text::{chars_of, contains, decimal_text, fmt_mmss};

#[test]
fn decimal_notation() {
    for n in [0, 1, 9, 10, 42, 99, 100, 65535, u64::MAX] {
        assert_eq!(decimal_text(n), format!("{n}"));
    }
}

#[test]
fn durations() {
    assert_eq!(fmt_mmss(0), "0s");
    assert_eq!(fmt_mmss(9), "9s");
    assert_eq!(fmt_mmss(59), "59s");
    assert_eq!(fmt_mmss(60), "1m 00s");
    assert_eq!(fmt_mmss(65), "1m 05s");
    assert_eq!(fmt_mmss(119), "1m 59s");
    assert_eq!(fmt_mmss(3600), "60m 00s");
    assert_eq!(fmt_mmss(u64::MAX), "307445734561825860m 15s");
}

#[test]
fn different_durations_look_different() {
    let mut all: Vec<String> = (0..2000).map(fmt_mmss).collect();
    all.sort();
    all.dedup();
    assert_eq!(all.len(), 2000);
}

#[test]
fn characters_of_a_text() {
    assert_eq!(chars_of("a–b"), vec!['a', '–', 'b']);
    assert_eq!(chars_of(""), Vec::new());
}

#[test]
fn parts_of_a_text() {
    for (hay, needle) in [
        ("hidraw", "hidraw"),
        ("xhidraw", "hidraw"),
        ("hidrawx", "hidraw"),
        ("hidhidraw", "hidraw"),
        ("hidra", "hidraw"),
        ("hidrax", "hidraw"),
        ("", "hidraw"),
        ("abc", ""),
        ("", ""),
        ("aab", "ab"),
        ("déjà vu", "à v"),
    ] {
        assert_eq!(contains(hay, needle), hay.contains(needle), "{needle} in {hay}");
    }
    assert!(contains("aab", "ab"));
    assert!(!contains("aab", "ba"));
}
