//! Numbers and durations as text.
use vstd::prelude::*;

verus! {

/// The digit for a number from 0 to 9.
pub open spec fn digit(d: nat) -> char {
    (48 + d) as char
}

/// A number in decimal notation, without leading zeros.
pub open spec fn decimal(n: nat) -> Seq<char>
    decreases n,
{
    if n < 10 {
        seq![digit(n)]
    } else {
        decimal(n / 10).push(digit(n % 10))
    }
}

/// A number below 100 in two digits.
pub open spec fn two_digits(n: nat) -> Seq<char> {
    seq![digit(n / 10), digit(n % 10)]
}

/// A duration: minutes and two digits of seconds from one minute on, seconds
/// alone below that.
pub open spec fn mmss(secs: nat) -> Seq<char> {
    if secs >= 60 {
        decimal(secs / 60) + "m "@ + two_digits(secs % 60) + "s"@
    } else {
        decimal(secs) + "s"@
    }
}

/// The digit `d` as text.
fn digit_text(d: u64) -> (text: &'static str)
    requires
        d < 10,
    ensures
        text@ == seq![digit(d as nat)],
{
    proof {
        reveal_strlit("0");
        reveal_strlit("1");
        reveal_strlit("2");
        reveal_strlit("3");
        reveal_strlit("4");
        reveal_strlit("5");
        reveal_strlit("6");
        reveal_strlit("7");
        reveal_strlit("8");
        reveal_strlit("9");
    }
    match d {
        0 => "0",
        1 => "1",
        2 => "2",
        3 => "3",
        4 => "4",
        5 => "5",
        6 => "6",
        7 => "7",
        8 => "8",
        _ => "9",
    }
}

/// `n` in decimal notation.
pub fn decimal_text(n: u64) -> (text: String)
    ensures
        text@ == decimal(n as nat),
    decreases n,
{
    if n < 10 {
        digit_text(n).to_owned()
    } else {
        let mut text = decimal_text(n / 10);
        text.append(digit_text(n % 10));
        text
    }
}

/// A duration of `secs` seconds, such as `1m 05s` or `42s`.
pub fn fmt_mmss(secs: u64) -> (text: String)
    ensures
        text@ == mmss(secs as nat),
{
    let m: u64 = secs / 60;
    let s: u64 = secs % 60;
    if m > 0 {
        let mut text = decimal_text(m);
        text.append("m ");
        text.append(digit_text(s / 10));
        text.append(digit_text(s % 10));
        text.append("s");
        proof {
            assert(text@ =~= mmss(secs as nat));
        }
        text
    } else {
        let mut text = decimal_text(s);
        text.append("s");
        text
    }
}

/// `needle` stands in `hay` from position `i` on.
pub open spec fn occurs_at(needle: Seq<char>, hay: Seq<char>, i: int) -> bool {
    0 <= i && i + needle.len() <= hay.len() && hay.subrange(i, i + needle.len()) == needle
}

/// `needle` stands somewhere in `hay`.
pub open spec fn occurs(needle: Seq<char>, hay: Seq<char>) -> bool {
    exists|i: int| occurs_at(needle, hay, i)
}

/// The characters of a text.
pub fn chars_of(text: &str) -> (chars: Vec<char>)
    ensures
        chars@ == text@,
{
    let mut chars: Vec<char> = Vec::new();
    for c in iter: text.chars()
        invariant
            iter.seq() == text@,
            chars@ == text@.take(iter.index()),
    {
        chars.push(c);
    }
    chars
}

/// Whether `needle` stands in `hay` from position `i` on.
fn matches_at(needle: &Vec<char>, hay: &Vec<char>, i: usize) -> (b: bool)
    requires
        i + needle@.len() <= hay@.len(),
    ensures
        b == occurs_at(needle@, hay@, i as int),
{
    let mut j: usize = 0;
    while j < needle.len()
        invariant
            j <= needle.len(),
            i + needle.len() <= hay.len(),
            forall|k: int| 0 <= k < j ==> hay@[i + k] == #[trigger] needle@[k],
        decreases needle@.len() - j,
    {
        if hay[i + j] != needle[j] {
            assert(hay@.subrange(i as int, i + needle@.len())[j as int] != needle@[j as int]);
            return false;
        }
        j += 1;
    }
    assert(hay@.subrange(i as int, i + needle@.len()) =~= needle@);
    true
}

/// Whether `needle` stands somewhere in `hay`.
pub fn contains(hay: &str, needle: &str) -> (b: bool)
    ensures
        b == occurs(needle@, hay@),
{
    let text = chars_of(hay);
    let part = chars_of(needle);
    let mut i: usize = 0;
    while part.len() <= text.len() - i
        invariant
            text@ == hay@,
            part@ == needle@,
            i <= text.len(),
            forall|k: int| 0 <= k < i ==> !occurs_at(needle@, hay@, k),
        decreases text.len() - i,
    {
        if matches_at(&part, &text, i) {
            return true;
        }
        assert(part.len() > 0) by {
            if part@.len() == 0 {
                assert(hay@.subrange(i as int, i as int) =~= needle@);
            }
        }
        i += 1;
    }
    false
}

/// Every character of a number in decimal notation is a digit, and there is
/// at least one.
pub proof fn decimal_is_digits(n: nat)
    ensures
        decimal(n).len() > 0,
        forall|i: int| 0 <= i < decimal(n).len() ==> '0' <= #[trigger] decimal(n)[i] <= '9',
    decreases n,
{
    if n >= 10 {
        decimal_is_digits(n / 10);
    }
}

/// Different numbers have different decimal notations.
pub proof fn decimal_is_injective(a: nat, b: nat)
    requires
        decimal(a) == decimal(b),
    ensures
        a == b,
    decreases a,
{
    decimal_is_digits(a);
    decimal_is_digits(b);
    if a < 10 && b < 10 {
        assert(decimal(a)[0] == digit(a));
        assert(decimal(b)[0] == digit(b));
    } else if a < 10 {
        decimal_is_digits(b / 10);
        assert(decimal(a).len() == 1);
    } else if b < 10 {
        decimal_is_digits(a / 10);
        assert(decimal(b).len() == 1);
    } else {
        assert(decimal(a).last() == digit(a % 10));
        assert(decimal(b).last() == digit(b % 10));
        assert(decimal(a).drop_last() =~= decimal(a / 10));
        assert(decimal(b).drop_last() =~= decimal(b / 10));
        decimal_is_injective(a / 10, b / 10);
    }
}

/// Different durations are shown differently.
pub proof fn mmss_is_injective(a: nat, b: nat)
    requires
        mmss(a) == mmss(b),
    ensures
        a == b,
{
    reveal_strlit("m ");
    reveal_strlit("s");
    decimal_is_digits(a);
    decimal_is_digits(b);
    decimal_is_digits(a / 60);
    decimal_is_digits(b / 60);
    if a >= 60 && b >= 60 {
        let n = mmss(a).len() - 5;
        assert(mmss(a).take(n) =~= decimal(a / 60));
        assert(mmss(b).take(n) =~= decimal(b / 60));
        decimal_is_injective(a / 60, b / 60);
        assert(mmss(a)[n + 2] == digit((a % 60) / 10));
        assert(mmss(b)[n + 2] == digit((b % 60) / 10));
        assert(mmss(a)[n + 3] == digit((a % 60) % 10));
        assert(mmss(b)[n + 3] == digit((b % 60) % 10));
    } else if a >= 60 {
        let n = mmss(a).len() - 5;
        assert(mmss(a)[n] == 'm');
        assert(mmss(b)[n] == decimal(b)[n]);
    } else if b >= 60 {
        let n = mmss(b).len() - 5;
        assert(mmss(b)[n] == 'm');
        assert(mmss(a)[n] == decimal(a)[n]);
    } else {
        assert(mmss(a).drop_last() =~= decimal(a));
        assert(mmss(b).drop_last() =~= decimal(b));
        decimal_is_injective(a, b);
    }
}

} // verus!
