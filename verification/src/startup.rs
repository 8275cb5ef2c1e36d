//! What is taken from the command line, and what the program starts with.
use vstd::prelude::*;

use crate::settings::{default_settings, effective, SleepSettings};
use crate::text::{chars_of, decimal, decimal_is_digits, digit};

verus! {

/// Milliseconds to wait before the first brightness is applied.
pub const STARTUP_PAUSE_MS: u64 = 500;

/// Seconds between two ticks of the timer.
pub const TICK_SECS: u64 = 1;

/// The flag before the port.
pub const PORT_FLAG: &'static str = "-port";

/// Every character is a digit.
pub open spec fn all_digits(s: Seq<char>) -> bool {
    forall|i: int| 0 <= i < s.len() ==> '0' <= #[trigger] s[i] <= '9'
}

/// The number that digits stand for in decimal notation.
pub open spec fn value_of(digits: Seq<char>) -> nat
    decreases digits.len(),
{
    if digits.len() == 0 {
        0
    } else {
        (value_of(digits.drop_last()) * 10 + (digits.last() as int - '0' as int)) as nat
    }
}

/// The text without a plus sign at its front.
pub open spec fn unsigned(text: Seq<char>) -> Seq<char> {
    if text.len() > 0 && text[0] == '+' {
        text.skip(1)
    } else {
        text
    }
}

/// The port that a text gives: one or more digits, after a plus sign or none,
/// that stand for a number of 16 bits.
pub open spec fn port_in(text: Seq<char>) -> Option<u16> {
    let digits = unsigned(text);
    if digits.len() > 0 && all_digits(digits) && value_of(digits) <= u16::MAX {
        Some(value_of(digits) as u16)
    } else {
        None
    }
}

/// The port that the arguments give: it stands behind the first flag for it.
pub open spec fn port_among(args: Seq<String>) -> Option<u16>
    decreases args.len(),
{
    if args.len() == 0 {
        None
    } else if args[0]@ == PORT_FLAG@ {
        if args.len() > 1 {
            port_in(args[1]@)
        } else {
            None
        }
    } else {
        port_among(args.drop_first())
    }
}

proof fn value_of_prefix(digits: Seq<char>, k: int)
    requires
        all_digits(digits),
        0 <= k <= digits.len(),
    ensures
        value_of(digits.take(k)) <= value_of(digits),
    decreases digits.len() - k,
{
    if k < digits.len() {
        value_of_prefix(digits, k + 1);
        assert(digits.take(k + 1).drop_last() =~= digits.take(k));
        assert(digits.take(k + 1).last() == digits[k]);
    } else {
        assert(digits.take(k) =~= digits);
    }
}

/// Reads a port.
pub fn parse_port(text: &str) -> (port: Option<u16>)
    ensures
        port == port_in(text@),
{
    let chars = chars_of(text);
    let start: usize = if chars.len() > 0 && chars[0] == '+' {
        1
    } else {
        0
    };
    let ghost digits = unsigned(text@);
    assert(digits =~= chars@.skip(start as int));
    if start == chars.len() {
        return None;
    }
    let mut value: u32 = 0;
    let mut i: usize = start;
    proof {
        assert(digits.take(0) =~= Seq::<char>::empty());
    }
    while i < chars.len()
        invariant
            chars@ == text@,
            digits == unsigned(text@),
            digits == chars@.skip(start as int),
            start <= i <= chars.len(),
            start < chars.len(),
            value <= 65535,
            value == value_of(digits.take(i - start)),
            all_digits(digits.take(i - start)),
        decreases chars.len() - i,
    {
        let c = chars[i];
        assert(digits[i - start] == c);
        if c < '0' || c > '9' {
            return None;
        }
        let ghost k = i - start;
        proof {
            assert(digits.take(k + 1).drop_last() =~= digits.take(k));
            assert(digits.take(k + 1).last() == c);
            assert forall|j: int| 0 <= j < k + 1 implies '0' <= #[trigger] digits.take(k + 1)[j]
                <= '9' by {
                if j < k {
                    assert(digits.take(k + 1)[j] == digits.take(k)[j]);
                }
            }
        }
        value = value * 10 + (c as u32 - '0' as u32);
        if value > 65535 {
            proof {
                if all_digits(digits) {
                    value_of_prefix(digits, k + 1);
                }
            }
            return None;
        }
        i += 1;
    }
    proof {
        assert(digits.take(i - start) =~= digits);
    }
    Some(value as u16)
}

/// Finds the port among the arguments.
pub fn port_from_args(args: &Vec<String>) -> (port: Option<u16>)
    ensures
        port == port_among(args@),
{
    let flag = PORT_FLAG.to_owned();
    let mut i: usize = 0;
    proof {
        assert(args@.skip(0) =~= args@);
    }
    while i < args.len()
        invariant
            flag@ == PORT_FLAG@,
            i <= args.len(),
            port_among(args@) == port_among(args@.skip(i as int)),
        decreases args.len() - i,
    {
        if args[i] == flag {
            if i < args.len() - 1 {
                return parse_port(args[i + 1].as_str());
            }
            return None;
        }
        proof {
            assert(args@.skip(i as int).drop_first() =~= args@.skip(i + 1));
        }
        i += 1;
    }
    None
}

/// The brightness to start with: that of the default settings.
pub fn startup_brightness() -> (brightness: u8)
    ensures
        brightness == default_settings().normal_brightness,
{
    let settings = SleepSettings::default();
    effective(&settings).normal_br
}

/// A port is read back from its decimal notation.
pub proof fn port_is_read_back(port: u16)
    ensures
        port_in(decimal(port as nat)) == Some(port),
{
    value_of_decimal(port as nat);
    decimal_is_digits(port as nat);
    assert(decimal(port as nat)[0] != '+');
}

/// Decimal notation stands for the number it was made from.
pub proof fn value_of_decimal(n: nat)
    ensures
        value_of(decimal(n)) == n,
    decreases n,
{
    assert(decimal(n).last() == digit(n % 10));
    if n < 10 {
        assert(value_of(decimal(n).drop_last()) == 0);
    } else {
        value_of_decimal(n / 10);
        assert(decimal(n).drop_last() =~= decimal(n / 10));
    }
}

} // verus!
