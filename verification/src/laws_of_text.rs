//! What is written and read as text, said of each call by what goes in and
//! what comes out.
use vstd::prelude::*;

use crate::device::{hid_sleep_report, is_deck_name, scan_step, ScanAction, ScanEvent};
use crate::startup::{
    all_digits, parse_port, port_among, port_from_args, startup_brightness, unsigned, value_of,
    PORT_FLAG,
};
use crate::text::{
    contains, decimal, decimal_is_digits, decimal_text, digit, fmt_mmss, mmss, occurs, occurs_at,
};

verus! {

/// The number that a row of digits is read as.
pub open spec fn reads(digits: Seq<char>) -> int
    decreases digits.len(),
{
    if digits.len() == 0 {
        0
    } else {
        10 * reads(digits.drop_last()) + (digits.last() as int - 48)
    }
}

/// Every character is one of `0` to `9`.
pub open spec fn only_digits(text: Seq<char>) -> bool {
    forall|i: int| 0 <= i < text.len() ==> 48 <= #[trigger] text[i] as int <= 57
}

/// The text is the number `n` in digits, without a zero in front.
pub open spec fn is_number(text: Seq<char>, n: int) -> bool {
    &&& text.len() > 0
    &&& only_digits(text)
    &&& reads(text) == n
    &&& text.len() > 1 ==> text[0] != '0'
}

/// The text is a duration of `secs` seconds: a number of seconds below a
/// minute, and minutes with two digits of seconds from there on.
pub open spec fn is_duration(text: Seq<char>, secs: int) -> bool {
    &&& text.len() > 0
    &&& text.last() == 's'
    &&& secs < 60 ==> is_number(text.drop_last(), secs)
    &&& secs >= 60 ==> {
        let n = text.len() - 5;
        &&& n > 0
        &&& is_number(text.take(n), secs / 60)
        &&& text[n] == 'm'
        &&& text[n + 1] == ' '
        &&& only_digits(seq![text[n + 2], text[n + 3]])
        &&& 10 * (text[n + 2] as int - 48) + (text[n + 3] as int - 48) == secs % 60
    }
}

proof fn reads_is_value(digits: Seq<char>)
    requires
        only_digits(digits),
    ensures
        reads(digits) == value_of(digits),
        reads(digits) >= 0,
        all_digits(digits),
    decreases digits.len(),
{
    if digits.len() > 0 {
        assert forall|i: int| 0 <= i < digits.drop_last().len() implies 48
            <= #[trigger] digits.drop_last()[i] as int <= 57 by {
            assert(digits.drop_last()[i] == digits[i]);
        }
        reads_is_value(digits.drop_last());
    }
}

pub(crate) proof fn decimal_is_number(n: nat)
    ensures
        is_number(decimal(n), n as int),
        n > 0 ==> decimal(n)[0] != '0',
    decreases n,
{
    decimal_is_digits(n);
    assert(decimal(n).last() == digit(n % 10));
    if n < 10 {
        assert(reads(decimal(n).drop_last()) == 0);
    } else {
        decimal_is_number(n / 10);
        assert(decimal(n).drop_last() =~= decimal(n / 10));
        assert(decimal(n)[0] == decimal(n / 10)[0]);
    }
}

pub(crate) proof fn mmss_is_duration(secs: nat)
    ensures
        is_duration(mmss(secs), secs as int),
{
    reveal_strlit("m ");
    reveal_strlit("s");
    decimal_is_number(secs);
    decimal_is_number(secs / 60);
    if secs < 60 {
        assert(mmss(secs).drop_last() =~= decimal(secs));
    } else {
        let n = mmss(secs).len() - 5;
        assert(mmss(secs).take(n) =~= decimal(secs / 60));
        assert(mmss(secs)[n + 2] == digit((secs % 60) / 10));
        assert(mmss(secs)[n + 3] == digit((secs % 60) % 10));
    }
}

/// Decimal notation is read as the number it was made from, and has no zero
/// in front.
pub proof fn decimal_text_is_the_number(n: u64, text: String)
    requires
        call_ensures(decimal_text, (n,), text),
    ensures
        is_number(text@, n as int),
{
    decimal_is_number(n as nat);
}

/// A duration as text is read as the seconds it was made from.
pub proof fn duration_text_is_the_duration(secs: u64, text: String)
    requires
        call_ensures(fmt_mmss, (secs,), text),
    ensures
        is_duration(text@, secs as int),
{
    mmss_is_duration(secs as nat);
}

/// The text is made of these three parts, one after the other.
pub open spec fn made_of(
    text: Seq<char>,
    before: Seq<char>,
    part: Seq<char>,
    after: Seq<char>,
) -> bool {
    text == before + part + after
}

/// A text contains exactly the parts that something can be put before and
/// after to make it.
pub proof fn contained_parts_make_up_the_text(hay: &str, needle: &str, b: bool)
    requires
        call_ensures(contains, (hay, needle), b),
    ensures
        b <==> exists|before: Seq<char>, after: Seq<char>| #[trigger]
            made_of(hay@, before, needle@, after),
{
    occurs_as_part(hay@, needle@);
}

proof fn occurs_as_part(hay: Seq<char>, needle: Seq<char>)
    ensures
        occurs(needle, hay) <==> exists|before: Seq<char>, after: Seq<char>| #[trigger]
            made_of(hay, before, needle, after),
{
    if occurs(needle, hay) {
        let i = choose|i: int| occurs_at(needle, hay, i);
        let before = hay.take(i);
        let after = hay.skip(i + needle.len());
        assert(hay =~= before + needle + after);
        assert(made_of(hay, before, needle, after));
    }
    if exists|before: Seq<char>, after: Seq<char>| #[trigger] made_of(hay, before, needle, after) {
        let (before, after) = choose|before: Seq<char>, after: Seq<char>| #[trigger]
            made_of(hay, before, needle, after);
        let i = before.len() as int;
        assert(hay.subrange(i, i + needle.len()) =~= needle);
        assert(occurs_at(needle, hay, i));
    }
}

/// The name has both parts that the names of decks have.
pub open spec fn has_deck_parts(name: Seq<char>) -> bool {
    &&& exists|before: Seq<char>, after: Seq<char>| #[trigger]
        made_of(name, before, "Elgato_Stream_Deck"@, after)
    &&& exists|before: Seq<char>, after: Seq<char>| #[trigger]
        made_of(name, before, "hidraw"@, after)
}

/// A device is a deck exactly if its name has both parts.
pub proof fn decks_are_known_by_their_names(name: &str, b: bool)
    requires
        call_ensures(is_deck_name, (name,), b),
    ensures
        b <==> has_deck_parts(name@),
{
    occurs_as_part(name@, "Elgato_Stream_Deck"@);
    occurs_as_part(name@, "hidraw"@);
}

/// The search asks where an entry leads to exactly if its name is that of a
/// deck; it ends with a path exactly when one was found, and without one only
/// at the end of the directory; in all other cases it goes on.
pub proof fn search_takes_the_right_step(event: ScanEvent, action: ScanAction)
    requires
        call_ensures(scan_step, (event,), action),
    ensures
        action is Resolve <==> (event matches ScanEvent::Entry(name) && has_deck_parts(name@)),
        action is Finish <==> event is Resolved || event is End,
        action matches ScanAction::Finish(found) ==> match found {
            Some(path) => event == ScanEvent::Resolved(path),
            None => event is End,
        },
{
    match event {
        ScanEvent::Entry(name) => {
            occurs_as_part(name@, "Elgato_Stream_Deck"@);
            occurs_as_part(name@, "hidraw"@);
        },
        _ => {},
    }
}

/// A row of digits is read as a port, with or without a plus sign in front,
/// exactly if it stands for a number of 16 bits, and then as that number.
pub proof fn digits_are_read_as_a_port(text: &str, digits: Seq<char>, port: Option<u16>)
    requires
        call_ensures(parse_port, (text,), port),
        digits.len() > 0,
        only_digits(digits),
        text@ == digits || text@ == seq!['+'] + digits,
    ensures
        reads(digits) < 65536 ==> port is Some && port->0 == reads(digits),
        reads(digits) >= 65536 ==> port is None,
{
    reads_is_value(digits);
    assert(unsigned(text@) =~= digits);
}

/// Nothing but a row of digits, with or without a plus sign in front, is read
/// as a port.
pub proof fn only_digits_are_read_as_a_port(text: &str, port: u16)
    requires
        call_ensures(parse_port, (text,), Some(port)),
    ensures
        exists|digits: Seq<char>|
            {
                &&& digits.len() > 0
                &&& #[trigger] only_digits(digits)
                &&& reads(digits) == port
                &&& text@ == digits || text@ == seq!['+'] + digits
            },
{
    let digits = unsigned(text@);
    assert(only_digits(digits)) by {
        assert forall|i: int| 0 <= i < digits.len() implies 48 <= #[trigger] digits[i] as int
            <= 57 by {
            assert('0' <= digits[i] <= '9');
        }
    }
    reads_is_value(digits);
    if text@ != digits {
        assert(text@ =~= seq!['+'] + digits);
    }
}

proof fn port_behind_flag(args: Seq<String>, i: int)
    requires
        0 <= i < args.len(),
        args[i]@ == PORT_FLAG@,
        forall|j: int| 0 <= j < i ==> (#[trigger] args[j])@ != PORT_FLAG@,
    ensures
        i + 1 < args.len() ==> port_among(args) == crate::startup::port_in(args[i + 1]@),
        i + 1 == args.len() ==> port_among(args) is None,
    decreases args.len(),
{
    if i > 0 {
        let rest = args.drop_first();
        assert(args[0]@ != PORT_FLAG@);
        assert forall|j: int| 0 <= j < i - 1 implies (#[trigger] rest[j])@ != PORT_FLAG@ by {
            assert(rest[j] == args[j + 1]);
        }
        port_behind_flag(rest, i - 1);
    }
}

proof fn no_flag_no_port(args: Seq<String>)
    requires
        forall|j: int| 0 <= j < args.len() ==> (#[trigger] args[j])@ != PORT_FLAG@,
    ensures
        port_among(args) is None,
    decreases args.len(),
{
    if args.len() > 0 {
        let rest = args.drop_first();
        assert forall|j: int| 0 <= j < rest.len() implies (#[trigger] rest[j])@ != PORT_FLAG@ by {
            assert(rest[j] == args[j + 1]);
        }
        assert(args[0]@ != PORT_FLAG@);
        no_flag_no_port(rest);
    }
}

/// The port among the arguments is what the argument behind the first flag is
/// read as.
pub proof fn port_stands_behind_the_first_flag(
    args: Vec<String>,
    i: int,
    text: &str,
    read: Option<u16>,
    port: Option<u16>,
)
    requires
        call_ensures(port_from_args, (&args,), port),
        0 <= i,
        i + 1 < args@.len(),
        args@[i]@ == "-port"@,
        forall|j: int| 0 <= j < i ==> (#[trigger] args@[j])@ != "-port"@,
        text@ == args@[i + 1]@,
        call_ensures(parse_port, (text,), read),
    ensures
        port == read,
{
    port_behind_flag(args@, i);
}

/// Without a flag, or with the first flag at the end, the arguments give no
/// port.
pub proof fn no_port_without_a_flag_before_it(args: Vec<String>, port: Option<u16>)
    requires
        call_ensures(port_from_args, (&args,), port),
        forall|j: int| 0 <= j < args@.len() - 1 ==> (#[trigger] args@[j])@ != "-port"@,
    ensures
        port is None,
{
    if args@.len() > 0 && args@.last()@ == PORT_FLAG@ {
        port_behind_flag(args@, args@.len() - 1);
    } else {
        no_flag_no_port(args@);
    }
}

/// The report that switches the display off holds `CRT` and, behind two
/// zeros, `HAN`; all else in its 513 bytes is zero.
pub proof fn sleep_report_holds_its_two_words(report: Vec<u8>, i: int)
    requires
        call_ensures(hid_sleep_report, (), report),
        0 <= i < 513,
    ensures
        report@.len() == 513,
        i == 1 ==> report@[i] as int == 'C' as int,
        i == 2 ==> report@[i] as int == 'R' as int,
        i == 3 ==> report@[i] as int == 'T' as int,
        i == 6 ==> report@[i] as int == 'H' as int,
        i == 7 ==> report@[i] as int == 'A' as int,
        i == 8 ==> report@[i] as int == 'N' as int,
        !(1 <= i <= 3) && !(6 <= i <= 8) ==> report@[i] == 0,
{
}

/// The program starts with the normal brightness of settings that nobody has
/// touched.
pub proof fn first_brightness_is_the_normal_one(brightness: u8)
    requires
        call_ensures(startup_brightness, (), brightness),
    ensures
        brightness == 70,
{
}

} // verus!
