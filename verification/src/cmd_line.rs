//! Command-line arguments: the values read from the command line, and the
//! decisions the program takes on them.

use vstd::prelude::*;
use crate::proto::{PipeArgs, decimal_digits, digit_char};

verus! {

/// The arguments of one run of the program.
pub struct CmdArguments {
    /// The json message sent to the daemon and on to the browser.
    pub pipe_args: PipeArgs,
    /// The localhost port of the daemon.
    pub port: u16,
    /// Run the daemon only.
    pub daemon_only: bool,
    /// Do one data transfer, then quit the daemon.
    pub once: bool,
    /// Read data from this file rather than standard input.
    pub file: Option<String>,
    /// Pause this many milliseconds after each line read from the file.
    pub trickle: Option<u16>,
}

/// The values given on the command line, as the argument parser found them.
pub struct ArgValues {
    /// `--port`; the parser supplies "3030" when it is absent.
    pub port: String,
    pub name: Option<String>,
    pub file: Option<String>,
    pub dashboard: Option<String>,
    pub chart: Option<String>,
    pub no_show: bool,
    pub replace: bool,
    pub halt: bool,
    pub force_new: bool,
    pub daemon: bool,
    pub once: bool,
}

/// Whether `c` is an ASCII decimal digit.
pub open spec fn is_digit(c: char) -> bool {
    '0' <= c && c <= '9'
}

/// The number written by a sequence of decimal digits.
pub open spec fn digits_value(s: Seq<char>) -> nat
    decreases s.len(),
{
    if s.len() == 0 {
        0
    } else {
        digits_value(s.drop_last()) * 10 + ((s.last() as nat) - 48) as nat
    }
}

/// The digits of a numeral: the text without one leading `+`.
pub open spec fn unsigned_digits(s: Seq<char>) -> Seq<char> {
    if s.len() > 0 && s[0] == '+' {
        s.drop_first()
    } else {
        s
    }
}

/// The 16-bit number that std's `u16::from_str` reads from `s`: an optional
/// `+` followed by one or more decimal digits whose value fits.
pub open spec fn parse_u16_text(s: Seq<char>) -> Option<u16> {
    let d = unsigned_digits(s);
    if d.len() > 0 && (forall|i: int| 0 <= i < d.len() ==> is_digit(#[trigger] d[i]))
        && digits_value(d) <= 65535 {
        Some(digits_value(d) as u16)
    } else {
        None
    }
}

/// A flag given on the command line as the optional value the message
/// carries: `Some(true)` when present, left out otherwise.
pub open spec fn flag_value(present: bool) -> Option<bool> {
    if present {
        Some(true)
    } else {
        None
    }
}

/// Reads a port number.
pub fn parse_port(text: &str) -> (r: Option<u16>)
    ensures
        r == parse_u16_text(text@),
{
    let len = text.unicode_len();
    let mut start: usize = 0;
    if len > 0 && text.get_char(0) == '+' {
        start = 1;
    }
    let ghost d = unsigned_digits(text@);
    assert(d =~= text@.subrange(start as int, len as int));
    if start == len {
        return None;
    }
    let mut value: u32 = 0;
    let mut i: usize = start;
    while i < len
        invariant
            start <= i <= len,
            len == text@.len(),
            d == text@.subrange(start as int, len as int),
            d == unsigned_digits(text@),
            forall|k: int| 0 <= k < i - start ==> is_digit(#[trigger] d[k]),
            value == (if digits_value(d.take(i - start)) <= 65536 {
                digits_value(d.take(i - start))
            } else {
                65536
            }),
        decreases len - i,
    {
        let c = text.get_char(i);
        if !('0' <= c && c <= '9') {
            assert(!is_digit(d[i - start]));
            return None;
        }
        let digit: u32 = (c as u32) - 48;
        assert(d.take(i + 1 - start).drop_last() =~= d.take(i - start));
        value = value * 10 + digit;
        if value > 65536 {
            value = 65536;
        }
        i = i + 1;
    }
    assert(d.take(len - start) =~= d);
    if value <= 65535 {
        Some(value as u16)
    } else {
        None
    }
}

/// What a numeral is worth: a single digit is worth its place in `0..=9`,
/// and a numeral written as `a` followed by `b` is worth `a`'s value times
/// ten to the length of `b`, plus `b`'s value.
pub proof fn law_digits_value_positional(a: Seq<char>, b: Seq<char>)
    ensures
        digits_value(Seq::<char>::empty()) == 0,
        forall|c: char| is_digit(c) ==> #[trigger] digits_value(seq![c]) == (c as nat) - 48,
        digits_value(a + b) == digits_value(a) * vstd::arithmetic::power::pow(10, b.len())
            + digits_value(b),
    decreases b.len(),
{
    reveal(vstd::arithmetic::power::pow);
    assert forall|c: char| is_digit(c) implies #[trigger] digits_value(seq![c]) == (c as nat)
        - 48 by {
        assert(seq![c].drop_last() =~= Seq::<char>::empty());
        assert(digits_value(Seq::<char>::empty()) == 0);
    }
    if b.len() == 0 {
        assert(a + b =~= a);
    } else {
        let b1 = b.drop_last();
        law_digits_value_positional(a, b1);
        assert((a + b).drop_last() =~= a + b1);
        assert((a + b).last() == b.last());
        let p1 = vstd::arithmetic::power::pow(10, b1.len());
        assert(vstd::arithmetic::power::pow(10, b.len()) == 10 * p1);
        let x = digits_value(a);
        let y = digits_value(b1);
        assert((x * p1 + y) * 10 == x * (10 * p1) + y * 10) by (nonlinear_arith);
    }
}

/// A plain numeral of one or more decimal digits, with or without a leading
/// `+` and whatever its leading zeros, is read as its value when that value
/// fits in 16 bits; text with any other character, an empty numeral, or a
/// value above 65535 is refused.
pub proof fn law_parse_numerals(s: Seq<char>)
    ensures
        (s.len() > 0 && (forall|i: int| 0 <= i < s.len() ==> is_digit(#[trigger] s[i]))
            && digits_value(s) <= 65535) ==> {
            &&& parse_u16_text(s) == Some(digits_value(s) as u16)
            &&& parse_u16_text(seq!['+'] + s) == Some(digits_value(s) as u16)
        },
        (s.len() > 0 && (forall|i: int| 0 <= i < s.len() ==> is_digit(#[trigger] s[i]))
            && digits_value(s) > 65535) ==> parse_u16_text(s) is None && parse_u16_text(
            seq!['+'] + s,
        ) is None,
        (exists|i: int| 0 <= i < s.len() && !is_digit(#[trigger] s[i]) && !(i == 0 && s[i]
            == '+')) ==> parse_u16_text(s) is None,
        parse_u16_text(Seq::<char>::empty()) is None,
        parse_u16_text(seq!['+']) is None,
{
    assert((seq!['+'] + s).drop_first() =~= s);
    if s.len() > 0 && s[0] == '+' {
        assert(!is_digit(s[0]));
    }
    if exists|i: int| 0 <= i < s.len() && !is_digit(#[trigger] s[i]) && !(i == 0 && s[i] == '+') {
        let i = choose|i: int| 0 <= i < s.len() && !is_digit(#[trigger] s[i]) && !(i == 0 && s[i]
            == '+');
        let d = unsigned_digits(s);
        if s.len() > 0 && s[0] == '+' {
            assert(d[i - 1] == s[i]);
        } else {
            assert(d[i] == s[i]);
        }
    }
    assert(seq!['+'].drop_first() =~= Seq::<char>::empty());
}

/// The decimal numeral of a number (the one the daemon's address ends in)
/// is made of decimal digits, has no leading zero (it is `0` for zero), and
/// is worth that number.
pub proof fn law_decimal_numeral(n: nat)
    ensures
        decimal_digits(n).len() > 0,
        forall|i: int| 0 <= i < decimal_digits(n).len() ==> is_digit(#[trigger] decimal_digits(n)[i]),
        n == 0 ==> decimal_digits(n) == seq!['0'],
        n > 0 ==> decimal_digits(n)[0] != '0',
        digits_value(decimal_digits(n)) == n,
    decreases n,
{
    lemma_decimal_digits(n);
    assert((digit_char(n % 10) as nat) == 48 + n % 10);
    if n == 0 {
        assert(decimal_digits(n) =~= seq!['0']);
    } else if n < 10 {
        assert((digit_char(n) as nat) == 48 + n);
    } else {
        law_decimal_numeral(n / 10);
        assert(decimal_digits(n)[0] == decimal_digits(n / 10)[0]);
    }
}

/// The decimal numeral of a port is read back as that port.
pub proof fn law_port_numeral_round_trip(port: u16)
    ensures
        parse_u16_text(decimal_digits(port as nat)) == Some(port),
{
    lemma_decimal_digits(port as nat);
}

proof fn lemma_decimal_digits(n: nat)
    ensures
        decimal_digits(n).len() > 0,
        decimal_digits(n)[0] != '+',
        forall|i: int| 0 <= i < decimal_digits(n).len() ==> is_digit(#[trigger] decimal_digits(n)[i]),
        digits_value(decimal_digits(n)) == n,
    decreases n,
{
    assert((digit_char(n % 10) as nat) == 48 + n % 10);
    if n < 10 {
        assert(decimal_digits(n).drop_last() =~= Seq::<char>::empty());
        assert(decimal_digits(n).last() == digit_char(n));
        assert((digit_char(n) as nat) == 48 + n);
        assert(digits_value(Seq::<char>::empty()) == 0);
        assert(digits_value(decimal_digits(n)) == n);
    }
    if n >= 10 {
        lemma_decimal_digits(n / 10);
        let s = decimal_digits(n);
        assert(s.drop_last() =~= decimal_digits(n / 10));
        assert(s[0] == decimal_digits(n / 10)[0]);
        assert(s.last() == digit_char(n % 10));
        assert(digits_value(s) == digits_value(decimal_digits(n / 10)) * 10 + n % 10);
        assert(n == (n / 10) * 10 + n % 10) by (nonlinear_arith);
        assert forall|i: int| 0 <= i < s.len() implies is_digit(#[trigger] s[i]) by {
            if i < s.len() - 1 {
                assert(s[i] == decimal_digits(n / 10)[i]);
            }
        }
    }
}

/// Builds the arguments of a run from the values on the command line.
pub fn cmd_line_arguments(values: ArgValues) -> (r: CmdArguments)
    requires
        parse_u16_text(values.port@) is Some,
    ensures
        Some(r.port) == parse_u16_text(values.port@),
        r.daemon_only == values.daemon,
        r.once == values.once,
        r.file == values.file,
        r.trickle is None,
        r.pipe_args.kind@ == "data"@,
        r.pipe_args.name == values.name,
        r.pipe_args.dashboard == values.dashboard,
        r.pipe_args.chart == values.chart,
        r.pipe_args.no_show == flag_value(values.no_show),
        r.pipe_args.replace == flag_value(values.replace),
        r.pipe_args.halt == flag_value(values.halt),
        r.pipe_args.force_new == flag_value(values.force_new),
{
    let port = match parse_port(values.port.as_str()) {
        Some(p) => p,
        None => 0,
    };
    let pipe_args = PipeArgs {
        kind: "data".to_owned(),
        name: values.name,
        dashboard: values.dashboard,
        chart: values.chart,
        no_show: if values.no_show { Some(true) } else { None },
        replace: if values.replace { Some(true) } else { None },
        halt: if values.halt { Some(true) } else { None },
        force_new: if values.force_new { Some(true) } else { None },
    };
    CmdArguments {
        pipe_args,
        port,
        daemon_only: values.daemon,
        once: values.once,
        file: values.file,
        trickle: None,
    }
}

} // verus!
