//! The default renderer: a canonical human-readable stringification of a raw
//! sample. A numeric sample becomes its decimal digits, a string sample is
//! shown verbatim.

use vstd::prelude::*;
use vstd::string::StringExecFns;
use crate::sample::RawSample;

verus! {

/// The decimal digit character for `d < 10`.
pub open spec fn digit_char(d: nat) -> char {
    if d == 0 {
        '0'
    } else if d == 1 {
        '1'
    } else if d == 2 {
        '2'
    } else if d == 3 {
        '3'
    } else if d == 4 {
        '4'
    } else if d == 5 {
        '5'
    } else if d == 6 {
        '6'
    } else if d == 7 {
        '7'
    } else if d == 8 {
        '8'
    } else {
        '9'
    }
}

/// The canonical decimal digits of `n`, most significant first, with no
/// leading zeros (a single `'0'` for zero).
pub open spec fn dec_digits(n: nat) -> Seq<char>
    decreases n,
{
    if n < 10 {
        seq![digit_char(n)]
    } else {
        dec_digits(n / 10).push(digit_char(n % 10))
    }
}

/// How the default renderer shows a raw sample: decimal digits for a numeric
/// reading, the string itself for a string reading.
pub open spec fn default_render(s: RawSample) -> Seq<char> {
    match s {
        RawSample::Num(n) => dec_digits(n as nat),
        RawSample::Str(t) => t@,
    }
}

fn digit_str(d: u64) -> (s: String)
    requires
        d < 10,
    ensures
        s@ == seq![digit_char(d as nat)],
{
    proof {
        reveal_strlit("0");
        reveal_strlit("1");
        reveal_strlit("2");
        reveal_strlit("3");
        reveal_strlit("4");
        reveal_strlit("5");
        reveal_strlit("6");
        reveal_strlit("7");
        reveal_strlit("8");
        reveal_strlit("9");
    }
    let t: &str = if d == 0 {
        "0"
    } else if d == 1 {
        "1"
    } else if d == 2 {
        "2"
    } else if d == 3 {
        "3"
    } else if d == 4 {
        "4"
    } else if d == 5 {
        "5"
    } else if d == 6 {
        "6"
    } else if d == 7 {
        "7"
    } else if d == 8 {
        "8"
    } else {
        "9"
    };
    proof {
        assert(t@ =~= seq![digit_char(d as nat)]);
    }
    t.to_owned()
}

/// The decimal digits of `n` as a string, exactly `dec_digits(n)`.
pub fn u64_to_decimal(n: u64) -> (s: String)
    ensures
        s@ == dec_digits(n as nat),
    decreases n,
{
    if n < 10 {
        digit_str(n)
    } else {
        let prefix = u64_to_decimal(n / 10);
        let last = digit_str(n % 10);
        let r = prefix.concat(last.as_str());
        proof {
            assert(r@ =~= dec_digits(n as nat));
        }
        r
    }
}

/// Renders a raw sample the default way: `default_render` exactly.
pub fn render_default(s: &RawSample) -> (out: String)
    ensures
        out@ == default_render(*s),
{
    match s {
        RawSample::Num(n) => u64_to_decimal(*n),
        RawSample::Str(t) => t.clone(),
    }
}

} // verus!
