//! Identifier generation.
//!
//! New entities get identifiers of the form `"{timestamp}_{random_part}"`,
//! where `timestamp` is a coarse (seconds-granularity) reading derived from a
//! nanosecond clock value and `random_part` is a low-entropy value derived
//! from the same clock value modulo 10000. The scheme makes no uniqueness
//! guarantee: two clock readings that agree on both derived values collide.

use vstd::prelude::*;

verus! {

/// The decimal digit character for `d` (`d < 10`).
pub open spec fn digit_char(d: nat) -> char {
    if d == 0 {
        '0'
    } else if d == 1 {
        '1'
    } else if d == 2 {
        '2'
    } else if d == 3 {
        '3'
    } else if d == 4 {
        '4'
    } else if d == 5 {
        '5'
    } else if d == 6 {
        '6'
    } else if d == 7 {
        '7'
    } else if d == 8 {
        '8'
    } else {
        '9'
    }
}

/// The standard decimal representation of `n`: no sign, no leading zeroes
/// (a single `'0'` for zero).
pub open spec fn dec_rep(n: nat) -> Seq<char>
    decreases n,
{
    if n < 10 {
        seq![digit_char(n)]
    } else {
        dec_rep(n / 10).push(digit_char(n % 10))
    }
}

/// The seconds-granularity timestamp derived from a nanosecond clock reading.
pub open spec fn spec_timestamp_seconds(now_nanos: u64) -> u64 {
    now_nanos / 1_000_000_000
}

/// The identifier assigned to an entity created at clock reading `now_nanos`:
/// the coarse timestamp and the clock value modulo 10000, joined by `'_'`.
pub open spec fn spec_id(now_nanos: u64) -> Seq<char> {
    dec_rep(spec_timestamp_seconds(now_nanos) as nat).push('_') + dec_rep(
        (now_nanos % 10000) as nat,
    )
}

/// Converts a nanosecond clock reading to seconds since the epoch.
pub fn timestamp_seconds(now_nanos: u64) -> (t: u64)
    ensures
        t == spec_timestamp_seconds(now_nanos),
{
    now_nanos / 1_000_000_000
}

/// A one-character string slice holding the decimal digit `d`.
fn digit_str(d: u64) -> (s: &'static str)
    requires
        d < 10,
    ensures
        s@ == seq![digit_char(d as nat)],
{
    proof {
        reveal_strlit("0");
        reveal_strlit("1");
        reveal_strlit("2");
        reveal_strlit("3");
        reveal_strlit("4");
        reveal_strlit("5");
        reveal_strlit("6");
        reveal_strlit("7");
        reveal_strlit("8");
        reveal_strlit("9");
    }
    match d {
        0 => "0",
        1 => "1",
        2 => "2",
        3 => "3",
        4 => "4",
        5 => "5",
        6 => "6",
        7 => "7",
        8 => "8",
        _ => "9",
    }
}

/// Renders `n` in decimal.
pub fn u64_to_dec_string(n: u64) -> (s: String)
    ensures
        s@ == dec_rep(n as nat),
    decreases n,
{
    if n < 10 {
        digit_str(n).to_owned()
    } else {
        let mut s = u64_to_dec_string(n / 10);
        s.append(digit_str(n % 10));
        proof {
            assert(s@ =~= dec_rep((n / 10) as nat).push(digit_char((n % 10) as nat)));
        }
        s
    }
}

/// Produces the identifier for an entity created at clock reading
/// `now_nanos`.
pub fn generate_id(now_nanos: u64) -> (id: String)
    ensures
        id@ == spec_id(now_nanos),
{
    proof {
        reveal_strlit("_");
    }
    let mut id = u64_to_dec_string(timestamp_seconds(now_nanos));
    id.append("_");
    let rand = u64_to_dec_string(now_nanos % 10000);
    id.append(rand.as_str());
    proof {
        assert(id@ =~= spec_id(now_nanos));
    }
    id
}

} // verus!
