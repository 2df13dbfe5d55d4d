//! The tuning settings given as text (on the command line). Each is a decimal
//! number, read exactly: an optional sign, digits, and an optional point with
//! more digits. A value that is missing or not such a number falls back to
//! its default; so does one that is no `i32` over a power of ten up to 10^9,
//! and a division of the octave that is not positive.

use vstd::prelude::*;
use vstd::string::StrSliceExecFns;
use crate::tuning::{DEFAULT_EDO, DEFAULT_REF_KEY, DEFAULT_REF_PITCH, Ratio, Tuning};

verus! {

pub open spec fn is_digit(c: char) -> bool {
    '0' <= c && c <= '9'
}

/// What an unsigned decimal prefix has read so far: the digits as one
/// integer, how many of them follow the point, whether a point was seen, and
/// whether any digit was seen. `None` once a character is out of place.
pub open spec fn scan(s: Seq<char>) -> Option<(int, nat, bool, bool)>
    decreases s.len(),
{
    if s.len() == 0 {
        Some((0, 0, false, false))
    } else {
        match scan(s.drop_last()) {
            Some((v, f, dot, any)) => {
                let c = s.last();
                if is_digit(c) {
                    Some((v * 10 + (c as int - '0' as int), if dot { f + 1 } else { f }, dot, true))
                } else if c == '.' && !dot {
                    Some((v, f, true, any))
                } else {
                    None
                }
            },
            None => None,
        }
    }
}

pub open spec fn has_sign(s: Seq<char>) -> bool {
    s.len() > 0 && (s[0] == '-' || s[0] == '+')
}

/// `s` without its sign.
pub open spec fn unsigned_part(s: Seq<char>) -> Seq<char> {
    if has_sign(s) {
        s.drop_first()
    } else {
        s
    }
}

/// The number that `s` writes, as a numerator over `10^f`: `(numerator, f)`.
pub open spec fn decimal(s: Seq<char>) -> Option<(int, nat)> {
    match scan(unsigned_part(s)) {
        Some((v, f, _, any)) => if any {
            Some((if s.len() > 0 && s[0] == '-' { -v } else { v }, f))
        } else {
            None
        },
        None => None,
    }
}

pub open spec fn pow10(n: nat) -> nat
    decreases n,
{
    if n == 0 {
        1
    } else {
        10 * pow10((n - 1) as nat)
    }
}

/// The setting that `s` writes, where it is a decimal number whose exact
/// fraction fits in a `Ratio`.
pub open spec fn decimal_ratio(s: Seq<char>) -> Option<Ratio> {
    match decimal(s) {
        Some((v, f)) => if -i32::MAX <= v <= i32::MAX && f <= 9 {
            Some(Ratio { num: v as i32, den: pow10(f) as u32 })
        } else {
            None
        },
        None => None,
    }
}

/// The view of an optional string.
pub open spec fn opt_view(text: Option<&str>) -> Option<Seq<char>> {
    match text {
        Some(s) => Some(s@),
        None => None,
    }
}

/// The value of a setting: what `text` writes, where that is a number that a
/// `Ratio` holds and, for a `positive` setting, above zero; `default`
/// otherwise.
pub open spec fn setting_spec(text: Option<Seq<char>>, positive: bool, default: Ratio) -> Ratio {
    match text {
        Some(s) => match decimal_ratio(s) {
            Some(r) => if !positive || r.num > 0 { r } else { default },
            None => default,
        },
        None => default,
    }
}

const CAP: u64 = 0x8000_0000;

/// Ten to the power `f`.
fn pow10_u32(f: u64) -> (r: u32)
    requires
        f <= 9,
    ensures
        r as nat == pow10(f as nat),
        r > 0,
{
    proof {
        reveal_with_fuel(pow10, 10);
    }
    match f {
        0 => 1,
        1 => 10,
        2 => 100,
        3 => 1_000,
        4 => 10_000,
        5 => 100_000,
        6 => 1_000_000,
        7 => 10_000_000,
        8 => 100_000_000,
        _ => 1_000_000_000,
    }
}

/// Reads a decimal number exactly: the setting `s` writes, if any.
pub fn parse_decimal(s: &str) -> (r: Option<Ratio>)
    ensures
        r == decimal_ratio(s@),
        r matches Some(q) ==> q.wf(),
{
    let len = s.unicode_len();
    let mut start: usize = 0;
    let mut neg = false;
    if len > 0 {
        let c = s.get_char(0);
        if c == '-' {
            neg = true;
            start = 1;
        } else if c == '+' {
            start = 1;
        }
    }
    proof {
        assert(unsigned_part(s@) =~= s@.subrange(start as int, len as int));
    }
    let mut i: usize = start;
    let mut valid = true;
    let mut v: u64 = 0;
    let mut f: u64 = 0;
    let mut dot = false;
    let mut any = false;
    while i < len
        invariant
            start <= i <= len,
            len == s@.len(),
            valid == scan(s@.subrange(start as int, i as int)) is Some,
            valid ==> ({
                let t = scan(s@.subrange(start as int, i as int))->Some_0;
                &&& v == (if t.0 < CAP { t.0 } else { CAP as int })
                &&& f == (if t.1 < 10 { t.1 as int } else { 10 })
                &&& dot == t.2
                &&& any == t.3
                &&& t.0 >= 0
            }),
        decreases len - i,
    {
        let c = s.get_char(i);
        proof {
            let p = s@.subrange(start as int, i as int + 1);
            assert(p.drop_last() =~= s@.subrange(start as int, i as int));
            assert(p.last() == c);
        }
        if valid {
            if '0' <= c && c <= '9' {
                let d = (c as u32 - '0' as u32) as u64;
                if v < CAP {
                    v = v * 10 + d;
                    if v > CAP {
                        v = CAP;
                    }
                }
                if dot && f < 10 {
                    f = f + 1;
                }
                any = true;
            } else if c == '.' && !dot {
                dot = true;
            } else {
                valid = false;
            }
        }
        i = i + 1;
    }
    proof {
        assert(s@.subrange(start as int, len as int) =~= unsigned_part(s@));
    }
    if !valid || !any || v > i32::MAX as u64 || f > 9 {
        None
    } else {
        let m = v as i32;
        Some(Ratio { num: if neg { -m } else { m }, den: pow10_u32(f) })
    }
}

/// The value of one setting: what `text` writes, or `default` where `text`
/// is missing, is not a number that a `Ratio` holds, or, for a `positive`
/// setting, is not above zero.
pub fn setting(text: Option<&str>, positive: bool, default: Ratio) -> (r: Ratio)
    ensures
        r == setting_spec(opt_view(text), positive, default),
        default.wf() ==> r.wf(),
        positive && default.num > 0 ==> r.num > 0,
{
    match text {
        Some(s) => match parse_decimal(s) {
            Some(q) => if !positive || q.num > 0 {
                q
            } else {
                default
            },
            None => default,
        },
        None => default,
    }
}

/// The tuning that the three settings give; each one that is missing or not
/// a number falls back to its default (31, 60 and 60), and so does a
/// division of the octave that is not positive.
pub fn tuning_from_settings(edo: Option<&str>, ref_key: Option<&str>, ref_pitch: Option<&str>) -> (r: Tuning)
    ensures
        r.wf(),
        r.edo == setting_spec(opt_view(edo), true, Ratio { num: DEFAULT_EDO, den: 1 }),
        r.ref_key == setting_spec(opt_view(ref_key), false, Ratio { num: DEFAULT_REF_KEY, den: 1 }),
        r.ref_pitch == setting_spec(opt_view(ref_pitch), false, Ratio { num: DEFAULT_REF_PITCH, den: 1 }),
{
    Tuning {
        edo: setting(edo, true, Ratio::whole(DEFAULT_EDO)),
        ref_key: setting(ref_key, false, Ratio::whole(DEFAULT_REF_KEY)),
        ref_pitch: setting(ref_pitch, false, Ratio::whole(DEFAULT_REF_PITCH)),
    }
}

} // verus!
