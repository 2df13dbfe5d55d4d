//! The tuning of the bridge and the mapping from MIDI note numbers to pitch.
//!
//! Settings and pitches are exact rationals, each a numerator over a positive
//! denominator; pitches are counted in conventional semitones (12 to the
//! octave).

use vstd::prelude::*;

verus! {

/// An exact rational setting: `num / den`.
#[derive(Clone, Copy, Debug, PartialEq, Eq)]
pub struct Ratio {
    pub num: i32,
    pub den: u32,
}

impl Ratio {
    pub open spec fn wf(&self) -> bool {
        self.den > 0
    }

    /// The whole number `n`.
    pub fn whole(n: i32) -> (r: Ratio)
        ensures
            r.wf(),
            r.num == n,
            r.den == 1,
    {
        Ratio { num: n, den: 1 }
    }
}

/// `a / b == c / d`, for positive `b` and `d`.
pub open spec fn frac_eq(a: int, b: int, c: int, d: int) -> bool {
    a * d == c * b
}

/// Numerator of the pitch of `note`: with `edo = e`, `key = k` and
/// `ref_pitch = p`, the pitch `(note - k) * 12 / e + p` is
/// `pitch_num(..) / pitch_den(..)`.
pub open spec fn pitch_num(note: int, edo: Ratio, key: Ratio, ref_pitch: Ratio) -> int {
    (note * key.den - key.num) * 12 * edo.den * ref_pitch.den + ref_pitch.num * edo.num * key.den
}

/// Denominator of the pitch of any note; see `pitch_num`.
pub open spec fn pitch_den(edo: Ratio, key: Ratio, ref_pitch: Ratio) -> int {
    edo.num * key.den * ref_pitch.den
}

/// An exact pitch, in semitones: `num / den`.
#[derive(Clone, Copy, Debug, PartialEq, Eq)]
pub struct Pitch {
    pub num: i128,
    pub den: u128,
}

impl Pitch {
    pub open spec fn wf(&self) -> bool {
        self.den > 0
    }
}

/// The equal division of the octave and the key and pitch it is anchored to.
#[derive(Clone, Copy, Debug, PartialEq, Eq)]
pub struct Tuning {
    /// Number of equal steps to the octave.
    pub edo: Ratio,
    /// The MIDI note that sounds at the reference pitch.
    pub ref_key: Ratio,
    /// The pitch of the reference key, in semitones above MIDI note 0.
    pub ref_pitch: Ratio,
}

pub const DEFAULT_EDO: i32 = 31;

pub const DEFAULT_REF_KEY: i32 = 60;

pub const DEFAULT_REF_PITCH: i32 = 60;

pub open spec fn valid_settings(edo: Ratio, ref_key: Ratio, ref_pitch: Ratio) -> bool {
    edo.wf() && edo.num > 0 && ref_key.wf() && ref_pitch.wf()
}

impl Tuning {
    pub open spec fn wf(&self) -> bool {
        valid_settings(self.edo, self.ref_key, self.ref_pitch)
    }

    /// A tuning, or `None` when a denominator is zero or `edo` is not positive.
    pub fn new(edo: Ratio, ref_key: Ratio, ref_pitch: Ratio) -> (r: Option<Tuning>)
        ensures
            r is Some <==> valid_settings(edo, ref_key, ref_pitch),
            r matches Some(t) ==> t.wf() && t.edo == edo && t.ref_key == ref_key
                && t.ref_pitch == ref_pitch,
    {
        if edo.den == 0 || edo.num <= 0 || ref_key.den == 0 || ref_pitch.den == 0 {
            None
        } else {
            Some(Tuning { edo, ref_key, ref_pitch })
        }
    }

    /// The pitch that this tuning gives to MIDI note `midi`.
    pub fn pitch_of(&self, midi: u8) -> (r: Pitch)
        requires
            self.wf(),
        ensures
            r.wf(),
            r.num == pitch_num(midi as int, self.edo, self.ref_key, self.ref_pitch),
            r.den == pitch_den(self.edo, self.ref_key, self.ref_pitch),
    {
        midi_pitch(midi, self.edo, self.ref_key, self.ref_pitch)
    }
}

impl Default for Tuning {
    /// Thirty-one steps to the octave, with MIDI note 60 at pitch 60.
    fn default() -> (r: Tuning)
        ensures
            r.wf(),
            r.edo == (Ratio { num: DEFAULT_EDO, den: 1 }),
            r.ref_key == (Ratio { num: DEFAULT_REF_KEY, den: 1 }),
            r.ref_pitch == (Ratio { num: DEFAULT_REF_PITCH, den: 1 }),
    {
        Tuning {
            edo: Ratio::whole(DEFAULT_EDO),
            ref_key: Ratio::whole(DEFAULT_REF_KEY),
            ref_pitch: Ratio::whole(DEFAULT_REF_PITCH),
        }
    }
}

/// Maps MIDI note `midi` to its pitch, `(midi - ref_key) * 12 / edo + ref_pitch`,
/// exactly.
pub fn midi_pitch(midi: u8, edo: Ratio, ref_key: Ratio, ref_pitch: Ratio) -> (r: Pitch)
    requires
        valid_settings(edo, ref_key, ref_pitch),
    ensures
        r.wf(),
        r.num == pitch_num(midi as int, edo, ref_key, ref_pitch),
        r.den == pitch_den(edo, ref_key, ref_pitch),
{
    let n = midi as i128;
    let (en, ed) = (edo.num as i128, edo.den as i128);
    let (kn, kd) = (ref_key.num as i128, ref_key.den as i128);
    let (pn, pd) = (ref_pitch.num as i128, ref_pitch.den as i128);
    proof {
        assert(0 <= n * kd <= 255 * 0x1_0000_0000) by (nonlinear_arith)
            requires
                0 <= n <= 255,
                0 < kd <= u32::MAX,
        ;
    }
    let steps = n * kd - kn;
    proof {
        let s = steps as int;
        assert(-0x100_0000_0000 * 12 * 0x1_0000_0000 <= s * 12 * ed <= 0x100_0000_0000 * 12
            * 0x1_0000_0000)
            by (nonlinear_arith)
            requires
                -0x100_0000_0000 <= s <= 0x100_0000_0000,
                0 < ed <= u32::MAX,
        ;
        assert(-0x100_0000_0000 * 12 * 0x1_0000_0000 * 0x1_0000_0000 <= s * 12 * ed * pd
            <= 0x100_0000_0000 * 12 * 0x1_0000_0000 * 0x1_0000_0000) by (nonlinear_arith)
            requires
                -0x100_0000_0000 * 12 * 0x1_0000_0000 <= s * 12 * ed <= 0x100_0000_0000 * 12
                    * 0x1_0000_0000,
                0 < pd <= u32::MAX,
        ;
        assert(-0x8000_0000 * 0x8000_0000 <= pn * en <= 0x8000_0000 * 0x8000_0000)
            by (nonlinear_arith)
            requires
                -0x8000_0000 <= pn <= 0x8000_0000,
                0 < en <= 0x8000_0000,
        ;
        assert(-0x8000_0000 * 0x8000_0000 * 0x1_0000_0000 <= pn * en * kd <= 0x8000_0000
            * 0x8000_0000 * 0x1_0000_0000) by (nonlinear_arith)
            requires
                -0x8000_0000 * 0x8000_0000 <= pn * en <= 0x8000_0000 * 0x8000_0000,
                0 < kd <= u32::MAX,
        ;
    }
    let num = steps * 12 * ed * pd + pn * en * kd;
    proof {
        let (a, b, c) = (en as int, kd as int, pd as int);
        assert(0 < a * b <= 0x8000_0000 * 0x1_0000_0000) by (nonlinear_arith)
            requires
                0 < a <= 0x8000_0000,
                0 < b <= u32::MAX,
        ;
        assert(0 < a * b * c <= 0x8000_0000 * 0x1_0000_0000 * 0x1_0000_0000)
            by (nonlinear_arith)
            requires
                0 < a * b <= 0x8000_0000 * 0x1_0000_0000,
                0 < c <= u32::MAX,
        ;
    }
    let den = edo.num as u128 * ref_key.den as u128 * ref_pitch.den as u128;
    Pitch { num, den }
}

/// With twelve steps to the octave the mapping is plain semitone arithmetic:
/// the pitch of `note` is `note - key + ref_pitch`.
pub proof fn lemma_twelve_edo_is_semitones(note: int, edo: Ratio, key: Ratio, ref_pitch: Ratio)
    requires
        valid_settings(edo, key, ref_pitch),
        frac_eq(edo.num as int, edo.den as int, 12, 1),
    ensures
        frac_eq(
            pitch_num(note, edo, key, ref_pitch),
            pitch_den(edo, key, ref_pitch),
            (note * key.den - key.num) * ref_pitch.den + ref_pitch.num * key.den,
            key.den * ref_pitch.den,
        ),
{
    let (en, ed, kn, kd, pn, pd) = (
        edo.num as int,
        edo.den as int,
        key.num as int,
        key.den as int,
        ref_pitch.num as int,
        ref_pitch.den as int,
    );
    let a = note * kd - kn;
    let x = a * pd + pn * kd;
    assert(a * 12 * ed * pd + pn * en * kd == 12 * ed * x) by (nonlinear_arith)
        requires
            en == 12 * ed,
            x == a * pd + pn * kd,
    ;
    assert(en * kd * pd == 12 * ed * (kd * pd)) by (nonlinear_arith)
        requires
            en == 12 * ed,
    ;
    assert((12 * ed * x) * (kd * pd) == x * (12 * ed * (kd * pd))) by (nonlinear_arith);
}

/// For every positive `edo` the pitch is a strictly increasing affine function
/// of the note: the pitches of `n1` and `n2` differ by `(n2 - n1) * 12 / edo`.
pub proof fn lemma_pitch_increasing_affine(n1: int, n2: int, edo: Ratio, key: Ratio, ref_pitch: Ratio)
    requires
        valid_settings(edo, key, ref_pitch),
    ensures
        frac_eq(
            pitch_num(n2, edo, key, ref_pitch) - pitch_num(n1, edo, key, ref_pitch),
            pitch_den(edo, key, ref_pitch),
            (n2 - n1) * 12 * edo.den,
            edo.num as int,
        ),
        pitch_den(edo, key, ref_pitch) > 0,
        n1 < n2 ==> pitch_num(n1, edo, key, ref_pitch) < pitch_num(n2, edo, key, ref_pitch),
{
    let (en, ed, kn, kd, pn, pd) = (
        edo.num as int,
        edo.den as int,
        key.num as int,
        key.den as int,
        ref_pitch.num as int,
        ref_pitch.den as int,
    );
    let d = pitch_num(n2, edo, key, ref_pitch) - pitch_num(n1, edo, key, ref_pitch);
    assert(d == (n2 - n1) * kd * 12 * ed * pd) by (nonlinear_arith)
        requires
            d == ((n2 * kd - kn) * 12 * ed * pd + pn * en * kd) - ((n1 * kd - kn) * 12 * ed * pd
                + pn * en * kd),
    ;
    assert(d * en == (n2 - n1) * 12 * ed * (en * kd * pd)) by (nonlinear_arith)
        requires
            d == (n2 - n1) * kd * 12 * ed * pd,
    ;
    assert(en * kd * pd > 0) by (nonlinear_arith)
        requires
            en > 0,
            kd > 0,
            pd > 0,
    ;
    assert(n1 < n2 ==> d > 0) by (nonlinear_arith)
        requires
            d == (n2 - n1) * kd * 12 * ed * pd,
            kd > 0,
            ed > 0,
            pd > 0,
    ;
}

/// The reference key sounds at the reference pitch, whatever the division:
/// a note equal to `key` is mapped to `ref_pitch`.
pub proof fn lemma_reference_key_at_reference_pitch(note: int, edo: Ratio, key: Ratio, ref_pitch: Ratio)
    requires
        valid_settings(edo, key, ref_pitch),
        frac_eq(note, 1, key.num as int, key.den as int),
    ensures
        frac_eq(
            pitch_num(note, edo, key, ref_pitch),
            pitch_den(edo, key, ref_pitch),
            ref_pitch.num as int,
            ref_pitch.den as int,
        ),
{
    let (en, ed, kn, kd, pn, pd) = (
        edo.num as int,
        edo.den as int,
        key.num as int,
        key.den as int,
        ref_pitch.num as int,
        ref_pitch.den as int,
    );
    assert(((note * kd - kn) * 12 * ed * pd + pn * en * kd) * pd == pn * (en * kd * pd))
        by (nonlinear_arith)
        requires
            note * kd == kn,
    ;
}

} // verus!
