//! The pitch model: pure functions from a musical pitch (chromatic class
//! plus octave) to the frequency-control value of a square-wave voice.
//!
//! The hardware takes a rate-register value `2048 - base >> (4 + octave)`,
//! where `base` is a fixed per-class constant at the reference octave.
//! Higher pitches shift fewer bits away and so write larger register values.

use vstd::prelude::*;

verus! {

/// The twelve chromatic pitch classes, from C up to B.
#[derive(Clone, Copy, PartialEq, Eq, Structural, Debug)]
pub enum Note {
    C,
    CSharp,
    D,
    DSharp,
    E,
    F,
    FSharp,
    G,
    GSharp,
    A,
    ASharp,
    B,
}

/// Octave offsets from the reference octave: two below (`D2`, `D1`) up to
/// eight above (`U0` .. `U8`).
#[derive(Clone, Copy, PartialEq, Eq, Structural, Debug)]
pub enum Octave {
    D2,
    D1,
    U0,
    U1,
    U2,
    U3,
    U4,
    U5,
    U6,
    U7,
    U8,
}

/// Base value of a pitch class at the reference octave. The twelve constants
/// decrease strictly from C to B: a chromatic step up shortens the period by
/// roughly the twelfth root of two, and these are precomputed
/// period-proportional values.
pub open spec fn note_base(n: Note) -> u32 {
    match n {
        Note::C => 8013,
        Note::CSharp => 7566,
        Note::D => 7144,
        Note::DSharp => 6742,
        Note::E => 6362,
        Note::F => 6005,
        Note::FSharp => 5666,
        Note::G => 5346,
        Note::GSharp => 5048,
        Note::A => 4766,
        Note::ASharp => 4499,
        Note::B => 4246,
    }
}

/// Position of a pitch class in the chromatic scale, 0 for C up to 11 for B.
pub open spec fn note_index(n: Note) -> int {
    match n {
        Note::C => 0,
        Note::CSharp => 1,
        Note::D => 2,
        Note::DSharp => 3,
        Note::E => 4,
        Note::F => 5,
        Note::FSharp => 6,
        Note::G => 7,
        Note::GSharp => 8,
        Note::A => 9,
        Note::ASharp => 10,
        Note::B => 11,
    }
}

/// Signed offset of an octave from the reference octave, between -2 and 8.
pub open spec fn octave_offset(o: Octave) -> int {
    match o {
        Octave::D2 => -2,
        Octave::D1 => -1,
        Octave::U0 => 0,
        Octave::U1 => 1,
        Octave::U2 => 2,
        Octave::U3 => 3,
        Octave::U4 => 4,
        Octave::U5 => 5,
        Octave::U6 => 6,
        Octave::U7 => 7,
        Octave::U8 => 8,
    }
}

/// How many bits the base value is shifted right: 4 plus the octave offset,
/// so between 2 and 12 over the defined octaves. The amount is formed as a
/// signed quantity first; the closed octave range keeps it non-negative.
pub open spec fn rate_shift(o: Octave) -> u32 {
    (4 + octave_offset(o)) as u32
}

/// The frequency value of a pitch before it is folded into the register:
/// the class base shifted right once more for every octave step up.
pub open spec fn freq_value(n: Note, o: Octave) -> u32 {
    note_base(n) >> rate_shift(o)
}

/// The rate-register value a square-wave voice is given for a pitch.
pub open spec fn rate_of(n: Note, o: Octave) -> u16 {
    (2048 - freq_value(n, o)) as u16
}

proof fn lemma_note_base_range(n: Note)
    ensures
        4246 <= note_base(n) <= 8013,
{
}

proof fn lemma_octave_offset_range(o: Octave)
    ensures
        -2 <= octave_offset(o) <= 8,
{
}

proof fn lemma_rate_shift_range(o: Octave)
    ensures
        2 <= rate_shift(o) <= 12,
        rate_shift(o) == 4 + octave_offset(o),
{
    lemma_octave_offset_range(o);
}

/// Every defined pitch shifts to a frequency value in [1, 2047], so the
/// register subtraction can never wrap.
pub proof fn lemma_freq_value_bound(n: Note, o: Octave)
    ensures
        1 <= freq_value(n, o) < 2048,
{
    lemma_note_base_range(n);
    lemma_rate_shift_range(o);
    let b = note_base(n);
    let s = rate_shift(o);
    assert(1 <= (b >> s) < 2048) by (bit_vector)
        requires
            4246 <= b <= 8013,
            2 <= s <= 12,
    ;
}

/// Every pitch in the defined enumerations yields values that fit the
/// 16-bit register: the frequency value lies in [1, 2047] and the register
/// value is exactly `2048 - freq_value`, with no truncation. Both are spec
/// functions of the pitch alone, so equal pitches always give equal values.
pub proof fn lemma_rate_fits_register(n: Note, o: Octave)
    ensures
        0 <= freq_value(n, o) <= 0xffff,
        0 <= rate_of(n, o) <= 0xffff,
        rate_of(n, o) == 2048 - freq_value(n, o),
{
    lemma_freq_value_bound(n, o);
}

/// Chromatic ordering: at a fixed octave no higher than U4, moving the pitch
/// class up the scale strictly lowers the frequency value, so the register
/// value written by `sound_rate` strictly rises. Above U4 the shift discards
/// enough bits that neighbouring classes can collide (D and DSharp at U5
/// both shift to 13), so those octaves are left out.
pub proof fn lemma_chromatic_order(n1: Note, n2: Note, o: Octave)
    requires
        note_index(n1) < note_index(n2),
        octave_offset(o) <= 4,
    ensures
        freq_value(n2, o) < freq_value(n1, o),
        rate_of(n1, o) < rate_of(n2, o),
{
    lemma_rate_shift_range(o);
    lemma_freq_value_bound(n1, o);
    lemma_freq_value_bound(n2, o);
    let s = rate_shift(o);
    assert(8013u32 >> s > 7566u32 >> s && 7566u32 >> s > 7144u32 >> s && 7144u32 >> s > 6742u32
        >> s && 6742u32 >> s > 6362u32 >> s && 6362u32 >> s > 6005u32 >> s && 6005u32 >> s
        > 5666u32 >> s && 5666u32 >> s > 5346u32 >> s && 5346u32 >> s > 5048u32 >> s && 5048u32
        >> s > 4766u32 >> s && 4766u32 >> s > 4499u32 >> s && 4499u32 >> s > 4246u32 >> s)
        by (bit_vector)
        requires
            2 <= s <= 8,
    ;
}

/// Octave doubling: raising the octave by one shifts the base value one more
/// bit right, exactly halving (with truncation) the frequency value, which
/// is the register value's distance from the 2048 rate ceiling.
pub proof fn lemma_octave_halving(n: Note, lo: Octave, hi: Octave)
    requires
        octave_offset(hi) == octave_offset(lo) + 1,
    ensures
        freq_value(n, hi) == freq_value(n, lo) / 2,
        2048 - rate_of(n, hi) == (2048 - rate_of(n, lo)) / 2,
{
    lemma_rate_shift_range(lo);
    lemma_rate_shift_range(hi);
    lemma_freq_value_bound(n, lo);
    lemma_freq_value_bound(n, hi);
    let b = note_base(n);
    let s = rate_shift(lo);
    let t = rate_shift(hi);
    assert(b >> t == (b >> s) / 2) by (bit_vector)
        requires
            s <= 11,
            t == s + 1,
    ;
}

impl Octave {
    /// Offset of this octave from the reference octave.
    pub fn value(&self) -> (r: i8)
        ensures
            r as int == octave_offset(*self),
    {
        match *self {
            Octave::D2 => -2,
            Octave::D1 => -1,
            Octave::U0 => 0,
            Octave::U1 => 1,
            Octave::U2 => 2,
            Octave::U3 => 3,
            Octave::U4 => 4,
            Octave::U5 => 5,
            Octave::U6 => 6,
            Octave::U7 => 7,
            Octave::U8 => 8,
        }
    }
}

impl Note {
    /// Base frequency value of this pitch class at the reference octave.
    pub fn value(&self) -> (r: u32)
        ensures
            r == note_base(*self),
    {
        match *self {
            Note::C => 8013,
            Note::CSharp => 7566,
            Note::D => 7144,
            Note::DSharp => 6742,
            Note::E => 6362,
            Note::F => 6005,
            Note::FSharp => 5666,
            Note::G => 5346,
            Note::GSharp => 5048,
            Note::A => 4766,
            Note::ASharp => 4499,
            Note::B => 4246,
        }
    }
}

/// The rate-register value for a square-wave voice playing `note` at
/// `octave`. Total over the two enumerations; the result always fits the
/// 16-bit register.
pub fn sound_rate(note: &Note, octave: &Octave) -> (r: u16)
    ensures
        r == rate_of(*note, *octave),
{
    let base: u32 = note.value();
    let off: i8 = octave.value();
    proof {
        lemma_octave_offset_range(*octave);
        lemma_rate_shift_range(*octave);
        lemma_freq_value_bound(*note, *octave);
    }
    let shift: u32 = (4 + off as i32) as u32;
    let shifted: u32 = base >> shift;
    2048 - (shifted as u16)
}

} // verus!
