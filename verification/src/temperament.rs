//! Musical pitches and tuning systems.
//!
//! A [`Pitch`] is a note class, an octave number and a whole-cent offset,
//! kept in a canonical form by [`Pitch::normalize`]. Every operation is
//! exact integer arithmetic over cents: 100 cents to the semitone, 1200 to
//! the octave. A [`Temperament`] anchors such pitches to a base frequency.

use vstd::prelude::*;

verus! {

use vstd::arithmetic::div_mod::lemma_div_minus_one;
use vstd::arithmetic::div_mod::lemma_fundamental_div_mod;
use vstd::arithmetic::div_mod::lemma_mod_bound;

/// Widest per-field magnitude on which `normalize` is defined. Far beyond
/// any musical value; bounded only so that the folding arithmetic stays
/// inside `i64`.
pub const PITCH_RAW_LIMIT: i64 = 1_000_000_000_000_000;

/// Per-field magnitude guaranteed for every pitch the constructors return,
/// and the domain of `difference_to`.
pub const PITCH_BOUND: i64 = 4_000_000_000_000;

/// Magnitude accepted for the raw note, octave and cents arguments of the
/// constructors, and for a cents shift handed to `add`.
pub const PITCH_INPUT_LIMIT: i64 = 1_000_000_000;

/// Total-cents magnitude up to which `add` accepts its receiver.
pub const PITCH_TOTAL_LIMIT: i64 = 1_000_000_000_000_000;

/// How many whole semitones a cents count folds away: rounded toward zero,
/// which is what transferring 100 cents at a time to the note class does.
pub open spec fn cents_carry(c: int) -> int {
    if c >= 0 {
        c / 100
    } else {
        -((-c) / 100)
    }
}

/// What remains of a cents count once whole semitones are folded away:
/// strictly within one semitone, with the sign of the input.
pub open spec fn fold_cents(c: int) -> int {
    c - 100 * cents_carry(c)
}

/// A musical pitch: note class (C = 0, C# = 1, ..., B = 11 once normalized),
/// octave number (0 holds C0; octave 4 holds concert A), and a cents offset
/// kept strictly within one semitone by normalization.
#[derive(Clone, Copy, PartialEq, Eq, Structural, Debug)]
pub struct Pitch {
    pub note: i64,
    pub octave: i64,
    pub cents: i64,
}

impl Pitch {
    /// The pitch's absolute position as a single count of cents:
    /// 1200 per octave, 100 per note class step.
    pub open spec fn total_cents(self) -> int {
        1200 * self.octave + 100 * self.note + self.cents
    }

    /// Canonical form: the note class lies within the octave and the cents
    /// offset strictly within one semitone.
    pub open spec fn is_normal(self) -> bool {
        &&& 0 <= self.note <= 11
        &&& -100 < self.cents < 100
    }

    /// The domain of `normalize`: each field within `PITCH_RAW_LIMIT`.
    pub open spec fn in_range(self) -> bool {
        &&& -PITCH_RAW_LIMIT <= self.note <= PITCH_RAW_LIMIT
        &&& -PITCH_RAW_LIMIT <= self.octave <= PITCH_RAW_LIMIT
        &&& -PITCH_RAW_LIMIT <= self.cents <= PITCH_RAW_LIMIT
    }

    /// Each field within `PITCH_BOUND`; guaranteed by the constructors and
    /// required by `difference_to`.
    pub open spec fn bounded(self) -> bool {
        &&& -PITCH_BOUND <= self.note <= PITCH_BOUND
        &&& -PITCH_BOUND <= self.octave <= PITCH_BOUND
        &&& -PITCH_BOUND <= self.cents <= PITCH_BOUND
    }

    /// The canonical form of a pitch: cents folded toward zero into whole
    /// semitones, then the note class reduced into `0..=11` with the octave
    /// absorbing the remaining twelves.
    pub open spec fn spec_normalized(self) -> Pitch {
        let shifted = self.note + cents_carry(self.cents as int);
        Pitch {
            note: (shifted % 12) as i64,
            octave: (self.octave + shifted / 12) as i64,
            cents: fold_cents(self.cents as int) as i64,
        }
    }
}

impl Pitch {
    /// The normalized pitch at `note`, `octave`, with no cents offset.
    pub fn from(note: i64, octave: i64) -> (r: Pitch)
        requires
            -PITCH_INPUT_LIMIT <= note <= PITCH_INPUT_LIMIT,
            -PITCH_INPUT_LIMIT <= octave <= PITCH_INPUT_LIMIT,
        ensures
            r == (Pitch { note, octave, cents: 0 }).spec_normalized(),
            r.is_normal(),
            r.bounded(),
            r.total_cents() == 1200 * octave + 100 * note,
    {
        Self::from_with_cents(note, octave, 0)
    }

    /// The normalized pitch at `note`, `octave`, offset by `cents`.
    pub fn from_with_cents(note: i64, octave: i64, cents: i64) -> (r: Pitch)
        requires
            -PITCH_INPUT_LIMIT <= note <= PITCH_INPUT_LIMIT,
            -PITCH_INPUT_LIMIT <= octave <= PITCH_INPUT_LIMIT,
            -PITCH_INPUT_LIMIT <= cents <= PITCH_INPUT_LIMIT,
        ensures
            r == (Pitch { note, octave, cents }).spec_normalized(),
            r.is_normal(),
            r.bounded(),
            r.total_cents() == 1200 * octave + 100 * note + cents,
    {
        let mut pitch = Pitch { note, octave, cents };
        pitch.normalize();
        proof {
            lemma_spec_normalized_props(Pitch { note, octave, cents });
            lemma_normal_octave_bound(pitch);
        }
        pitch
    }

    /// A new pitch shifted by the given number of cents (positive or
    /// negative, spanning any number of octaves) and normalized.
    pub fn add(&self, cents: i64) -> (r: Pitch)
        requires
            self.is_normal(),
            -PITCH_TOTAL_LIMIT <= self.total_cents() <= PITCH_TOTAL_LIMIT,
            -PITCH_INPUT_LIMIT <= cents <= PITCH_INPUT_LIMIT,
        ensures
            r == (Pitch {
                note: self.note,
                octave: self.octave,
                cents: (self.cents + cents) as i64,
            }).spec_normalized(),
            r.is_normal(),
            r.bounded(),
            r.total_cents() == self.total_cents() + cents,
    {
        proof {
            lemma_normal_octave_bound(*self);
        }
        let mut pitch = Pitch { note: self.note, octave: self.octave, cents: self.cents + cents };
        pitch.normalize();
        proof {
            lemma_spec_normalized_props(
                Pitch { note: self.note, octave: self.octave, cents: (self.cents + cents) as i64 },
            );
            lemma_normal_octave_bound(pitch);
        }
        pitch
    }

    /// Folds the cents offset into whole note steps, 100 cents at a time and
    /// toward zero, then the note class into octaves, twelve steps at a time,
    /// leaving the pitch in canonical form at the same position.
    #[verifier::loop_isolation(false)]
    pub fn normalize(&mut self)
        requires
            old(self).in_range(),
        ensures
            *final(self) == old(self).spec_normalized(),
    {
        let ghost orig = *self;
        while self.cents >= 100
            invariant
                self.octave == orig.octave,
                100 * self.note + self.cents == 100 * orig.note + orig.cents,
                self.cents >= 0 || self.cents == orig.cents,
                fold_cents(self.cents as int) == fold_cents(orig.cents as int),
            decreases self.cents,
        {
            proof {
                lemma_fold_cents_step_down(self.cents as int);
            }
            self.cents = self.cents - 100;
            self.note = self.note + 1;
        }
        while self.cents <= -100
            invariant
                self.octave == orig.octave,
                100 * self.note + self.cents == 100 * orig.note + orig.cents,
                self.cents < 100,
                fold_cents(self.cents as int) == fold_cents(orig.cents as int),
            decreases -self.cents,
        {
            proof {
                lemma_fold_cents_step_up(self.cents as int);
            }
            self.cents = self.cents + 100;
            self.note = self.note - 1;
        }
        proof {
            lemma_fold_cents_small(self.cents as int);
        }
        while self.note > 11
            invariant
                self.total_cents() == orig.total_cents(),
                self.cents == fold_cents(orig.cents as int),
                -100 < self.cents < 100,
            decreases self.note,
        {
            self.note = self.note - 12;
            self.octave = self.octave + 1;
        }
        while self.note < 0
            invariant
                self.total_cents() == orig.total_cents(),
                self.cents == fold_cents(orig.cents as int),
                -100 < self.cents < 100,
                self.note <= 11,
            decreases 11 - self.note,
        {
            self.note = self.note + 12;
            self.octave = self.octave - 1;
        }
        proof {
            lemma_spec_normalized_props(orig);
            lemma_normal_unique(*self, orig.spec_normalized());
        }
    }

    /// The signed interval from this pitch to `other`, in cents: 100 per
    /// semitone, 1200 per octave, fractional semitones exact.
    pub fn difference_to(&self, other: &Pitch) -> (r: i64)
        requires
            self.bounded(),
            other.bounded(),
        ensures
            r == spec_difference(*self, *other),
    {
        (self.octave - other.octave) * 1200 + (self.note - other.note) * 100
            + (self.cents - other.cents)
    }
}

/// The signed interval from `a` to `b`, in cents.
pub open spec fn spec_difference(a: Pitch, b: Pitch) -> int {
    a.total_cents() - b.total_cents()
}

/// Folding leaves a remainder strictly within one semitone, of the sign of
/// the input, and removes exactly a whole number of semitones.
pub proof fn lemma_fold_cents_bounds(c: int)
    ensures
        -100 < fold_cents(c) < 100,
        c >= 0 ==> fold_cents(c) >= 0,
        c <= 0 ==> fold_cents(c) <= 0,
        100 * cents_carry(c) + fold_cents(c) == c,
{
    if c >= 0 {
        lemma_fundamental_div_mod(c, 100);
        lemma_mod_bound(c, 100);
        assert(fold_cents(c) == c % 100);
    } else {
        lemma_fundamental_div_mod(-c, 100);
        lemma_mod_bound(-c, 100);
        assert(fold_cents(c) == -((-c) % 100));
    }
}

/// Moving 100 cents into the note class leaves the folded remainder of a
/// cents count of at least one semitone unchanged.
pub proof fn lemma_fold_cents_step_down(c: int)
    requires
        c >= 100,
    ensures
        fold_cents(c - 100) == fold_cents(c),
{
    lemma_div_minus_one(c, 100);
    assert((c - 100) / 100 == c / 100 - 1);
}

/// Moving 100 cents out of the note class leaves the folded remainder of a
/// cents count of at most minus one semitone unchanged.
pub proof fn lemma_fold_cents_step_up(c: int)
    requires
        c <= -100,
    ensures
        fold_cents(c + 100) == fold_cents(c),
{
    lemma_div_minus_one(-c, 100);
    assert((-c - 100) / 100 == (-c) / 100 - 1);
    if c + 100 == 0 {
        assert(fold_cents(0) == 0);
    }
}

/// A cents count already strictly within one semitone folds to itself.
pub proof fn lemma_fold_cents_small(c: int)
    requires
        -100 < c < 100,
    ensures
        fold_cents(c) == c,
{
    if c >= 0 {
        assert(c / 100 == 0);
    } else {
        assert((-c) / 100 == 0);
    }
}

/// Two pitches in canonical form with the same position and the same cents
/// offset are the same pitch.
pub proof fn lemma_normal_unique(a: Pitch, b: Pitch)
    requires
        a.is_normal(),
        b.is_normal(),
        a.total_cents() == b.total_cents(),
        a.cents == b.cents,
    ensures
        a == b,
{
    assert(12 * (a.octave - b.octave) == b.note - a.note);
    assert(a.octave == b.octave);
    assert(a.note == b.note);
}

/// `spec_normalized` lands in canonical form, keeps the pitch's position,
/// and folds the cents offset as `fold_cents` says.
pub proof fn lemma_spec_normalized_props(p: Pitch)
    requires
        p.in_range(),
    ensures
        p.spec_normalized().is_normal(),
        p.spec_normalized().total_cents() == p.total_cents(),
        p.spec_normalized().cents == fold_cents(p.cents as int),
{
    lemma_fold_cents_bounds(p.cents as int);
    let shifted = p.note + cents_carry(p.cents as int);
    lemma_fundamental_div_mod(shifted, 12);
    lemma_mod_bound(shifted, 12);
}

/// A pitch in canonical form has its octave pinned within one octave of its
/// total position.
pub proof fn lemma_normal_octave_bound(p: Pitch)
    requires
        p.is_normal(),
    ensures
        p.total_cents() - 1200 < 1200 * p.octave < p.total_cents() + 100,
{
}

/// Normalization idempotence: a pitch already in canonical form is its own
/// canonical form, so by `normalize`'s postcondition, normalizing it again
/// changes nothing.
pub proof fn lemma_normalize_idempotent(p: Pitch)
    requires
        p.is_normal(),
    ensures
        p.spec_normalized() == p,
{
    lemma_fold_cents_bounds(p.cents as int);
    assert(cents_carry(p.cents as int) == 0);
    assert(p.note % 12 == p.note);
    assert(p.note / 12 == 0);
}

/// Interval antisymmetry: the interval from `a` to `b` is the negation of
/// the interval from `b` to `a`.
pub proof fn lemma_difference_antisymmetric(a: Pitch, b: Pitch)
    ensures
        spec_difference(a, b) == -spec_difference(b, a),
{
}

/// Shift consistency: any pitch whose position lies `c` cents beyond that of
/// `p` — as `add`'s postcondition establishes — is at interval `c` from `p`.
pub proof fn lemma_add_consistent(p: Pitch, q: Pitch, c: int)
    requires
        q.total_cents() == p.total_cents() + c,
    ensures
        spec_difference(q, p) == c,
{
}

/// A tuning system: a closed set of variants with a single member today.
/// Equal temperament divides every octave into twelve even semitones and is
/// anchored at a base pitch — always A of octave 4 — whose frequency is kept
/// here in millihertz.
#[derive(Clone, Copy, PartialEq, Eq, Structural, Debug)]
pub enum Temperament {
    Equal { base_frequency_millihertz: u64, base_pitch: Pitch },
}

impl Temperament {
    /// The frequency of the anchor pitch, in millihertz.
    pub open spec fn spec_base_frequency_millihertz(self) -> u64 {
        match self {
            Temperament::Equal { base_frequency_millihertz, .. } => base_frequency_millihertz,
        }
    }

    /// The anchor pitch of the tuning system.
    pub open spec fn spec_base_pitch(self) -> Pitch {
        match self {
            Temperament::Equal { base_pitch, .. } => base_pitch,
        }
    }

    /// Equal temperament at the standard concert pitch, A4 = 440 Hz.
    pub fn new_default_equal() -> (t: Temperament)
        ensures
            t.spec_base_frequency_millihertz() == 440_000,
            t.spec_base_pitch() == (Pitch { note: 9, octave: 4, cents: 0 }),
            t.spec_base_pitch().is_normal(),
            t.spec_base_pitch().bounded(),
    {
        Self::new_freq_equal(440_000)
    }

    /// Equal temperament anchored at A4 with a caller-chosen frequency,
    /// given in millihertz.
    pub fn new_freq_equal(base_frequency_millihertz: u64) -> (t: Temperament)
        ensures
            t.spec_base_frequency_millihertz() == base_frequency_millihertz,
            t.spec_base_pitch() == (Pitch { note: 9, octave: 4, cents: 0 }),
            t.spec_base_pitch().is_normal(),
            t.spec_base_pitch().bounded(),
    {
        Temperament::Equal {
            base_frequency_millihertz,
            base_pitch: Pitch { note: 9, octave: 4, cents: 0 },
        }
    }

    /// The anchor pitch, by value.
    pub fn get_base_note(&self) -> (r: Pitch)
        ensures
            r == self.spec_base_pitch(),
    {
        match self {
            Temperament::Equal { base_pitch, .. } => *base_pitch,
        }
    }

    /// The frequency of the anchor pitch, in millihertz.
    pub fn get_base_frequency_millihertz(&self) -> (r: u64)
        ensures
            r == self.spec_base_frequency_millihertz(),
    {
        match self {
            Temperament::Equal { base_frequency_millihertz, .. } => *base_frequency_millihertz,
        }
    }
}

} // verus!
