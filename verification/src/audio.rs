//! The integer side of synthesis: where each sample lies in a note's envelope,
//! and how long a mix of buffers is.

use vstd::prelude::*;

verus! {

/// Samples per second of every buffer.
pub const SAMPLE_RATE: u32 = 44100;

/// The four phases of an attack, decay, sustain, release envelope, in the order
/// in which a note passes through them.
#[derive(Debug, Clone, Copy, PartialEq, Eq, Structural)]
pub enum Phase {
    Attack,
    Decay,
    Sustain,
    Release,
}

impl Phase {
    /// The place of the phase in the order of the four.
    pub open spec fn spec_rank(self) -> int {
        match self {
            Phase::Attack => 0,
            Phase::Decay => 1,
            Phase::Sustain => 2,
            Phase::Release => 3,
        }
    }
}

/// Where a sample lies in an envelope: its phase, how many samples of that phase
/// precede it, and how many samples the phase has.
#[derive(Debug, Clone, Copy, PartialEq, Eq, Structural)]
pub struct EnvelopePoint {
    pub phase: Phase,
    pub offset: usize,
    pub span: usize,
}

impl EnvelopePoint {
    /// How far the point lies into its phase, from 0 at the first sample towards 1.
    pub open spec fn spec_progress(self) -> real {
        self.offset as real / self.span as real
    }

    /// The gain at this point for a given sustain level, as an exact number that
    /// sample arithmetic approximates: a ramp from 0 to 1 in the attack, from 1 down
    /// to the sustain level in the decay, the sustain level itself, and a ramp from
    /// there down to 0 in the release.
    pub open spec fn spec_gain(self, sustain: real) -> real {
        match self.phase {
            Phase::Attack => self.spec_progress(),
            Phase::Decay => 1real - (1real - sustain) * self.spec_progress(),
            Phase::Sustain => sustain,
            Phase::Release => sustain * (1real - self.spec_progress()),
        }
    }
}

/// The phase lengths of one note's envelope, in samples.
#[derive(Debug, Clone, Copy, PartialEq, Eq, Structural)]
pub struct Envelope {
    /// Length of the whole note.
    pub total_samples: usize,
    pub attack_samples: usize,
    pub decay_samples: usize,
    /// What the other three phases leave of the note; zero if they leave nothing.
    pub sustain_samples: usize,
    pub release_samples: usize,
}

impl Envelope {
    /// The sustain length of a note: what attack, decay and release leave of it, and
    /// zero where they are longer than the note.
    pub open spec fn spec_sustain(total: int, attack: int, decay: int, release: int) -> int {
        if total - attack - decay - release > 0 {
            total - attack - decay - release
        } else {
            0
        }
    }

    /// The sustain length is the one that the other lengths determine.
    pub open spec fn well_formed(self) -> bool {
        self.sustain_samples == Envelope::spec_sustain(
            self.total_samples as int,
            self.attack_samples as int,
            self.decay_samples as int,
            self.release_samples as int,
        )
    }

    /// Where sample `i` lies. The phases follow each other without gaps, each as long
    /// as its length says; whatever comes after the sustain belongs to the release.
    pub open spec fn spec_locate(self, i: usize) -> EnvelopePoint {
        let attack_end = self.attack_samples as int;
        let decay_end = attack_end + self.decay_samples;
        let sustain_end = decay_end + self.sustain_samples;
        if i < attack_end {
            EnvelopePoint { phase: Phase::Attack, offset: i, span: self.attack_samples }
        } else if i < decay_end {
            EnvelopePoint {
                phase: Phase::Decay,
                offset: (i - attack_end) as usize,
                span: self.decay_samples,
            }
        } else if i < sustain_end {
            EnvelopePoint {
                phase: Phase::Sustain,
                offset: (i - decay_end) as usize,
                span: self.sustain_samples,
            }
        } else {
            EnvelopePoint {
                phase: Phase::Release,
                offset: (i - sustain_end) as usize,
                span: self.release_samples,
            }
        }
    }

    /// Lays out the envelope of a note of `total_samples` samples.
    pub fn new(
        total_samples: usize,
        attack_samples: usize,
        decay_samples: usize,
        release_samples: usize,
    ) -> (envelope: Envelope)
        ensures
            envelope.total_samples == total_samples,
            envelope.attack_samples == attack_samples,
            envelope.decay_samples == decay_samples,
            envelope.release_samples == release_samples,
            envelope.well_formed(),
    {
        let sustain_samples = total_samples.saturating_sub(attack_samples).saturating_sub(
            decay_samples,
        ).saturating_sub(release_samples);
        Envelope { total_samples, attack_samples, decay_samples, sustain_samples, release_samples }
    }

    /// Finds the phase of sample `i` and its place in that phase.
    pub fn locate(&self, i: usize) -> (point: EnvelopePoint)
        ensures
            point == self.spec_locate(i),
    {
        if i < self.attack_samples {
            return EnvelopePoint { phase: Phase::Attack, offset: i, span: self.attack_samples };
        }
        let after_attack: usize = i - self.attack_samples;
        if after_attack < self.decay_samples {
            return EnvelopePoint {
                phase: Phase::Decay,
                offset: after_attack,
                span: self.decay_samples,
            };
        }
        let after_decay: usize = after_attack - self.decay_samples;
        if after_decay < self.sustain_samples {
            return EnvelopePoint {
                phase: Phase::Sustain,
                offset: after_decay,
                span: self.sustain_samples,
            };
        }
        EnvelopePoint {
            phase: Phase::Release,
            offset: after_decay - self.sustain_samples,
            span: self.release_samples,
        }
    }
}

/// The four phases together are at least as long as the note, and exactly as long
/// where attack, decay and release fit into it.
pub proof fn lemma_phases_cover_note(envelope: Envelope)
    requires
        envelope.well_formed(),
    ensures
        envelope.attack_samples + envelope.decay_samples + envelope.sustain_samples
            + envelope.release_samples >= envelope.total_samples,
        envelope.attack_samples + envelope.decay_samples + envelope.release_samples
            <= envelope.total_samples ==> envelope.attack_samples + envelope.decay_samples
            + envelope.sustain_samples + envelope.release_samples == envelope.total_samples,
{
}

/// Every sample of the note lies inside its phase: its offset is below the phase's
/// length, which is therefore not zero, and its progress is a fraction below 1.
pub proof fn lemma_point_within_span(envelope: Envelope, i: usize)
    requires
        envelope.well_formed(),
        i < envelope.total_samples,
    ensures
        envelope.spec_locate(i).offset < envelope.spec_locate(i).span,
        0real <= envelope.spec_locate(i).spec_progress() < 1real,
{
    let point = envelope.spec_locate(i);
    let offset = point.offset as real;
    let span = point.span as real;
    assert(0real <= offset / span < 1real) by (nonlinear_arith)
        requires
            0real <= offset < span,
    ;
}

/// Later samples are never in an earlier phase.
pub proof fn lemma_phases_in_order(envelope: Envelope, i: usize, j: usize)
    requires
        i <= j,
    ensures
        envelope.spec_locate(i).phase.spec_rank() <= envelope.spec_locate(j).phase.spec_rank(),
{
}

/// Within a phase the offset counts the samples one by one, and each phase starts
/// at offset zero.
pub proof fn lemma_offsets_count_up(envelope: Envelope, i: usize)
    requires
        i < usize::MAX,
    ensures
        ({
            let here = envelope.spec_locate(i);
            let next = envelope.spec_locate((i + 1) as usize);
            if next.phase == here.phase {
                next.offset == here.offset + 1 && next.span == here.span
            } else {
                next.offset == 0
            }
        }),
        envelope.spec_locate(0).offset == 0,
{
}

/// With a sustain level between 0 and 1, the exact gain of every sample of the
/// note lies between 0 and 1.
pub proof fn lemma_gain_bounded(envelope: Envelope, i: usize, sustain: real)
    requires
        envelope.well_formed(),
        i < envelope.total_samples,
        0real <= sustain <= 1real,
    ensures
        0real <= envelope.spec_locate(i).spec_gain(sustain) <= 1real,
{
    lemma_point_within_span(envelope, i);
    let progress = envelope.spec_locate(i).spec_progress();
    assert(0real <= (1real - sustain) * progress <= 1real - sustain) by (nonlinear_arith)
        requires
            0real <= progress < 1real,
            0real <= sustain <= 1real,
    ;
    assert(0real <= sustain * (1real - progress) <= sustain) by (nonlinear_arith)
        requires
            0real <= progress < 1real,
            0real <= sustain <= 1real,
    ;
}

/// The exact gain has no jump where attack and decay meet: the attack ramp, followed
/// to the end of its phase, arrives at 1, and the sample at which the decay starts
/// has gain 1.
pub proof fn lemma_attack_meets_decay(envelope: Envelope, sustain: real)
    requires
        envelope.attack_samples > 0,
        envelope.decay_samples > 0,
    ensures
        (EnvelopePoint {
            phase: Phase::Attack,
            offset: envelope.attack_samples,
            span: envelope.attack_samples,
        }).spec_gain(sustain) == 1real,
        envelope.spec_locate(envelope.attack_samples) == (EnvelopePoint {
            phase: Phase::Decay,
            offset: 0,
            span: envelope.decay_samples,
        }),
        envelope.spec_locate(envelope.attack_samples).spec_gain(sustain) == 1real,
{
    let attack = envelope.attack_samples as real;
    let decay = envelope.decay_samples as real;
    assert(attack / attack == 1real) by (nonlinear_arith)
        requires
            attack > 0real,
    ;
    assert((1real - sustain) * (0real / decay) == 0real) by (nonlinear_arith)
        requires
            decay > 0real,
    ;
}

/// The length of the mix of buffers of the given lengths: that of the longest
/// buffer, and zero for no buffers.
pub fn mixed_length(lengths: &Vec<usize>) -> (r: usize)
    ensures
        forall|j: int| 0 <= j < lengths@.len() ==> lengths@[j] <= r,
        r == 0 || exists|j: int| 0 <= j < lengths@.len() && lengths@[j] == r,
{
    let mut longest: usize = 0;
    let mut i: usize = 0;
    while i < lengths.len()
        invariant
            i <= lengths.len(),
            forall|j: int| 0 <= j < i ==> lengths@[j] <= longest,
            longest == 0 || exists|j: int| 0 <= j < i && lengths@[j] == longest,
        decreases lengths.len() - i,
    {
        if lengths[i] > longest {
            longest = lengths[i];
        }
        i += 1;
    }
    longest
}

} // verus!
