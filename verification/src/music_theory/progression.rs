//! The four-chord progression that characterises each mode.

use vstd::prelude::*;

use crate::music_theory::chord::{Chord, ChordQuality, ChordView};
use crate::music_theory::mode::{lemma_intervals_ascend, Mode};
use crate::music_theory::note::{lemma_transpose_octaves, Note};
use crate::music_theory::tab::{lemma_lookup_finds_row, ChordTabView};

verus! {

/// One place in a progression: which degree of the scale carries the chord, counted
/// from zero, and which quality the chord has.
#[derive(Debug, Clone, Copy, PartialEq, Eq, Structural)]
pub struct Step {
    pub degree: usize,
    pub quality: ChordQuality,
}

impl Mode {
    /// The progression of the mode, as scale degrees and qualities. The table is a
    /// convention of harmony and follows from no rule.
    pub open spec fn spec_template(self) -> Seq<Step> {
        match self {
            // I - IV - I - V
            Mode::Ionian => seq![
                Step { degree: 0, quality: ChordQuality::Major },
                Step { degree: 3, quality: ChordQuality::Major },
                Step { degree: 0, quality: ChordQuality::Major },
                Step { degree: 4, quality: ChordQuality::Major },
            ],
            // i - IV - i - IV
            Mode::Dorian => seq![
                Step { degree: 0, quality: ChordQuality::Minor },
                Step { degree: 3, quality: ChordQuality::Major },
                Step { degree: 0, quality: ChordQuality::Minor },
                Step { degree: 3, quality: ChordQuality::Major },
            ],
            // i - bII - i - bVII
            Mode::Phrygian => seq![
                Step { degree: 0, quality: ChordQuality::Minor },
                Step { degree: 1, quality: ChordQuality::Major },
                Step { degree: 0, quality: ChordQuality::Minor },
                Step { degree: 6, quality: ChordQuality::Major },
            ],
            // I - II - I - II
            Mode::Lydian => seq![
                Step { degree: 0, quality: ChordQuality::Major },
                Step { degree: 1, quality: ChordQuality::Major },
                Step { degree: 0, quality: ChordQuality::Major },
                Step { degree: 1, quality: ChordQuality::Major },
            ],
            // I - bVII - I - bVII
            Mode::Mixolydian => seq![
                Step { degree: 0, quality: ChordQuality::Major },
                Step { degree: 6, quality: ChordQuality::Major },
                Step { degree: 0, quality: ChordQuality::Major },
                Step { degree: 6, quality: ChordQuality::Major },
            ],
            // i - iv - i - v
            Mode::Aeolian => seq![
                Step { degree: 0, quality: ChordQuality::Minor },
                Step { degree: 3, quality: ChordQuality::Minor },
                Step { degree: 0, quality: ChordQuality::Minor },
                Step { degree: 4, quality: ChordQuality::Minor },
            ],
            // i dim - bII - i dim - bV
            Mode::Locrian => seq![
                Step { degree: 0, quality: ChordQuality::Diminished },
                Step { degree: 1, quality: ChordQuality::Major },
                Step { degree: 0, quality: ChordQuality::Diminished },
                Step { degree: 4, quality: ChordQuality::Major },
            ],
        }
    }

    /// The progression of the mode, as scale degrees and qualities.
    pub fn template(&self) -> (r: Vec<Step>)
        ensures
            r@ == self.spec_template(),
    {
        match self {
            Mode::Ionian => vec![
                Step { degree: 0, quality: ChordQuality::Major },
                Step { degree: 3, quality: ChordQuality::Major },
                Step { degree: 0, quality: ChordQuality::Major },
                Step { degree: 4, quality: ChordQuality::Major },
            ],
            Mode::Dorian => vec![
                Step { degree: 0, quality: ChordQuality::Minor },
                Step { degree: 3, quality: ChordQuality::Major },
                Step { degree: 0, quality: ChordQuality::Minor },
                Step { degree: 3, quality: ChordQuality::Major },
            ],
            Mode::Phrygian => vec![
                Step { degree: 0, quality: ChordQuality::Minor },
                Step { degree: 1, quality: ChordQuality::Major },
                Step { degree: 0, quality: ChordQuality::Minor },
                Step { degree: 6, quality: ChordQuality::Major },
            ],
            Mode::Lydian => vec![
                Step { degree: 0, quality: ChordQuality::Major },
                Step { degree: 1, quality: ChordQuality::Major },
                Step { degree: 0, quality: ChordQuality::Major },
                Step { degree: 1, quality: ChordQuality::Major },
            ],
            Mode::Mixolydian => vec![
                Step { degree: 0, quality: ChordQuality::Major },
                Step { degree: 6, quality: ChordQuality::Major },
                Step { degree: 0, quality: ChordQuality::Major },
                Step { degree: 6, quality: ChordQuality::Major },
            ],
            Mode::Aeolian => vec![
                Step { degree: 0, quality: ChordQuality::Minor },
                Step { degree: 3, quality: ChordQuality::Minor },
                Step { degree: 0, quality: ChordQuality::Minor },
                Step { degree: 4, quality: ChordQuality::Minor },
            ],
            Mode::Locrian => vec![
                Step { degree: 0, quality: ChordQuality::Diminished },
                Step { degree: 1, quality: ChordQuality::Major },
                Step { degree: 0, quality: ChordQuality::Diminished },
                Step { degree: 4, quality: ChordQuality::Major },
            ],
        }
    }
}

/// The chord that one step of a mode's template puts on the scale of `root`.
pub open spec fn spec_step_chord(root: Note, mode: Mode, step: Step) -> ChordView {
    ChordView::of(mode.spec_scale(root)[step.degree as int], step.quality)
}

/// The progression of `mode` in the key of `root`: one chord per step of the mode's
/// template, built on the scale note of the step's degree.
pub open spec fn spec_progression(root: Note, mode: Mode) -> Seq<ChordView> {
    Seq::new(
        mode.spec_template().len(),
        |i: int| spec_step_chord(root, mode, mode.spec_template()[i]),
    )
}

/// The views of a list of chords, in order.
pub open spec fn chord_views(chords: Seq<Chord>) -> Seq<ChordView> {
    Seq::new(chords.len(), |i: int| chords[i]@)
}

/// Every template has four steps, starts and restarts on the tonic, and stays on
/// degrees of the scale with qualities that the fingering table covers.
pub proof fn lemma_template_shape(mode: Mode)
    ensures
        mode.spec_template().len() == 4,
        mode.spec_template()[0].degree == 0,
        mode.spec_template()[2] == mode.spec_template()[0],
        forall|i: int|
            0 <= i < 4 ==> (#[trigger] mode.spec_template()[i]).degree
                < mode.spec_intervals().len(),
        forall|i: int| 0 <= i < 4 ==> (#[trigger] mode.spec_template()[i]).quality.spec_tabulated(),
{
}

/// Generates the chord progression of a mode in the key of `root`.
pub fn generate_modal_progression(root: Note, mode: Mode) -> (r: Vec<Chord>)
    ensures
        r@.len() == 4,
        chord_views(r@) == spec_progression(root, mode),
{
    let scale = mode.scale(root);
    let template = mode.template();
    let mut chords: Vec<Chord> = Vec::new();
    let mut i: usize = 0;
    proof {
        lemma_template_shape(mode);
    }
    while i < template.len()
        invariant
            i <= template.len() == 4,
            template@ == mode.spec_template(),
            scale@ == mode.spec_scale(root),
            chords@.len() == i,
            forall|j: int|
                0 <= j < i ==> (#[trigger] chords@[j])@ == spec_progression(root, mode)[j],
        decreases template.len() - i,
    {
        let step = template[i];
        proof {
            lemma_template_shape(mode);
        }
        chords.push(Chord::with_quality(scale[step.degree], step.quality));
        i += 1;
    }
    chords
}

/// A progression has four chords. The first and the third are the same chord, built
/// on the key's root, and every chord has a row in the fingering table.
pub proof fn lemma_progression_shape(root: Note, mode: Mode)
    ensures
        spec_progression(root, mode).len() == 4,
        spec_progression(root, mode)[0].root == root,
        spec_progression(root, mode)[2] == spec_progression(root, mode)[0],
        forall|i: int|
            0 <= i < 4 ==> ChordTabView::lookup(
                (#[trigger] spec_progression(root, mode)[i]).name,
            ) is Some,
{
    lemma_template_shape(mode);
    lemma_intervals_ascend(mode);
    lemma_transpose_octaves(root, 0);
    assert forall|i: int| 0 <= i < 4 implies ChordTabView::lookup(
        (#[trigger] spec_progression(root, mode)[i]).name,
    ) is Some by {
        let step = mode.spec_template()[i];
        lemma_lookup_finds_row(mode.spec_scale(root)[step.degree as int], step.quality);
    }
}

} // verus!
