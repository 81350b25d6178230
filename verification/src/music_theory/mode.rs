//! The seven diatonic modes and the scales they build on a root.

use vstd::prelude::*;

use crate::music_theory::note::{lemma_transpose_injective, Note};
use crate::text::{eq_ignore_ascii_case, same_letter, spells};

verus! {

/// A diatonic mode: one rotation of the major scale's pattern of whole and half steps.
#[derive(Debug, Clone, Copy, PartialEq, Eq, Structural)]
pub enum Mode {
    /// The major scale.
    Ionian,
    Dorian,
    Phrygian,
    Lydian,
    Mixolydian,
    /// The natural minor scale.
    Aeolian,
    Locrian,
}

impl Mode {
    /// The seven scale degrees as semitone distances from the root.
    pub open spec fn spec_intervals(self) -> Seq<u8> {
        match self {
            Mode::Ionian => seq![0u8, 2u8, 4u8, 5u8, 7u8, 9u8, 11u8],
            Mode::Dorian => seq![0u8, 2u8, 3u8, 5u8, 7u8, 9u8, 10u8],
            Mode::Phrygian => seq![0u8, 1u8, 3u8, 5u8, 7u8, 8u8, 10u8],
            Mode::Lydian => seq![0u8, 2u8, 4u8, 6u8, 7u8, 9u8, 11u8],
            Mode::Mixolydian => seq![0u8, 2u8, 4u8, 5u8, 7u8, 9u8, 10u8],
            Mode::Aeolian => seq![0u8, 2u8, 3u8, 5u8, 7u8, 8u8, 10u8],
            Mode::Locrian => seq![0u8, 1u8, 3u8, 5u8, 6u8, 8u8, 10u8],
        }
    }

    /// The seven modes, each one step further round the major scale than the last.
    pub open spec fn spec_all() -> Seq<Mode> {
        seq![
            Mode::Ionian,
            Mode::Dorian,
            Mode::Phrygian,
            Mode::Lydian,
            Mode::Mixolydian,
            Mode::Aeolian,
            Mode::Locrian,
        ]
    }

    /// The mode that a name selects when ASCII case is ignored: each mode by its own
    /// name, Ionian also as `major` and Aeolian also as `minor`.
    pub open spec fn spec_from_string(s: Seq<char>) -> Option<Mode> {
        if spells(s, "ionian"@) || spells(s, "major"@) {
            Some(Mode::Ionian)
        } else if spells(s, "dorian"@) {
            Some(Mode::Dorian)
        } else if spells(s, "phrygian"@) {
            Some(Mode::Phrygian)
        } else if spells(s, "lydian"@) {
            Some(Mode::Lydian)
        } else if spells(s, "mixolydian"@) {
            Some(Mode::Mixolydian)
        } else if spells(s, "aeolian"@) || spells(s, "minor"@) {
            Some(Mode::Aeolian)
        } else if spells(s, "locrian"@) {
            Some(Mode::Locrian)
        } else {
            None
        }
    }

    /// The scale on `root`: the root transposed by each interval of the mode, in order.
    pub open spec fn spec_scale(self, root: Note) -> Seq<Note> {
        Seq::new(
            self.spec_intervals().len(),
            |i: int| root.spec_transpose(self.spec_intervals()[i] as int),
        )
    }

    /// The capitalised name of the mode.
    pub open spec fn spec_name(self) -> Seq<char> {
        match self {
            Mode::Ionian => "Ionian"@,
            Mode::Dorian => "Dorian"@,
            Mode::Phrygian => "Phrygian"@,
            Mode::Lydian => "Lydian"@,
            Mode::Mixolydian => "Mixolydian"@,
            Mode::Aeolian => "Aeolian"@,
            Mode::Locrian => "Locrian"@,
        }
    }

    /// The seven modes, Ionian first.
    pub fn all() -> (r: Vec<Mode>)
        ensures
            r@ == Mode::spec_all(),
    {
        vec![
            Mode::Ionian,
            Mode::Dorian,
            Mode::Phrygian,
            Mode::Lydian,
            Mode::Mixolydian,
            Mode::Aeolian,
            Mode::Locrian,
        ]
    }

    /// The interval pattern of the mode, in semitones from the root.
    pub fn intervals(&self) -> (r: Vec<u8>)
        ensures
            r@ == self.spec_intervals(),
    {
        match self {
            Mode::Ionian => vec![0, 2, 4, 5, 7, 9, 11],
            Mode::Dorian => vec![0, 2, 3, 5, 7, 9, 10],
            Mode::Phrygian => vec![0, 1, 3, 5, 7, 8, 10],
            Mode::Lydian => vec![0, 2, 4, 6, 7, 9, 11],
            Mode::Mixolydian => vec![0, 2, 4, 5, 7, 9, 10],
            Mode::Aeolian => vec![0, 2, 3, 5, 7, 8, 10],
            Mode::Locrian => vec![0, 1, 3, 5, 6, 8, 10],
        }
    }

    /// Parses a mode name such as `"Dorian"`, `"MAJOR"` or `"minor"`.
    pub fn from_string(s: &str) -> (r: Option<Mode>)
        ensures
            r == Mode::spec_from_string(s@),
    {
        if eq_ignore_ascii_case(s, "ionian") || eq_ignore_ascii_case(s, "major") {
            Some(Mode::Ionian)
        } else if eq_ignore_ascii_case(s, "dorian") {
            Some(Mode::Dorian)
        } else if eq_ignore_ascii_case(s, "phrygian") {
            Some(Mode::Phrygian)
        } else if eq_ignore_ascii_case(s, "lydian") {
            Some(Mode::Lydian)
        } else if eq_ignore_ascii_case(s, "mixolydian") {
            Some(Mode::Mixolydian)
        } else if eq_ignore_ascii_case(s, "aeolian") || eq_ignore_ascii_case(s, "minor") {
            Some(Mode::Aeolian)
        } else if eq_ignore_ascii_case(s, "locrian") {
            Some(Mode::Locrian)
        } else {
            None
        }
    }

    /// The notes of the mode's scale starting from `root`.
    pub fn scale(&self, root: Note) -> (r: Vec<Note>)
        ensures
            r@ == self.spec_scale(root),
    {
        let intervals = self.intervals();
        let mut notes: Vec<Note> = Vec::new();
        let mut i: usize = 0;
        while i < intervals.len()
            invariant
                i <= intervals.len(),
                intervals@ == self.spec_intervals(),
                notes@.len() == i,
                forall|j: int| 0 <= j < i ==> notes@[j] == self.spec_scale(root)[j],
            decreases intervals.len() - i,
        {
            notes.push(root.transpose(intervals[i] as i32));
            i += 1;
        }
        notes
    }

    /// The capitalised name of the mode.
    pub fn name(&self) -> (r: &'static str)
        ensures
            r@ == self.spec_name(),
    {
        match self {
            Mode::Ionian => "Ionian",
            Mode::Dorian => "Dorian",
            Mode::Phrygian => "Phrygian",
            Mode::Lydian => "Lydian",
            Mode::Mixolydian => "Mixolydian",
            Mode::Aeolian => "Aeolian",
            Mode::Locrian => "Locrian",
        }
    }
}

/// Every mode has seven degrees that start on the root and rise strictly within one
/// octave.
pub proof fn lemma_intervals_ascend(mode: Mode)
    ensures
        mode.spec_intervals().len() == 7,
        mode.spec_intervals()[0] == 0,
        forall|i: int, j: int|
            0 <= i < j < 7 ==> #[trigger] mode.spec_intervals()[i]
                < #[trigger] mode.spec_intervals()[j],
        forall|i: int| 0 <= i < 7 ==> #[trigger] mode.spec_intervals()[i] < 12,
{
}

/// A scale has seven notes, begins on its root and never repeats a pitch class.
pub proof fn lemma_scale_distinct(mode: Mode, root: Note)
    ensures
        mode.spec_scale(root).len() == 7,
        mode.spec_scale(root)[0] == root,
        forall|i: int, j: int|
            0 <= i < j < 7 ==> #[trigger] mode.spec_scale(root)[i]
                != #[trigger] mode.spec_scale(root)[j],
{
    lemma_intervals_ascend(mode);
    assert forall|i: int, j: int| 0 <= i < j < 7 implies #[trigger] mode.spec_scale(root)[i]
        != #[trigger] mode.spec_scale(root)[j] by {
        let a = mode.spec_intervals()[i] as int;
        let b = mode.spec_intervals()[j] as int;
        lemma_transpose_injective(root, a, b);
    }
}

/// The name of a mode parses back to that mode.
pub proof fn lemma_name_parses(mode: Mode)
    ensures
        Mode::spec_from_string(mode.spec_name()) == Some(mode),
{
    reveal_strlit("ionian");
    reveal_strlit("major");
    reveal_strlit("dorian");
    reveal_strlit("phrygian");
    reveal_strlit("lydian");
    reveal_strlit("mixolydian");
    reveal_strlit("aeolian");
    reveal_strlit("minor");
    reveal_strlit("locrian");
    reveal_strlit("Ionian");
    reveal_strlit("Dorian");
    reveal_strlit("Phrygian");
    reveal_strlit("Lydian");
    reveal_strlit("Mixolydian");
    reveal_strlit("Aeolian");
    reveal_strlit("Locrian");
    let s = mode.spec_name();
    // Five names have six letters, two have seven; those of equal length
    // already differ in their first letter.
    assert(!same_letter(s[0], 'i') ==> !spells(s, "ionian"@));
    assert(!same_letter(s[0], 'd') ==> !spells(s, "dorian"@));
    assert(!same_letter(s[0], 'l') ==> !spells(s, "lydian"@));
    assert(!same_letter(s[0], 'a') ==> !spells(s, "aeolian"@));
    assert(!same_letter(s[0], 'l') ==> !spells(s, "locrian"@));
}

} // verus!
