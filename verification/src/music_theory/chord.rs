//! Chords: a root, a shape of semitone offsets above it, and a display name.

use vstd::prelude::*;

use crate::music_theory::note::{lemma_transpose_injective, Note};

verus! {

/// The chord shapes that the library builds.
#[derive(Debug, Clone, Copy, PartialEq, Eq, Structural)]
pub enum ChordQuality {
    Major,
    Minor,
    Diminished,
    Sus2,
    Sus4,
    /// Root and fifth only.
    Power,
}

impl ChordQuality {
    /// The semitone offsets of the shape above its root.
    pub open spec fn spec_intervals(self) -> Seq<u8> {
        match self {
            ChordQuality::Major => seq![0u8, 4u8, 7u8],
            ChordQuality::Minor => seq![0u8, 3u8, 7u8],
            ChordQuality::Diminished => seq![0u8, 3u8, 6u8],
            ChordQuality::Sus2 => seq![0u8, 2u8, 7u8],
            ChordQuality::Sus4 => seq![0u8, 5u8, 7u8],
            ChordQuality::Power => seq![0u8, 7u8],
        }
    }

    /// What the shape adds to the root's name; nothing for a major chord.
    pub open spec fn spec_suffix(self) -> Seq<char> {
        match self {
            ChordQuality::Major => ""@,
            ChordQuality::Minor => "m"@,
            ChordQuality::Diminished => "dim"@,
            ChordQuality::Sus2 => "sus2"@,
            ChordQuality::Sus4 => "sus4"@,
            ChordQuality::Power => "5"@,
        }
    }

    /// The semitone offsets of the shape above its root.
    pub fn intervals(&self) -> (r: Vec<u8>)
        ensures
            r@ == self.spec_intervals(),
    {
        match self {
            ChordQuality::Major => vec![0, 4, 7],
            ChordQuality::Minor => vec![0, 3, 7],
            ChordQuality::Diminished => vec![0, 3, 6],
            ChordQuality::Sus2 => vec![0, 2, 7],
            ChordQuality::Sus4 => vec![0, 5, 7],
            ChordQuality::Power => vec![0, 7],
        }
    }

    /// What the shape adds to the root's name.
    pub fn suffix(&self) -> (r: &'static str)
        ensures
            r@ == self.spec_suffix(),
    {
        match self {
            ChordQuality::Major => "",
            ChordQuality::Minor => "m",
            ChordQuality::Diminished => "dim",
            ChordQuality::Sus2 => "sus2",
            ChordQuality::Sus4 => "sus4",
            ChordQuality::Power => "5",
        }
    }
}

/// A chord. Two chords are the same chord when root and shape agree; the name
/// is for display.
#[derive(Debug)]
pub struct Chord {
    pub root: Note,
    pub intervals: Vec<u8>,
    pub name: String,
}

/// What a [`Chord`] holds, as mathematical values.
pub struct ChordView {
    pub root: Note,
    pub intervals: Seq<u8>,
    pub name: Seq<char>,
}

impl ChordView {
    /// The notes of the chord: the root transposed by each offset, in offset order.
    pub open spec fn notes(self) -> Seq<Note> {
        Seq::new(self.intervals.len(), |i: int| self.root.spec_transpose(self.intervals[i] as int))
    }

    /// A shape is a strictly ascending list of offsets within one octave.
    pub open spec fn well_formed(self) -> bool {
        &&& forall|i: int| 0 <= i < self.intervals.len() ==> #[trigger] self.intervals[i] < 12
        &&& forall|i: int, j: int|
            0 <= i < j < self.intervals.len() ==> #[trigger] self.intervals[i]
                < #[trigger] self.intervals[j]
    }

    /// The chord of a given quality on a root, named by the root followed by the
    /// quality's suffix.
    pub open spec fn of(root: Note, quality: ChordQuality) -> ChordView {
        ChordView {
            root,
            intervals: quality.spec_intervals(),
            name: Chord::spec_label(root, quality),
        }
    }
}

impl View for Chord {
    type V = ChordView;

    open spec fn view(&self) -> ChordView {
        ChordView { root: self.root, intervals: self.intervals@, name: self.name@ }
    }
}

impl Clone for Chord {
    fn clone(&self) -> (c: Chord)
        ensures
            c@ == self@,
    {
        Chord { root: self.root, intervals: self.intervals.clone(), name: self.name.clone() }
    }
}

impl Chord {
    /// The display name of a chord: the root's name, then the quality's suffix.
    pub open spec fn spec_label(root: Note, quality: ChordQuality) -> Seq<char> {
        root.spec_name() + quality.spec_suffix()
    }

    /// Builds the display name of the chord of a quality on a root.
    pub fn label(root: Note, quality: ChordQuality) -> (r: String)
        ensures
            r@ == Chord::spec_label(root, quality),
    {
        String::from_str(root.name()).concat(quality.suffix())
    }

    /// Puts a chord together from its parts, as given.
    pub fn new(root: Note, intervals: Vec<u8>, name: String) -> (c: Chord)
        ensures
            c.root == root,
            c.intervals == intervals,
            c.name == name,
    {
        Chord { root, intervals, name }
    }

    /// The chord of the given quality on `root`.
    pub fn with_quality(root: Note, quality: ChordQuality) -> (c: Chord)
        ensures
            c@ == ChordView::of(root, quality),
    {
        Chord::new(root, quality.intervals(), Chord::label(root, quality))
    }

    /// All notes of the chord, lowest offset first.
    pub fn notes(&self) -> (r: Vec<Note>)
        ensures
            r@ == self@.notes(),
    {
        let mut notes: Vec<Note> = Vec::new();
        let mut i: usize = 0;
        while i < self.intervals.len()
            invariant
                i <= self.intervals.len(),
                notes@.len() == i,
                forall|j: int| 0 <= j < i ==> notes@[j] == self@.notes()[j],
            decreases self.intervals.len() - i,
        {
            notes.push(self.root.transpose(self.intervals[i] as i32));
            i += 1;
        }
        notes
    }

    /// The major triad on `root`, named by the root alone.
    pub fn major(root: Note) -> (c: Chord)
        ensures
            c@ == ChordView::of(root, ChordQuality::Major),
    {
        Chord::with_quality(root, ChordQuality::Major)
    }

    /// The minor triad on `root`, with the suffix `m`.
    pub fn minor(root: Note) -> (c: Chord)
        ensures
            c@ == ChordView::of(root, ChordQuality::Minor),
    {
        Chord::with_quality(root, ChordQuality::Minor)
    }

    /// The diminished triad on `root`, with the suffix `dim`.
    pub fn diminished(root: Note) -> (c: Chord)
        ensures
            c@ == ChordView::of(root, ChordQuality::Diminished),
    {
        Chord::with_quality(root, ChordQuality::Diminished)
    }

    /// The suspended second chord on `root`, with the suffix `sus2`.
    pub fn sus2(root: Note) -> (c: Chord)
        ensures
            c@ == ChordView::of(root, ChordQuality::Sus2),
    {
        Chord::with_quality(root, ChordQuality::Sus2)
    }

    /// The suspended fourth chord on `root`, with the suffix `sus4`.
    pub fn sus4(root: Note) -> (c: Chord)
        ensures
            c@ == ChordView::of(root, ChordQuality::Sus4),
    {
        Chord::with_quality(root, ChordQuality::Sus4)
    }

    /// The power chord on `root`, root and fifth, with the suffix `5`.
    pub fn power(root: Note) -> (c: Chord)
        ensures
            c@ == ChordView::of(root, ChordQuality::Power),
    {
        Chord::with_quality(root, ChordQuality::Power)
    }
}

/// Every quality's shape starts on the root and ascends strictly within the octave;
/// a power chord has two notes and every other quality three.
pub proof fn lemma_quality_shape(root: Note, quality: ChordQuality)
    ensures
        ChordView::of(root, quality).well_formed(),
        ChordView::of(root, quality).intervals[0] == 0,
        ChordView::of(root, quality).intervals.len() == if quality is Power {
            2nat
        } else {
            3nat
        },
{
}

/// A chord has one note for each offset of its shape. If the shape is well formed,
/// no pitch class occurs twice among them, and a shape that starts at offset zero
/// puts the root first.
pub proof fn lemma_notes_distinct(chord: ChordView)
    ensures
        chord.notes().len() == chord.intervals.len(),
        chord.intervals.len() > 0 && chord.intervals[0] == 0 ==> chord.notes()[0] == chord.root,
        chord.well_formed() ==> forall|i: int, j: int|
            0 <= i < j < chord.notes().len() ==> #[trigger] chord.notes()[i]
                != #[trigger] chord.notes()[j],
{
    if chord.well_formed() {
        assert forall|i: int, j: int|
            0 <= i < j < chord.notes().len() implies #[trigger] chord.notes()[i]
            != #[trigger] chord.notes()[j] by {
            let a = chord.intervals[i] as int;
            let b = chord.intervals[j] as int;
            lemma_transpose_injective(chord.root, a, b);
        }
    }
}

/// A display name is made of the root's name and the quality's suffix and can be
/// taken apart again: the root's name is a letter, followed by `#` if the root is
/// sharp, and no suffix begins with `#`.
proof fn lemma_label_parts(root: Note, quality: ChordQuality)
    ensures
        1 <= root.spec_name().len() <= 2,
        root.spec_name().len() == 2 ==> root.spec_name()[1] == '#',
        quality.spec_suffix().len() > 0 ==> quality.spec_suffix()[0] != '#',
        Chord::spec_label(root, quality).len() == root.spec_name().len()
            + quality.spec_suffix().len(),
        Chord::spec_label(root, quality).subrange(0, root.spec_name().len() as int)
            == root.spec_name(),
        Chord::spec_label(root, quality).skip(root.spec_name().len() as int)
            == quality.spec_suffix(),
{
    reveal_strlit("C");
    reveal_strlit("C#");
    reveal_strlit("D");
    reveal_strlit("D#");
    reveal_strlit("E");
    reveal_strlit("F");
    reveal_strlit("F#");
    reveal_strlit("G");
    reveal_strlit("G#");
    reveal_strlit("A");
    reveal_strlit("A#");
    reveal_strlit("B");
    reveal_strlit("");
    reveal_strlit("m");
    reveal_strlit("dim");
    reveal_strlit("sus2");
    reveal_strlit("sus4");
    reveal_strlit("5");
    let label = Chord::spec_label(root, quality);
}

/// Different pitch classes have different names.
proof fn lemma_name_unique(a: Note, b: Note)
    requires
        a.spec_name() == b.spec_name(),
    ensures
        a == b,
{
    reveal_strlit("C");
    reveal_strlit("C#");
    reveal_strlit("D");
    reveal_strlit("D#");
    reveal_strlit("E");
    reveal_strlit("F");
    reveal_strlit("F#");
    reveal_strlit("G");
    reveal_strlit("G#");
    reveal_strlit("A");
    reveal_strlit("A#");
    reveal_strlit("B");
    assert("C"@.len() == 1 && "C"@[0] == 'C');
    assert("C#"@.len() == 2 && "C#"@[0] == 'C');
    assert("D"@.len() == 1 && "D"@[0] == 'D');
    assert("D#"@.len() == 2 && "D#"@[0] == 'D');
    assert("E"@.len() == 1 && "E"@[0] == 'E');
    assert("F"@.len() == 1 && "F"@[0] == 'F');
    assert("F#"@.len() == 2 && "F#"@[0] == 'F');
    assert("G"@.len() == 1 && "G"@[0] == 'G');
    assert("G#"@.len() == 2 && "G#"@[0] == 'G');
    assert("A"@.len() == 1 && "A"@[0] == 'A');
    assert("A#"@.len() == 2 && "A#"@[0] == 'A');
    assert("B"@.len() == 1 && "B"@[0] == 'B');
}

/// Different qualities have different suffixes.
proof fn lemma_suffix_unique(a: ChordQuality, b: ChordQuality)
    requires
        a.spec_suffix() == b.spec_suffix(),
    ensures
        a == b,
{
    reveal_strlit("");
    reveal_strlit("m");
    reveal_strlit("dim");
    reveal_strlit("sus2");
    reveal_strlit("sus4");
    reveal_strlit("5");
    assert(""@.len() == 0);
    assert("m"@.len() == 1 && "m"@[0] == 'm');
    assert("dim"@.len() == 3);
    assert("sus2"@.len() == 4 && "sus2"@[3] == '2');
    assert("sus4"@.len() == 4 && "sus4"@[3] == '4');
    assert("5"@.len() == 1 && "5"@[0] == '5');
}

/// A display name belongs to one root and one quality only: chords that the
/// library names alike are the same chord.
pub proof fn lemma_label_unique(r1: Note, q1: ChordQuality, r2: Note, q2: ChordQuality)
    requires
        Chord::spec_label(r1, q1) == Chord::spec_label(r2, q2),
    ensures
        r1 == r2,
        q1 == q2,
{
    lemma_label_parts(r1, q1);
    lemma_label_parts(r2, q2);
    let label = Chord::spec_label(r1, q1);
    let n1 = r1.spec_name().len() as int;
    let n2 = r2.spec_name().len() as int;
    if n1 != n2 {
        // Where the longer name has its `#`, the shorter is followed by a suffix,
        // and no suffix begins with `#`.
        let shorter = if n1 < n2 { n1 } else { n2 };
        assert(label[1] == label.skip(shorter)[0]);
        assert(label[1] == label.subrange(0, 2)[1]);
        assert(false);
    }
    lemma_name_unique(r1, r2);
    lemma_suffix_unique(q1, q2);
}

} // verus!
