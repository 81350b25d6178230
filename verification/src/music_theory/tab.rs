//! Guitar fingerings for the major, minor and diminished chord on each root.

use vstd::prelude::*;

use crate::music_theory::chord::{lemma_label_unique, Chord, ChordQuality};
use crate::music_theory::note::{lemma_semitone_round_trip, Note};
use crate::text::eq_concat;

verus! {

/// A guitar fingering. `fingers` holds one fret per string from the low E string to
/// the high one: -1 for a muted string, 0 for an open one, otherwise the fret.
#[derive(Debug)]
pub struct ChordTab {
    pub name: String,
    pub fingers: Vec<i8>,
    /// The fret at which the shape starts, for barre chords.
    pub base_fret: u8,
}

/// What a [`ChordTab`] holds, as mathematical values.
pub struct ChordTabView {
    pub name: Seq<char>,
    pub fingers: Seq<i8>,
    pub base_fret: u8,
}

impl View for ChordTab {
    type V = ChordTabView;

    open spec fn view(&self) -> ChordTabView {
        ChordTabView { name: self.name@, fingers: self.fingers@, base_fret: self.base_fret }
    }
}

impl Clone for ChordTab {
    fn clone(&self) -> (tab: ChordTab)
        ensures
            tab@ == self@,
    {
        ChordTab {
            name: self.name.clone(),
            fingers: self.fingers.clone(),
            base_fret: self.base_fret,
        }
    }
}

/// The view of a fingering that may be missing.
pub open spec fn tab_view(tab: Option<ChordTab>) -> Option<ChordTabView> {
    match tab {
        Some(tab) => Some(tab@),
        None => None,
    }
}

impl ChordTab {
    /// Puts a fingering together from its parts, as given.
    pub fn new(name: String, fingers: Vec<i8>, base_fret: u8) -> (tab: ChordTab)
        ensures
            tab.name == name,
            tab.fingers == fingers,
            tab.base_fret == base_fret,
    {
        ChordTab { name, fingers, base_fret }
    }
}

impl ChordQuality {
    /// Whether the fingering table has rows for this quality.
    pub open spec fn spec_tabulated(self) -> bool {
        self is Major || self is Minor || self is Diminished
    }
}

impl ChordTabView {
    /// The frets of the table's row for a root and a quality; empty where the table
    /// has no row.
    pub open spec fn fingers_of(root: Note, quality: ChordQuality) -> Seq<i8> {
        match root {
            Note::C => match quality {
                ChordQuality::Major => seq![-1i8, 3i8, 2i8, 0i8, 1i8, 0i8],
                ChordQuality::Minor => seq![-1i8, 3i8, 5i8, 5i8, 4i8, 3i8],
                ChordQuality::Diminished => seq![-1i8, 3i8, 4i8, 5i8, 4i8, -1i8],
                _ => Seq::empty(),
            },
            Note::CSharp => match quality {
                ChordQuality::Major => seq![-1i8, 4i8, 6i8, 6i8, 6i8, 4i8],
                ChordQuality::Minor => seq![-1i8, 4i8, 6i8, 6i8, 5i8, 4i8],
                ChordQuality::Diminished => seq![-1i8, 4i8, 5i8, 6i8, 5i8, -1i8],
                _ => Seq::empty(),
            },
            Note::D => match quality {
                ChordQuality::Major => seq![-1i8, -1i8, 0i8, 2i8, 3i8, 2i8],
                ChordQuality::Minor => seq![-1i8, -1i8, 0i8, 2i8, 3i8, 1i8],
                ChordQuality::Diminished => seq![-1i8, -1i8, 0i8, 1i8, 3i8, 1i8],
                _ => Seq::empty(),
            },
            Note::DSharp => match quality {
                ChordQuality::Major => seq![-1i8, -1i8, 1i8, 3i8, 4i8, 3i8],
                ChordQuality::Minor => seq![-1i8, -1i8, 1i8, 3i8, 4i8, 2i8],
                ChordQuality::Diminished => seq![-1i8, -1i8, 1i8, 2i8, 4i8, 2i8],
                _ => Seq::empty(),
            },
            Note::E => match quality {
                ChordQuality::Major => seq![0i8, 2i8, 2i8, 1i8, 0i8, 0i8],
                ChordQuality::Minor => seq![0i8, 2i8, 2i8, 0i8, 0i8, 0i8],
                ChordQuality::Diminished => seq![0i8, 1i8, 2i8, 0i8, 2i8, 0i8],
                _ => Seq::empty(),
            },
            Note::F => match quality {
                ChordQuality::Major => seq![1i8, 3i8, 3i8, 2i8, 1i8, 1i8],
                ChordQuality::Minor => seq![1i8, 3i8, 3i8, 1i8, 1i8, 1i8],
                ChordQuality::Diminished => seq![1i8, 2i8, 3i8, 1i8, 3i8, 1i8],
                _ => Seq::empty(),
            },
            Note::FSharp => match quality {
                ChordQuality::Major => seq![2i8, 4i8, 4i8, 3i8, 2i8, 2i8],
                ChordQuality::Minor => seq![2i8, 4i8, 4i8, 2i8, 2i8, 2i8],
                ChordQuality::Diminished => seq![2i8, 3i8, 4i8, 2i8, 4i8, 2i8],
                _ => Seq::empty(),
            },
            Note::G => match quality {
                ChordQuality::Major => seq![3i8, 2i8, 0i8, 0i8, 0i8, 3i8],
                ChordQuality::Minor => seq![3i8, 5i8, 5i8, 3i8, 3i8, 3i8],
                ChordQuality::Diminished => seq![3i8, 4i8, 5i8, 3i8, 5i8, 3i8],
                _ => Seq::empty(),
            },
            Note::GSharp => match quality {
                ChordQuality::Major => seq![4i8, 6i8, 6i8, 5i8, 4i8, 4i8],
                ChordQuality::Minor => seq![4i8, 6i8, 6i8, 4i8, 4i8, 4i8],
                ChordQuality::Diminished => seq![4i8, 5i8, 6i8, 4i8, 6i8, 4i8],
                _ => Seq::empty(),
            },
            Note::A => match quality {
                ChordQuality::Major => seq![-1i8, 0i8, 2i8, 2i8, 2i8, 0i8],
                ChordQuality::Minor => seq![-1i8, 0i8, 2i8, 2i8, 1i8, 0i8],
                ChordQuality::Diminished => seq![-1i8, 0i8, 1i8, 2i8, 1i8, -1i8],
                _ => Seq::empty(),
            },
            Note::ASharp => match quality {
                ChordQuality::Major => seq![-1i8, 1i8, 3i8, 3i8, 3i8, 1i8],
                ChordQuality::Minor => seq![-1i8, 1i8, 3i8, 3i8, 2i8, 1i8],
                ChordQuality::Diminished => seq![-1i8, 1i8, 2i8, 3i8, 2i8, -1i8],
                _ => Seq::empty(),
            },
            Note::B => match quality {
                ChordQuality::Major => seq![-1i8, 2i8, 4i8, 4i8, 4i8, 2i8],
                ChordQuality::Minor => seq![-1i8, 2i8, 4i8, 4i8, 3i8, 2i8],
                ChordQuality::Diminished => seq![-1i8, 2i8, 3i8, 4i8, 3i8, -1i8],
                _ => Seq::empty(),
            },
        }
    }

    /// The table's row for a root and a tabulated quality: the chord's display name,
    /// its frets, and a base fret of zero.
    pub open spec fn row(root: Note, quality: ChordQuality) -> ChordTabView {
        ChordTabView {
            name: Chord::spec_label(root, quality),
            fingers: ChordTabView::fingers_of(root, quality),
            base_fret: 0,
        }
    }

    /// Whether `name` is the display name of the row for `root` and `quality`.
    pub open spec fn names_row(name: Seq<char>, root: Note, quality: ChordQuality) -> bool {
        quality.spec_tabulated() && name == Chord::spec_label(root, quality)
    }

    /// The row that a chord name selects. Names are matched exactly, with sharps as
    /// the table spells them; a name of no row selects nothing.
    pub open spec fn lookup(name: Seq<char>) -> Option<ChordTabView> {
        if exists|root: Note, quality: ChordQuality| ChordTabView::names_row(name, root, quality) {
            let (root, quality) = choose|root: Note, quality: ChordQuality|
                ChordTabView::names_row(name, root, quality);
            Some(ChordTabView::row(root, quality))
        } else {
            None
        }
    }
}

/// The frets of one row of the table.
fn fingers_of(root: Note, quality: ChordQuality) -> (r: Vec<i8>)
    ensures
        r@ == ChordTabView::fingers_of(root, quality),
{
    match root {
        Note::C => match quality {
            ChordQuality::Major => vec![-1, 3, 2, 0, 1, 0],
            ChordQuality::Minor => vec![-1, 3, 5, 5, 4, 3],
            ChordQuality::Diminished => vec![-1, 3, 4, 5, 4, -1],
            _ => Vec::new(),
        },
        Note::CSharp => match quality {
            ChordQuality::Major => vec![-1, 4, 6, 6, 6, 4],
            ChordQuality::Minor => vec![-1, 4, 6, 6, 5, 4],
            ChordQuality::Diminished => vec![-1, 4, 5, 6, 5, -1],
            _ => Vec::new(),
        },
        Note::D => match quality {
            ChordQuality::Major => vec![-1, -1, 0, 2, 3, 2],
            ChordQuality::Minor => vec![-1, -1, 0, 2, 3, 1],
            ChordQuality::Diminished => vec![-1, -1, 0, 1, 3, 1],
            _ => Vec::new(),
        },
        Note::DSharp => match quality {
            ChordQuality::Major => vec![-1, -1, 1, 3, 4, 3],
            ChordQuality::Minor => vec![-1, -1, 1, 3, 4, 2],
            ChordQuality::Diminished => vec![-1, -1, 1, 2, 4, 2],
            _ => Vec::new(),
        },
        Note::E => match quality {
            ChordQuality::Major => vec![0, 2, 2, 1, 0, 0],
            ChordQuality::Minor => vec![0, 2, 2, 0, 0, 0],
            ChordQuality::Diminished => vec![0, 1, 2, 0, 2, 0],
            _ => Vec::new(),
        },
        Note::F => match quality {
            ChordQuality::Major => vec![1, 3, 3, 2, 1, 1],
            ChordQuality::Minor => vec![1, 3, 3, 1, 1, 1],
            ChordQuality::Diminished => vec![1, 2, 3, 1, 3, 1],
            _ => Vec::new(),
        },
        Note::FSharp => match quality {
            ChordQuality::Major => vec![2, 4, 4, 3, 2, 2],
            ChordQuality::Minor => vec![2, 4, 4, 2, 2, 2],
            ChordQuality::Diminished => vec![2, 3, 4, 2, 4, 2],
            _ => Vec::new(),
        },
        Note::G => match quality {
            ChordQuality::Major => vec![3, 2, 0, 0, 0, 3],
            ChordQuality::Minor => vec![3, 5, 5, 3, 3, 3],
            ChordQuality::Diminished => vec![3, 4, 5, 3, 5, 3],
            _ => Vec::new(),
        },
        Note::GSharp => match quality {
            ChordQuality::Major => vec![4, 6, 6, 5, 4, 4],
            ChordQuality::Minor => vec![4, 6, 6, 4, 4, 4],
            ChordQuality::Diminished => vec![4, 5, 6, 4, 6, 4],
            _ => Vec::new(),
        },
        Note::A => match quality {
            ChordQuality::Major => vec![-1, 0, 2, 2, 2, 0],
            ChordQuality::Minor => vec![-1, 0, 2, 2, 1, 0],
            ChordQuality::Diminished => vec![-1, 0, 1, 2, 1, -1],
            _ => Vec::new(),
        },
        Note::ASharp => match quality {
            ChordQuality::Major => vec![-1, 1, 3, 3, 3, 1],
            ChordQuality::Minor => vec![-1, 1, 3, 3, 2, 1],
            ChordQuality::Diminished => vec![-1, 1, 2, 3, 2, -1],
            _ => Vec::new(),
        },
        Note::B => match quality {
            ChordQuality::Major => vec![-1, 2, 4, 4, 4, 2],
            ChordQuality::Minor => vec![-1, 2, 4, 4, 3, 2],
            ChordQuality::Diminished => vec![-1, 2, 3, 4, 3, -1],
            _ => Vec::new(),
        },
    }
}

/// Finds the tabulated quality, if any, whose chord on `root` is called `chord_name`.
fn quality_named(chord_name: &str, root: Note) -> (r: Option<ChordQuality>)
    ensures
        match r {
            Some(quality) => ChordTabView::names_row(chord_name@, root, quality),
            None => forall|quality: ChordQuality|
                !ChordTabView::names_row(chord_name@, root, quality),
        },
{
    let root_name = root.name();
    if eq_concat(chord_name, root_name, ChordQuality::Major.suffix()) {
        Some(ChordQuality::Major)
    } else if eq_concat(chord_name, root_name, ChordQuality::Minor.suffix()) {
        Some(ChordQuality::Minor)
    } else if eq_concat(chord_name, root_name, ChordQuality::Diminished.suffix()) {
        Some(ChordQuality::Diminished)
    } else {
        None
    }
}

/// Looks up the guitar fingering for a chord name such as `"C"`, `"F#m"` or `"Bdim"`.
pub fn get_chord_tab(chord_name: &str) -> (r: Option<ChordTab>)
    ensures
        tab_view(r) == ChordTabView::lookup(chord_name@),
{
    let mut semitone: u8 = 0;
    while semitone < 12
        invariant
            semitone <= 12,
            forall|n: int, quality: ChordQuality|
                0 <= n < semitone ==> !#[trigger] ChordTabView::names_row(
                    chord_name@,
                    Note::spec_from_semitone(n),
                    quality,
                ),
        decreases 12 - semitone,
    {
        let root = Note::from_semitone(semitone);
        match quality_named(chord_name, root) {
            Some(quality) => {
                proof {
                    let (r, q) = choose|r: Note, q: ChordQuality|
                        ChordTabView::names_row(chord_name@, r, q);
                    lemma_label_unique(r, q, root, quality);
                }
                return Some(
                    ChordTab::new(String::from_str(chord_name), fingers_of(root, quality), 0),
                );
            },
            None => {},
        }
        semitone += 1;
    }
    proof {
        assert forall|root: Note, quality: ChordQuality|
            !ChordTabView::names_row(chord_name@, root, quality) by {
            lemma_semitone_round_trip(root);
            assert(!ChordTabView::names_row(
                chord_name@,
                Note::spec_from_semitone(root.spec_semitone()),
                quality,
            ));
        }
    }
    None
}

impl Chord {
    /// The guitar fingering that the table holds under this chord's name.
    pub fn get_guitar_tab(&self) -> (r: Option<ChordTab>)
        ensures
            tab_view(r) == ChordTabView::lookup(self@.name),
    {
        get_chord_tab(self.name.as_str())
    }
}

/// The table has a row for the major, the minor and the diminished chord on every
/// root, six strings wide, and finds it under the chord's display name.
pub proof fn lemma_lookup_finds_row(root: Note, quality: ChordQuality)
    requires
        quality.spec_tabulated(),
    ensures
        ChordTabView::lookup(Chord::spec_label(root, quality)) == Some(
            ChordTabView::row(root, quality),
        ),
        ChordTabView::row(root, quality).fingers.len() == 6,
        forall|i: int| 0 <= i < 6 ==> -1 <= #[trigger] ChordTabView::row(root, quality).fingers[i],
{
    let name = Chord::spec_label(root, quality);
    assert(ChordTabView::names_row(name, root, quality));
    let (r, q) = choose|r: Note, q: ChordQuality| ChordTabView::names_row(name, r, q);
    lemma_label_unique(r, q, root, quality);
}

/// The chords of the other qualities have no row.
pub proof fn lemma_lookup_misses(root: Note, quality: ChordQuality)
    requires
        !quality.spec_tabulated(),
    ensures
        ChordTabView::lookup(Chord::spec_label(root, quality)) is None,
{
    let name = Chord::spec_label(root, quality);
    assert forall|r: Note, q: ChordQuality| !ChordTabView::names_row(name, r, q) by {
        if ChordTabView::names_row(name, r, q) {
            lemma_label_unique(r, q, root, quality);
        }
    }
}

} // verus!
