//! The twelve pitch classes as the cyclic group of semitones.

use vstd::prelude::*;

verus! {

/// One of the twelve pitch classes, named by its sharp spelling.
#[derive(Debug, Clone, Copy, PartialEq, Eq, Hash, Structural)]
pub enum Note {
    C,
    CSharp,
    D,
    DSharp,
    E,
    F,
    FSharp,
    G,
    GSharp,
    A,
    ASharp,
    B,
}

impl Note {
    /// Distance from C in semitones, in `0..12`.
    pub open spec fn spec_semitone(self) -> int {
        match self {
            Note::C => 0,
            Note::CSharp => 1,
            Note::D => 2,
            Note::DSharp => 3,
            Note::E => 4,
            Note::F => 5,
            Note::FSharp => 6,
            Note::G => 7,
            Note::GSharp => 8,
            Note::A => 9,
            Note::ASharp => 10,
            Note::B => 11,
        }
    }

    /// The pitch class that lies `n` semitones above C, for any integer `n`.
    pub open spec fn spec_from_semitone(n: int) -> Note {
        let k = n % 12;
        if k == 0 {
            Note::C
        } else if k == 1 {
            Note::CSharp
        } else if k == 2 {
            Note::D
        } else if k == 3 {
            Note::DSharp
        } else if k == 4 {
            Note::E
        } else if k == 5 {
            Note::F
        } else if k == 6 {
            Note::FSharp
        } else if k == 7 {
            Note::G
        } else if k == 8 {
            Note::GSharp
        } else if k == 9 {
            Note::A
        } else if k == 10 {
            Note::ASharp
        } else {
            Note::B
        }
    }

    /// The pitch class `n` semitones away: upwards for positive `n`, downwards for negative.
    pub open spec fn spec_transpose(self, n: int) -> Note {
        Note::spec_from_semitone(self.spec_semitone() + n)
    }

    /// The pitch class that a letter names without an accidental, in either case.
    pub open spec fn spec_natural(letter: char) -> Option<Note> {
        if letter == 'C' || letter == 'c' {
            Some(Note::C)
        } else if letter == 'D' || letter == 'd' {
            Some(Note::D)
        } else if letter == 'E' || letter == 'e' {
            Some(Note::E)
        } else if letter == 'F' || letter == 'f' {
            Some(Note::F)
        } else if letter == 'G' || letter == 'g' {
            Some(Note::G)
        } else if letter == 'A' || letter == 'a' {
            Some(Note::A)
        } else if letter == 'B' || letter == 'b' {
            Some(Note::B)
        } else {
            None
        }
    }

    /// What a spelling names: a letter `A` to `G`, alone or followed by one accidental,
    /// `#` raising the letter's note by a semitone and `b` lowering it by one. Case is
    /// ignored, so `Bb` and `BB` both lower B. Every other text names nothing.
    pub open spec fn spec_from_string(s: Seq<char>) -> Option<Note> {
        if s.len() == 1 {
            Note::spec_natural(s[0])
        } else if s.len() == 2 {
            match Note::spec_natural(s[0]) {
                Some(natural) => if s[1] == '#' {
                    Some(natural.spec_transpose(1))
                } else if s[1] == 'b' || s[1] == 'B' {
                    Some(natural.spec_transpose(-1))
                } else {
                    None
                },
                None => None,
            }
        } else {
            None
        }
    }

    /// The canonical spelling, with sharps.
    pub open spec fn spec_name(self) -> Seq<char> {
        match self {
            Note::C => "C"@,
            Note::CSharp => "C#"@,
            Note::D => "D"@,
            Note::DSharp => "D#"@,
            Note::E => "E"@,
            Note::F => "F"@,
            Note::FSharp => "F#"@,
            Note::G => "G"@,
            Note::GSharp => "G#"@,
            Note::A => "A"@,
            Note::ASharp => "A#"@,
            Note::B => "B"@,
        }
    }

    /// Signed distance in semitones from A in octave 4 to this pitch class in `octave`.
    pub open spec fn spec_semitones_from_a4(self, octave: int) -> int {
        (octave - 4) * 12 + (self.spec_semitone() - 9)
    }

    /// Reads a letter without accidental.
    fn natural(letter: char) -> (r: Option<Note>)
        ensures
            r == Note::spec_natural(letter),
    {
        if letter == 'C' || letter == 'c' {
            Some(Note::C)
        } else if letter == 'D' || letter == 'd' {
            Some(Note::D)
        } else if letter == 'E' || letter == 'e' {
            Some(Note::E)
        } else if letter == 'F' || letter == 'f' {
            Some(Note::F)
        } else if letter == 'G' || letter == 'g' {
            Some(Note::G)
        } else if letter == 'A' || letter == 'a' {
            Some(Note::A)
        } else if letter == 'B' || letter == 'b' {
            Some(Note::B)
        } else {
            None
        }
    }

    /// Parses a note name such as `"F#"`, `"Gb"` or `"c"`.
    pub fn from_string(s: &str) -> (r: Option<Note>)
        ensures
            r == Note::spec_from_string(s@),
    {
        let n: usize = s.unicode_len();
        if n == 1 {
            Note::natural(s.get_char(0))
        } else if n == 2 {
            match Note::natural(s.get_char(0)) {
                Some(natural) => {
                    let accidental = s.get_char(1);
                    if accidental == '#' {
                        Some(natural.transpose(1))
                    } else if accidental == 'b' || accidental == 'B' {
                        Some(natural.transpose(-1))
                    } else {
                        None
                    }
                },
                None => None,
            }
        } else {
            None
        }
    }

    /// The semitone value, from 0 for C to 11 for B.
    pub fn semitone(&self) -> (r: u8)
        ensures
            r == self.spec_semitone(),
    {
        match self {
            Note::C => 0,
            Note::CSharp => 1,
            Note::D => 2,
            Note::DSharp => 3,
            Note::E => 4,
            Note::F => 5,
            Note::FSharp => 6,
            Note::G => 7,
            Note::GSharp => 8,
            Note::A => 9,
            Note::ASharp => 10,
            Note::B => 11,
        }
    }

    /// Transposes by a number of semitones, wrapping round the octave in both directions.
    pub fn transpose(&self, semitones: i32) -> (r: Note)
        ensures
            r == self.spec_transpose(semitones as int),
    {
        let step: i32 = match semitones.checked_rem_euclid(12) {
            Some(m) => m,
            None => 0,
        };
        let sum: i32 = self.semitone() as i32 + step;
        assert((self.spec_semitone() + semitones) % 12 == sum as int % 12) by (nonlinear_arith)
            requires
                sum == self.spec_semitone() + step,
                step == semitones % 12,
        ;
        Note::from_semitone(sum as u8)
    }

    /// The pitch class of a semitone value; values from 12 on wrap round.
    pub fn from_semitone(semitone: u8) -> (r: Note)
        ensures
            r == Note::spec_from_semitone(semitone as int),
    {
        let k: u8 = semitone % 12;
        if k == 0 {
            Note::C
        } else if k == 1 {
            Note::CSharp
        } else if k == 2 {
            Note::D
        } else if k == 3 {
            Note::DSharp
        } else if k == 4 {
            Note::E
        } else if k == 5 {
            Note::F
        } else if k == 6 {
            Note::FSharp
        } else if k == 7 {
            Note::G
        } else if k == 8 {
            Note::GSharp
        } else if k == 9 {
            Note::A
        } else if k == 10 {
            Note::ASharp
        } else {
            Note::B
        }
    }

    /// The canonical name, spelled with sharps.
    pub fn name(&self) -> (r: &'static str)
        ensures
            r@ == self.spec_name(),
    {
        match self {
            Note::C => "C",
            Note::CSharp => "C#",
            Note::D => "D",
            Note::DSharp => "D#",
            Note::E => "E",
            Note::F => "F",
            Note::FSharp => "F#",
            Note::G => "G",
            Note::GSharp => "G#",
            Note::A => "A",
            Note::ASharp => "A#",
            Note::B => "B",
        }
    }

    /// How many equal-tempered semitones the note lies above A in octave 4, the pitch
    /// that anchors the tuning; negative below it.
    pub fn semitones_from_a4(&self, octave: u8) -> (r: i32)
        ensures
            r == self.spec_semitones_from_a4(octave as int),
    {
        (octave as i32 - 4) * 12 + (self.semitone() as i32 - 9)
    }
}

/// Every pitch class is the one that its own semitone value names.
pub proof fn lemma_semitone_round_trip(p: Note)
    ensures
        0 <= p.spec_semitone() < 12,
        Note::spec_from_semitone(p.spec_semitone()) == p,
{
}

/// The semitone value of the pitch class that `n` names is `n` reduced modulo 12.
pub proof fn lemma_from_semitone_value(n: int)
    ensures
        Note::spec_from_semitone(n).spec_semitone() == n % 12,
{
}

/// Transposing by zero, or by any whole number of octaves, changes nothing.
pub proof fn lemma_transpose_octaves(p: Note, octaves: int)
    ensures
        p.spec_transpose(12 * octaves) == p,
{
    assert((p.spec_semitone() + 12 * octaves) % 12 == p.spec_semitone()) by (nonlinear_arith)
        requires
            0 <= p.spec_semitone() < 12,
    ;
}

/// Transposing twice is transposing once by the sum of the two steps.
pub proof fn lemma_transpose_adds(p: Note, m: int, n: int)
    ensures
        p.spec_transpose(m).spec_transpose(n) == p.spec_transpose(m + n),
{
    let s = p.spec_semitone();
    lemma_from_semitone_value(s + m);
}

/// Transposing by `n` and then by `-n` gives back the pitch class one started from.
pub proof fn lemma_transpose_inverse(p: Note, n: int)
    ensures
        p.spec_transpose(n).spec_transpose(-n) == p,
{
    lemma_transpose_adds(p, n, -n);
    lemma_transpose_octaves(p, 0);
}

/// Two transpositions of one pitch class agree exactly when their steps differ by
/// a whole number of octaves.
pub proof fn lemma_transpose_injective(p: Note, m: int, n: int)
    ensures
        p.spec_transpose(m) == p.spec_transpose(n) <==> (m - n) % 12 == 0,
{
    let s = p.spec_semitone();
    lemma_from_semitone_value(s + m);
    lemma_from_semitone_value(s + n);
}

/// The canonical name of a pitch class parses back to that pitch class.
pub proof fn lemma_name_parses(p: Note)
    ensures
        Note::spec_from_string(p.spec_name()) == Some(p),
{
    reveal_strlit("C");
    reveal_strlit("C#");
    reveal_strlit("D");
    reveal_strlit("D#");
    reveal_strlit("E");
    reveal_strlit("F");
    reveal_strlit("F#");
    reveal_strlit("G");
    reveal_strlit("G#");
    reveal_strlit("A");
    reveal_strlit("A#");
    reveal_strlit("B");
}

/// Enharmonic spellings name one pitch class. Where two letters lie a whole tone
/// apart, the lower one with a sharp is the upper one with a flat; where they lie a
/// semitone apart, the lower one with a sharp is the upper one, and the upper one
/// with a flat is the lower one.
pub proof fn lemma_enharmonic_spellings(lower: char, upper: char)
    requires
        Note::spec_natural(lower) is Some,
        Note::spec_natural(upper) is Some,
    ensures
        ({
            let low = Note::spec_natural(lower)->0;
            let high = Note::spec_natural(upper)->0;
            let sharpened = Note::spec_from_string(seq![lower, '#']);
            let flattened = Note::spec_from_string(seq![upper, 'b']);
            &&& low.spec_transpose(2) == high ==> sharpened == flattened
            &&& low.spec_transpose(1) == high ==> sharpened == Some(high) && flattened == Some(low)
        }),
{
    let low = Note::spec_natural(lower)->0;
    let high = Note::spec_natural(upper)->0;
    if low.spec_transpose(2) == high {
        lemma_transpose_adds(low, 2, -1);
    }
    if low.spec_transpose(1) == high {
        lemma_transpose_inverse(low, 1);
    }
}

/// A4 is the anchor of the tuning, and each octave is twelve semitones.
pub proof fn lemma_octave_is_twelve_semitones(p: Note, octave: int)
    ensures
        Note::A.spec_semitones_from_a4(4) == 0,
        p.spec_semitones_from_a4(octave + 1) == p.spec_semitones_from_a4(octave) + 12,
{
}

} // verus!
