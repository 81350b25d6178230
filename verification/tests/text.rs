use jam_track::music_theory::{Chord, ChordQuality, Mode, Note};
use jam_track::text::{chars_match, eq_concat, eq_ignore_ascii_case};

#[test]
fn letters_match_across_ascii_case_only() {
    assert!(chars_match('a', 'A'));
    assert!(chars_match('A', 'a'));
    assert!(chars_match('z', 'Z'));
    assert!(chars_match('q', 'q'));
    assert!(chars_match('#', '#'));
    assert!(chars_match('é', 'é'));
    assert!(!chars_match('a', 'b'));
    assert!(!chars_match('é', 'É'));
    assert!(!chars_match('@', '`'));
    assert!(!chars_match('[', '{'));
    assert!(!chars_match('0', 'P'));
    assert!(!chars_match('K', '\u{212A}'));
    assert!(!chars_match('k', '\u{212A}'));
}

#[test]
fn names_are_compared_without_regard_to_ascii_case() {
    assert!(eq_ignore_ascii_case("Dorian", "dorian"));
    assert!(eq_ignore_ascii_case("DORIAN", "dorian"));
    assert!(eq_ignore_ascii_case("dorian", "DoRiAn"));
    assert!(eq_ignore_ascii_case("", ""));
    assert!(!eq_ignore_ascii_case("dorian", "dorians"));
    assert!(!eq_ignore_ascii_case("dorians", "dorian"));
    assert!(!eq_ignore_ascii_case("dorian", "durian"));
    assert!(!eq_ignore_ascii_case("", "x"));
    assert!(eq_ignore_ascii_case("ünï", "ÜNÏ") == false);
    assert!(eq_ignore_ascii_case("ünï", "üNï"));
}

#[test]
fn a_text_is_split_into_head_and_tail() {
    assert!(eq_concat("F#m", "F#", "m"));
    assert!(eq_concat("F#m", "F", "#m"));
    assert!(eq_concat("F#m", "", "F#m"));
    assert!(eq_concat("F#m", "F#m", ""));
    assert!(eq_concat("", "", ""));
    assert!(!eq_concat("F#m", "F#", "M"));
    assert!(!eq_concat("F#m", "f#", "m"));
    assert!(!eq_concat("F#m", "F#", ""));
    assert!(!eq_concat("F#", "F#", "m"));
    assert!(!eq_concat("F#mm", "F#", "m"));
    assert!(!eq_concat("", "F", ""));
    assert!(eq_concat("añb", "añ", "b"));
}

#[test]
fn labels_join_root_name_and_suffix() {
    assert_eq!(Chord::label(Note::C, ChordQuality::Major), "C");
    assert_eq!(Chord::label(Note::CSharp, ChordQuality::Minor), "C#m");
    assert_eq!(Chord::label(Note::B, ChordQuality::Diminished), "Bdim");
    assert_eq!(Chord::label(Note::G, ChordQuality::Sus2), "Gsus2");
    assert_eq!(Chord::label(Note::G, ChordQuality::Sus4), "Gsus4");
    assert_eq!(Chord::label(Note::A, ChordQuality::Power), "A5");
}

#[test]
fn no_two_chords_share_a_label() {
    let qualities = [
        ChordQuality::Major,
        ChordQuality::Minor,
        ChordQuality::Diminished,
        ChordQuality::Sus2,
        ChordQuality::Sus4,
        ChordQuality::Power,
    ];
    let mut labels: Vec<String> = Vec::new();
    for semitone in 0u8..12 {
        for quality in qualities {
            labels.push(Chord::label(Note::from_semitone(semitone), quality));
        }
    }
    assert_eq!(labels.len(), 72);
    labels.sort();
    labels.dedup();
    assert_eq!(labels.len(), 72);
}

#[test]
fn qualities_have_their_shapes_and_suffixes() {
    assert_eq!(ChordQuality::Major.intervals(), vec![0, 4, 7]);
    assert_eq!(ChordQuality::Minor.intervals(), vec![0, 3, 7]);
    assert_eq!(ChordQuality::Diminished.intervals(), vec![0, 3, 6]);
    assert_eq!(ChordQuality::Sus2.intervals(), vec![0, 2, 7]);
    assert_eq!(ChordQuality::Sus4.intervals(), vec![0, 5, 7]);
    assert_eq!(ChordQuality::Power.intervals(), vec![0, 7]);
    assert_eq!(ChordQuality::Major.suffix(), "");
    assert_eq!(ChordQuality::Minor.suffix(), "m");
    assert_eq!(ChordQuality::Diminished.suffix(), "dim");
    assert_eq!(ChordQuality::Sus2.suffix(), "sus2");
    assert_eq!(ChordQuality::Sus4.suffix(), "sus4");
    assert_eq!(ChordQuality::Power.suffix(), "5");
}

#[test]
fn the_modes_are_listed_from_ionian() {
    assert_eq!(
        Mode::all(),
        vec![
            Mode::Ionian,
            Mode::Dorian,
            Mode::Phrygian,
            Mode::Lydian,
            Mode::Mixolydian,
            Mode::Aeolian,
            Mode::Locrian,
        ]
    );
    let names: Vec<&str> = Mode::all().iter().map(|mode| mode.name()).collect();
    assert_eq!(
        names,
        vec!["Ionian", "Dorian", "Phrygian", "Lydian", "Mixolydian", "Aeolian", "Locrian"]
    );
}
