use jam_track::music_theory::{get_chord_tab, Chord, ChordTab, Note};

const ROWS: [(&str, [i8; 6]); 36] = [
    ("C", [-1, 3, 2, 0, 1, 0]),
    ("Cm", [-1, 3, 5, 5, 4, 3]),
    ("Cdim", [-1, 3, 4, 5, 4, -1]),
    ("C#", [-1, 4, 6, 6, 6, 4]),
    ("C#m", [-1, 4, 6, 6, 5, 4]),
    ("C#dim", [-1, 4, 5, 6, 5, -1]),
    ("D", [-1, -1, 0, 2, 3, 2]),
    ("Dm", [-1, -1, 0, 2, 3, 1]),
    ("Ddim", [-1, -1, 0, 1, 3, 1]),
    ("D#", [-1, -1, 1, 3, 4, 3]),
    ("D#m", [-1, -1, 1, 3, 4, 2]),
    ("D#dim", [-1, -1, 1, 2, 4, 2]),
    ("E", [0, 2, 2, 1, 0, 0]),
    ("Em", [0, 2, 2, 0, 0, 0]),
    ("Edim", [0, 1, 2, 0, 2, 0]),
    ("F", [1, 3, 3, 2, 1, 1]),
    ("Fm", [1, 3, 3, 1, 1, 1]),
    ("Fdim", [1, 2, 3, 1, 3, 1]),
    ("F#", [2, 4, 4, 3, 2, 2]),
    ("F#m", [2, 4, 4, 2, 2, 2]),
    ("F#dim", [2, 3, 4, 2, 4, 2]),
    ("G", [3, 2, 0, 0, 0, 3]),
    ("Gm", [3, 5, 5, 3, 3, 3]),
    ("Gdim", [3, 4, 5, 3, 5, 3]),
    ("G#", [4, 6, 6, 5, 4, 4]),
    ("G#m", [4, 6, 6, 4, 4, 4]),
    ("G#dim", [4, 5, 6, 4, 6, 4]),
    ("A", [-1, 0, 2, 2, 2, 0]),
    ("Am", [-1, 0, 2, 2, 1, 0]),
    ("Adim", [-1, 0, 1, 2, 1, -1]),
    ("A#", [-1, 1, 3, 3, 3, 1]),
    ("A#m", [-1, 1, 3, 3, 2, 1]),
    ("A#dim", [-1, 1, 2, 3, 2, -1]),
    ("B", [-1, 2, 4, 4, 4, 2]),
    ("Bm", [-1, 2, 4, 4, 3, 2]),
    ("Bdim", [-1, 2, 3, 4, 3, -1]),
];

#[test]
fn every_row_of_the_table_is_found_under_its_name() {
    for (name, fingers) in ROWS {
        let tab = get_chord_tab(name);
        assert!(tab.is_some(), "{}", name);
        let tab = tab.unwrap();
        assert_eq!(tab.name, name);
        assert_eq!(tab.fingers, fingers.to_vec(), "{}", name);
        assert_eq!(tab.base_fret, 0);
    }
}

#[test]
fn names_of_no_row_find_nothing() {
    for name in [
        "", "c", "cm", "Db", "Bb", "E#", "B#", "Csus2", "Csus4", "C5", "CM", "C m", "Cmin",
        "Cdi", "Cdimm", "H", "mC", "#C", "C##",
    ] {
        assert!(get_chord_tab(name).is_none(), "{:?}", name);
    }
}

#[test]
fn chords_find_their_tab_by_name() {
    let tab = Chord::major(Note::G).get_guitar_tab().unwrap();
    assert_eq!(tab.name, "G");
    assert_eq!(tab.fingers, vec![3, 2, 0, 0, 0, 3]);
    let tab = Chord::minor(Note::FSharp).get_guitar_tab().unwrap();
    assert_eq!(tab.name, "F#m");
    assert_eq!(tab.fingers, vec![2, 4, 4, 2, 2, 2]);
    let tab = Chord::diminished(Note::A).get_guitar_tab().unwrap();
    assert_eq!(tab.fingers, vec![-1, 0, 1, 2, 1, -1]);
    assert!(Chord::sus2(Note::C).get_guitar_tab().is_none());
    assert!(Chord::sus4(Note::C).get_guitar_tab().is_none());
    assert!(Chord::power(Note::C).get_guitar_tab().is_none());
}

#[test]
fn the_tab_goes_by_the_name_not_the_shape() {
    let renamed = Chord::new(Note::C, vec![0, 3, 7], "E".to_string());
    assert_eq!(renamed.get_guitar_tab().unwrap().fingers, vec![0, 2, 2, 1, 0, 0]);
    let unnamed = Chord::new(Note::C, vec![0, 4, 7], "C major".to_string());
    assert!(unnamed.get_guitar_tab().is_none());
}

#[test]
fn chord_tab_new_keeps_what_it_is_given() {
    let tab = ChordTab::new("Cadd9".to_string(), vec![-1, 3, 2, 0, 3, 0], 2);
    assert_eq!(tab.name, "Cadd9");
    assert_eq!(tab.fingers, vec![-1, 3, 2, 0, 3, 0]);
    assert_eq!(tab.base_fret, 2);
    let copy = tab.clone();
    assert_eq!(copy.name, tab.name);
    assert_eq!(copy.fingers, tab.fingers);
    assert_eq!(copy.base_fret, 2);
}
