use jam_track::music_theory::{generate_modal_progression, Chord, ChordQuality, Mode, Note, Step};

/// The display names of a progression.
fn names_of(chords: &[Chord]) -> Vec<String> {
    chords.iter().map(|chord| chord.name.clone()).collect()
}

const ROOTS: [Note; 12] = [
    Note::C,
    Note::CSharp,
    Note::D,
    Note::DSharp,
    Note::E,
    Note::F,
    Note::FSharp,
    Note::G,
    Note::GSharp,
    Note::A,
    Note::ASharp,
    Note::B,
];

const MODES: [Mode; 7] = [
    Mode::Ionian,
    Mode::Dorian,
    Mode::Phrygian,
    Mode::Lydian,
    Mode::Mixolydian,
    Mode::Aeolian,
    Mode::Locrian,
];

#[test]
fn c_ionian_is_one_four_one_five() {
    let progression = generate_modal_progression(Note::C, Mode::Ionian);
    assert_eq!(names_of(&progression), vec!["C", "F", "C", "G"]);
}

#[test]
fn every_mode_of_c_has_its_characteristic_chords() {
    let expected: [(Mode, [&str; 4]); 7] = [
        (Mode::Ionian, ["C", "F", "C", "G"]),
        (Mode::Dorian, ["Cm", "F", "Cm", "F"]),
        (Mode::Phrygian, ["Cm", "C#", "Cm", "A#"]),
        (Mode::Lydian, ["C", "D", "C", "D"]),
        (Mode::Mixolydian, ["C", "A#", "C", "A#"]),
        (Mode::Aeolian, ["Cm", "Fm", "Cm", "Gm"]),
        (Mode::Locrian, ["Cdim", "C#", "Cdim", "F#"]),
    ];
    for (mode, names) in expected {
        assert_eq!(names_of(&generate_modal_progression(Note::C, mode)), names.to_vec());
    }
}

#[test]
fn e_phrygian_and_a_aeolian() {
    assert_eq!(
        names_of(&generate_modal_progression(Note::E, Mode::Phrygian)),
        vec!["Em", "F", "Em", "D"]
    );
    assert_eq!(
        names_of(&generate_modal_progression(Note::A, Mode::Aeolian)),
        vec!["Am", "Dm", "Am", "Em"]
    );
    assert_eq!(
        names_of(&generate_modal_progression(Note::B, Mode::Locrian)),
        vec!["Bdim", "C", "Bdim", "F"]
    );
}

#[test]
fn progression_chords_carry_root_and_shape() {
    let progression = generate_modal_progression(Note::D, Mode::Dorian);
    assert_eq!(progression.len(), 4);
    assert_eq!(progression[0].root, Note::D);
    assert_eq!(progression[0].intervals, vec![0, 3, 7]);
    assert_eq!(progression[1].root, Note::G);
    assert_eq!(progression[1].intervals, vec![0, 4, 7]);
    assert_eq!(progression[2].root, Note::D);
    assert_eq!(progression[2].intervals, vec![0, 3, 7]);
    assert_eq!(progression[3].root, Note::G);
    assert_eq!(progression[3].intervals, vec![0, 4, 7]);
    let locrian = generate_modal_progression(Note::D, Mode::Locrian);
    assert_eq!(locrian[0].intervals, vec![0, 3, 6]);
    assert_eq!(locrian[3].root, Note::GSharp);
}

#[test]
fn templates_are_the_table_of_degrees_and_qualities() {
    let major = ChordQuality::Major;
    let minor = ChordQuality::Minor;
    let diminished = ChordQuality::Diminished;
    let expected: [(Mode, [(usize, ChordQuality); 4]); 7] = [
        (Mode::Ionian, [(0, major), (3, major), (0, major), (4, major)]),
        (Mode::Dorian, [(0, minor), (3, major), (0, minor), (3, major)]),
        (Mode::Phrygian, [(0, minor), (1, major), (0, minor), (6, major)]),
        (Mode::Lydian, [(0, major), (1, major), (0, major), (1, major)]),
        (Mode::Mixolydian, [(0, major), (6, major), (0, major), (6, major)]),
        (Mode::Aeolian, [(0, minor), (3, minor), (0, minor), (4, minor)]),
        (Mode::Locrian, [(0, diminished), (1, major), (0, diminished), (4, major)]),
    ];
    for (mode, steps) in expected {
        let wanted: Vec<Step> =
            steps.iter().map(|&(degree, quality)| Step { degree, quality }).collect();
        assert_eq!(mode.template(), wanted);
    }
}

#[test]
fn every_progression_has_four_chords_on_scale_degrees() {
    for mode in MODES {
        for root in ROOTS {
            let scale = mode.scale(root);
            let template = mode.template();
            let progression = generate_modal_progression(root, mode);
            assert_eq!(progression.len(), 4);
            assert_eq!(progression[0].root, root);
            assert_eq!(progression[2].root, root);
            assert_eq!(progression[0].name, progression[2].name);
            for i in 0..4 {
                let wanted = Chord::with_quality(scale[template[i].degree], template[i].quality);
                assert_eq!(progression[i].root, wanted.root);
                assert_eq!(progression[i].intervals, wanted.intervals);
                assert_eq!(progression[i].name, wanted.name);
            }
        }
    }
}

#[test]
fn the_same_key_and_mode_give_the_same_progression() {
    for mode in MODES {
        for root in ROOTS {
            let first = generate_modal_progression(root, mode);
            let second = generate_modal_progression(root, mode);
            assert_eq!(names_of(&first), names_of(&second));
            for i in 0..4 {
                assert_eq!(first[i].root, second[i].root);
                assert_eq!(first[i].intervals, second[i].intervals);
            }
        }
    }
}
