use jam_track::generator::{
    chord_names, generate_progression, get_available_keys, get_available_modes, get_chord_tabs,
    get_progression_info, info_from_json, resolve, JamError,
};
use jam_track::music_theory::{Chord, Mode, Note};

/// An error of the serialiser, from a text that is no JSON.
fn some_json_error() -> serde_json::Error {
    serde_json::from_str::<i32>("?").unwrap_err()
}

#[test]
fn key_and_mode_resolve_together() {
    assert!(matches!(resolve("F#", "Phrygian"), Ok((Note::FSharp, Mode::Phrygian))));
    assert!(matches!(resolve("gb", "MINOR"), Ok((Note::FSharp, Mode::Aeolian))));
    assert!(matches!(resolve("C", "major"), Ok((Note::C, Mode::Ionian))));
}

#[test]
fn an_unknown_key_is_reported_with_its_text() {
    match resolve("H", "dorian") {
        Err(JamError::InvalidKey(text)) => assert_eq!(text, "H"),
        other => panic!("{:?}", other),
    }
    match resolve("", "dorian") {
        Err(JamError::InvalidKey(text)) => assert_eq!(text, ""),
        other => panic!("{:?}", other),
    }
}

#[test]
fn an_unknown_mode_is_reported_with_its_text() {
    match resolve("C", "Blues") {
        Err(JamError::InvalidMode(text)) => assert_eq!(text, "Blues"),
        other => panic!("{:?}", other),
    }
}

#[test]
fn the_key_is_checked_before_the_mode() {
    match resolve("X", "Y") {
        Err(JamError::InvalidKey(text)) => assert_eq!(text, "X"),
        other => panic!("{:?}", other),
    }
}

#[test]
fn error_messages_name_the_rejected_input() {
    assert_eq!(JamError::InvalidKey("H".to_string()).message(), "Invalid key: H");
    assert_eq!(JamError::InvalidMode("Blues".to_string()).message(), "Invalid mode: Blues");
    assert_eq!(JamError::InvalidKey(String::new()).message(), "Invalid key: ");
    let error = some_json_error();
    let reported = error.to_string();
    assert_eq!(
        JamError::Serialization(error).message(),
        format!("Serialization error: {}", reported)
    );
}

#[test]
fn a_progression_from_text() {
    let progression = generate_progression("a", "aeolian").unwrap();
    let names: Vec<&str> = progression.iter().map(|chord| chord.name.as_str()).collect();
    assert_eq!(names, vec!["Am", "Dm", "Am", "Em"]);
    assert!(matches!(generate_progression("a", "aeolien"), Err(JamError::InvalidMode(_))));
    assert!(matches!(generate_progression("ä", "aeolian"), Err(JamError::InvalidKey(_))));
}

#[test]
fn chord_names_are_collected_in_order() {
    let chords = vec![Chord::minor(Note::E), Chord::power(Note::A), Chord::major(Note::CSharp)];
    assert_eq!(chord_names(&chords), vec!["Em", "A5", "C#"]);
    assert_eq!(chord_names(&vec![]), Vec::<String>::new());
}

#[test]
fn progression_info_is_a_json_array_of_names() {
    assert_eq!(get_progression_info("C", "Ionian").unwrap(), "[\"C\",\"F\",\"C\",\"G\"]");
    assert_eq!(
        get_progression_info("F#", "Phrygian").unwrap(),
        "[\"F#m\",\"G\",\"F#m\",\"E\"]"
    );
    assert_eq!(
        get_progression_info("Bb", "locrian").unwrap(),
        "[\"A#dim\",\"B\",\"A#dim\",\"E\"]"
    );
}

#[test]
fn progression_info_reads_back_as_the_chord_names() {
    let keys = get_available_keys();
    let modes = get_available_modes();
    for key in &keys {
        for mode in &modes {
            let text = get_progression_info(key, mode).unwrap();
            let read: Vec<String> = serde_json::from_str(&text).unwrap();
            let chords = generate_progression(key, mode).unwrap();
            assert_eq!(read, chord_names(&chords));
        }
    }
}

#[test]
fn progression_info_rejects_unknown_input() {
    match get_progression_info("H", "ionian") {
        Err(JamError::InvalidKey(text)) => assert_eq!(text, "H"),
        other => panic!("{:?}", other),
    }
    match get_progression_info("C", "ionic") {
        Err(JamError::InvalidMode(text)) => assert_eq!(text, "ionic"),
        other => panic!("{:?}", other),
    }
}

#[test]
fn a_serialiser_error_becomes_a_serialization_error() {
    let error = some_json_error();
    let reported = error.to_string();
    match info_from_json(Err(error)) {
        Err(JamError::Serialization(inner)) => assert_eq!(inner.to_string(), reported),
        other => panic!("{:?}", other),
    }
    assert_eq!(info_from_json(Ok("[]".to_string())).unwrap(), "[]");
}

#[test]
fn chord_tabs_follow_the_progression() {
    let tabs = get_chord_tabs("C", "Ionian").unwrap();
    assert_eq!(tabs.len(), 4);
    let names: Vec<&str> =
        tabs.iter().map(|tab| tab.as_ref().unwrap().name.as_str()).collect();
    assert_eq!(names, vec!["C", "F", "C", "G"]);
    assert_eq!(tabs[0].as_ref().unwrap().fingers, vec![-1, 3, 2, 0, 1, 0]);
    assert_eq!(tabs[1].as_ref().unwrap().fingers, vec![1, 3, 3, 2, 1, 1]);
    assert_eq!(tabs[3].as_ref().unwrap().fingers, vec![3, 2, 0, 0, 0, 3]);
    assert!(matches!(get_chord_tabs("C", ""), Err(JamError::InvalidMode(_))));
    assert!(matches!(get_chord_tabs("", ""), Err(JamError::InvalidKey(_))));
}

#[test]
fn every_progression_chord_has_a_tab() {
    for key in get_available_keys() {
        for mode in get_available_modes() {
            let tabs = get_chord_tabs(&key, &mode).unwrap();
            assert_eq!(tabs.len(), 4);
            for tab in tabs {
                let tab = tab.unwrap();
                assert_eq!(tab.fingers.len(), 6);
                assert_eq!(tab.base_fret, 0);
            }
        }
    }
}

#[test]
fn available_keys_and_modes_are_listed_in_order() {
    assert_eq!(
        get_available_keys(),
        vec!["C", "C#", "D", "D#", "E", "F", "F#", "G", "G#", "A", "A#", "B"]
    );
    assert_eq!(
        get_available_modes(),
        vec!["Ionian", "Dorian", "Phrygian", "Lydian", "Mixolydian", "Aeolian", "Locrian"]
    );
}

#[test]
fn every_listed_key_and_mode_is_accepted() {
    for (semitone, key) in get_available_keys().iter().enumerate() {
        assert_eq!(Note::from_string(key).map(|note| note.semitone() as usize), Some(semitone));
    }
    for (index, mode) in get_available_modes().iter().enumerate() {
        assert_eq!(Mode::from_string(mode), Some(Mode::all()[index]));
    }
}
