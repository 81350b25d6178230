//! From a key and a mode, given as text, to the progression, its chord names and
//! its guitar fingerings.

use vstd::prelude::*;

use crate::music_theory::chord::{Chord, ChordView};
use crate::music_theory::mode::Mode;
use crate::music_theory::note::Note;
use crate::music_theory::progression::{chord_views, generate_modal_progression, spec_progression};
use crate::music_theory::tab::{tab_view, ChordTab, ChordTabView};

verus! {

/// `serde_json::Error`, which the library hands on without looking inside.
#[verifier::external_type_specification]
#[verifier::external_body]
pub struct ExJsonError(serde_json::Error);

/// Why a request for a progression failed.
#[derive(Debug)]
pub enum JamError {
    /// The key names no pitch class. Holds the key as it was given.
    InvalidKey(String),
    /// The mode names no mode. Holds the mode as it was given.
    InvalidMode(String),
    /// The chord names could not be written as JSON.
    Serialization(serde_json::Error),
}

/// The JSON text that `serde_json::to_string` gives for a list of strings, or
/// `None` where it gives an error.
pub uninterp spec fn json_of_names(names: Seq<Seq<char>>) -> Option<Seq<char>>;

/// Calls `serde_json::to_string` on a list of strings. The call's outcome depends on
/// the strings alone: the text it returns is the one that `json_of_names` stands for.
#[verifier::external_body]
fn names_to_json(names: &Vec<String>) -> (r: Result<String, serde_json::Error>)
    ensures
        match r {
            Ok(text) => json_of_names(names.deep_view()) == Some(text@),
            Err(_) => json_of_names(names.deep_view()) is None,
        },
{
    serde_json::to_string(names)
}

impl JamError {
    /// What the message of each kind of error starts with.
    pub open spec fn spec_prefix(self) -> Seq<char> {
        match self {
            JamError::InvalidKey(_) => "Invalid key: "@,
            JamError::InvalidMode(_) => "Invalid mode: "@,
            JamError::Serialization(_) => "Serialization error: "@,
        }
    }

    /// A message for the caller. For a rejected key or mode it is the prefix and the
    /// input as it was given; for a failed serialisation, the prefix and the text that
    /// the serialiser's error displays as.
    pub fn message(&self) -> (r: String)
        ensures
            self matches JamError::InvalidKey(key) ==> r@ == self.spec_prefix() + key@,
            self matches JamError::InvalidMode(mode) ==> r@ == self.spec_prefix() + mode@,
            self matches JamError::Serialization(error) ==> exists|reported: String|
                vstd::string::to_string_from_display_ensures::<serde_json::Error>(&error, reported)
                    && r@ == self.spec_prefix() + reported@,
    {
        match self {
            JamError::InvalidKey(key) => String::from_str("Invalid key: ").concat(key.as_str()),
            JamError::InvalidMode(mode) => String::from_str("Invalid mode: ").concat(
                mode.as_str(),
            ),
            JamError::Serialization(error) => {
                let reported = error.to_string();
                String::from_str("Serialization error: ").concat(reported.as_str())
            },
        }
    }
}

/// The key and mode that two texts name, if both name one.
pub open spec fn spec_resolve(key: Seq<char>, mode: Seq<char>) -> Option<(Note, Mode)> {
    match (Note::spec_from_string(key), Mode::spec_from_string(mode)) {
        (Some(root), Some(mode)) => Some((root, mode)),
        _ => None,
    }
}

/// Whether `error` is the one that a key and a mode are turned down with: an unknown
/// key is reported before an unknown mode, and the error holds the text that was
/// turned down.
pub open spec fn spec_rejects(key: Seq<char>, mode: Seq<char>, error: JamError) -> bool {
    match error {
        JamError::InvalidKey(text) => Note::spec_from_string(key) is None && text@ == key,
        JamError::InvalidMode(text) => Note::spec_from_string(key) is Some
            && Mode::spec_from_string(mode) is None && text@ == mode,
        JamError::Serialization(_) => false,
    }
}

/// Parses the key, then the mode.
pub fn resolve(key: &str, mode: &str) -> (r: Result<(Note, Mode), JamError>)
    ensures
        r is Ok <==> spec_resolve(key@, mode@) is Some,
        match r {
            Ok(pair) => spec_resolve(key@, mode@) == Some(pair),
            Err(error) => spec_rejects(key@, mode@, error),
        },
{
    let root = match Note::from_string(key) {
        Some(root) => root,
        None => { return Err(JamError::InvalidKey(String::from_str(key))); },
    };
    let mode = match Mode::from_string(mode) {
        Some(mode) => mode,
        None => { return Err(JamError::InvalidMode(String::from_str(mode))); },
    };
    Ok((root, mode))
}

/// The progression for a key and a mode given as text.
pub fn generate_progression(key: &str, mode: &str) -> (r: Result<Vec<Chord>, JamError>)
    ensures
        r is Ok <==> spec_resolve(key@, mode@) is Some,
        match r {
            Ok(chords) => spec_resolve(key@, mode@) matches Some(pair) && chord_views(chords@)
                == spec_progression(pair.0, pair.1),
            Err(error) => spec_rejects(key@, mode@, error),
        },
{
    match resolve(key, mode) {
        Ok((root, mode)) => Ok(generate_modal_progression(root, mode)),
        Err(error) => Err(error),
    }
}

/// The display names of a list of chords, in order.
pub open spec fn spec_chord_names(chords: Seq<ChordView>) -> Seq<Seq<char>> {
    Seq::new(chords.len(), |i: int| chords[i].name)
}

/// Collects the display names of the chords, in order.
pub fn chord_names(chords: &Vec<Chord>) -> (r: Vec<String>)
    ensures
        r.deep_view() == spec_chord_names(chord_views(chords@)),
{
    let mut names: Vec<String> = Vec::new();
    let mut i: usize = 0;
    while i < chords.len()
        invariant
            i <= chords.len(),
            names@.len() == i,
            forall|j: int| 0 <= j < i ==> (#[trigger] names@[j])@ == chords@[j]@.name,
        decreases chords.len() - i,
    {
        names.push(chords[i].name.clone());
        i += 1;
    }
    names
}

/// The JSON text of the chord names of a progression; `None` where the serialiser
/// gives an error.
pub open spec fn spec_progression_info(root: Note, mode: Mode) -> Option<Seq<char>> {
    json_of_names(spec_chord_names(spec_progression(root, mode)))
}

/// Turns the serialiser's outcome into the library's: the text as it is, or the
/// serialiser's error inside [`JamError::Serialization`].
pub fn info_from_json(json: Result<String, serde_json::Error>) -> (r: Result<String, JamError>)
    ensures
        match json {
            Ok(text) => r == Ok::<String, JamError>(text),
            Err(error) => r == Err::<String, JamError>(JamError::Serialization(error)),
        },
{
    match json {
        Ok(text) => Ok(text),
        Err(error) => Err(JamError::Serialization(error)),
    }
}

/// The chord names of the progression for a key and a mode, as a JSON array of
/// strings.
pub fn get_progression_info(key: &str, mode: &str) -> (r: Result<String, JamError>)
    ensures
        match r {
            Ok(text) => spec_resolve(key@, mode@) matches Some(pair) && spec_progression_info(
                pair.0,
                pair.1,
            ) == Some(text@),
            Err(JamError::Serialization(_)) => spec_resolve(key@, mode@) matches Some(pair)
                && spec_progression_info(pair.0, pair.1) is None,
            Err(error) => spec_rejects(key@, mode@, error),
        },
{
    let chords = match generate_progression(key, mode) {
        Ok(chords) => chords,
        Err(error) => { return Err(error); },
    };
    let names = chord_names(&chords);
    info_from_json(names_to_json(&names))
}

/// The fingerings that the table holds for a list of chord names, in order.
pub open spec fn spec_chord_tabs(chords: Seq<ChordView>) -> Seq<Option<ChordTabView>> {
    Seq::new(chords.len(), |i: int| ChordTabView::lookup(chords[i].name))
}

/// The views of a list of fingerings that may be missing, in order.
pub open spec fn tab_views(tabs: Seq<Option<ChordTab>>) -> Seq<Option<ChordTabView>> {
    Seq::new(tabs.len(), |i: int| tab_view(tabs[i]))
}

/// The guitar fingering of each chord of the progression for a key and a mode.
pub fn get_chord_tabs(key: &str, mode: &str) -> (r: Result<Vec<Option<ChordTab>>, JamError>)
    ensures
        r is Ok <==> spec_resolve(key@, mode@) is Some,
        match r {
            Ok(tabs) => spec_resolve(key@, mode@) matches Some(pair) && tab_views(tabs@)
                == spec_chord_tabs(spec_progression(pair.0, pair.1)),
            Err(error) => spec_rejects(key@, mode@, error),
        },
{
    let chords = match generate_progression(key, mode) {
        Ok(chords) => chords,
        Err(error) => { return Err(error); },
    };
    let mut tabs: Vec<Option<ChordTab>> = Vec::new();
    let mut i: usize = 0;
    while i < chords.len()
        invariant
            i <= chords.len(),
            tabs@.len() == i,
            forall|j: int|
                0 <= j < i ==> tab_view(#[trigger] tabs@[j]) == ChordTabView::lookup(
                    chords@[j]@.name,
                ),
        decreases chords.len() - i,
    {
        tabs.push(chords[i].get_guitar_tab());
        i += 1;
    }
    Ok(tabs)
}

/// The names of the seven modes, Ionian first.
pub fn get_available_modes() -> (r: Vec<String>)
    ensures
        r@.len() == 7,
        forall|i: int| 0 <= i < 7 ==> (#[trigger] r@[i])@ == Mode::spec_all()[i].spec_name(),
{
    let modes = Mode::all();
    let mut names: Vec<String> = Vec::new();
    let mut i: usize = 0;
    while i < modes.len()
        invariant
            i <= modes.len() == 7,
            modes@ == Mode::spec_all(),
            names@.len() == i,
            forall|j: int|
                0 <= j < i ==> (#[trigger] names@[j])@ == Mode::spec_all()[j].spec_name(),
        decreases modes.len() - i,
    {
        names.push(String::from_str(modes[i].name()));
        i += 1;
    }
    names
}

/// The names of the twelve pitch classes, from C upwards.
pub fn get_available_keys() -> (r: Vec<String>)
    ensures
        r@.len() == 12,
        forall|i: int|
            0 <= i < 12 ==> (#[trigger] r@[i])@ == Note::spec_from_semitone(i).spec_name(),
{
    let mut names: Vec<String> = Vec::new();
    let mut semitone: u8 = 0;
    while semitone < 12
        invariant
            semitone <= 12,
            names@.len() == semitone,
            forall|j: int|
                0 <= j < semitone ==> (#[trigger] names@[j])@ == Note::spec_from_semitone(
                    j,
                ).spec_name(),
        decreases 12 - semitone,
    {
        names.push(String::from_str(Note::from_semitone(semitone).name()));
        semitone += 1;
    }
    names
}

} // verus!
