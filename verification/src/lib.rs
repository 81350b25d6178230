//! Modal jam tracks.
//!
//! [`music_theory`] holds the harmony: pitch classes as the group of semitones, the
//! seven diatonic modes, chords, guitar fingerings, and the four-chord progression
//! that characterises each mode. [`generator`] takes a key and a mode as text and
//! gives the progression, its chord names as JSON, and its fingerings. [`audio`]
//! holds the integer side of synthesis: the layout of a note's envelope in samples
//! and the length of a mix. [`text`] compares names.
//!
//! Sample arithmetic is floating point and not part of this library.

pub mod audio;
pub mod generator;
pub mod music_theory;
pub mod text;
