//! Pitch classes, modes, chords and the modal progressions built from them.

pub mod chord;
pub mod mode;
pub mod note;
pub mod progression;
pub mod tab;

pub use chord::{Chord, ChordQuality, ChordView};
pub use mode::Mode;
pub use note::Note;
pub use progression::{generate_modal_progression, Step};
pub use tab::{get_chord_tab, ChordTab, ChordTabView};
