//! A fixed-rate melody sequencer for a square-wave voice.
//!
//! The pitch model maps a chromatic pitch class and an octave to the
//! hardware rate-register value of the voice; the sequencer walks a fixed,
//! cyclic list of (pitch, duration) events once per external tick and says
//! when a new note must be triggered.

pub mod pitch;
pub mod sequencer;

pub use pitch::Note;
pub use pitch::Octave;
pub use pitch::sound_rate;
pub use sequencer::PlayAction;
pub use sequencer::Sequencer;
pub use sequencer::Song;
pub use sequencer::SongError;
pub use sequencer::SongEvent;
