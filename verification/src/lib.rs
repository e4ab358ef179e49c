//! Transliteration of Latin-alphabet text into Elder Futhark runes.
//!
//! A text is put into lowercase and read once from left to right. Digraphs and
//! diphthongs become one rune, `x` becomes two, every other letter the rune that
//! the table holds for it; what the table does not hold is kept as it is. A
//! [`transcription::TranscriptionConfig`] says whether spaces and punctuation are
//! transcribed as well.

pub mod independence;
pub mod laws;
pub mod runes;
pub mod text;
pub mod transcription;
