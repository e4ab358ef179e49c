//! The options that govern a transcription, and the capability of transcribing.

use vstd::prelude::*;

verus! {

/// Which of the optional parts of a text are turned into runes.
#[derive(Clone, Copy)]
pub struct TranscriptionConfig {
    /// Whether a space becomes the word separator rune (true) or stays a space (false).
    pub transcribe_spaces: bool,
    /// Whether punctuation becomes runes (true) or stays as it is (false).
    pub transcribe_punctuation: bool,
}

impl Default for TranscriptionConfig {
    /// Both options are on by default.
    fn default() -> (config: Self)
        ensures
            config.transcribe_spaces,
            config.transcribe_punctuation,
    {
        TranscriptionConfig { transcribe_spaces: true, transcribe_punctuation: true }
    }
}

/// A rune system that text can be transcribed into.
///
/// An implementation says in `glyph_for` and `runes_for` what its table and its
/// rules are; `lookup` and `transcribe` compute exactly that.
pub trait Transcriber {
    /// The table entry of a character: its glyph, or `None` where the table has no
    /// entry for it.
    spec fn glyph_for(&self, character: char) -> Option<char>;

    /// The runes that a text is transcribed into.
    spec fn runes_for(&self, text: Seq<char>) -> Seq<char>;

    /// Looks a single character up in the table.
    fn lookup(&self, character: char) -> (glyph: Option<char>)
        ensures
            glyph == self.glyph_for(character),
    ;

    /// Transcribes a text.
    fn transcribe(&self, text: &str) -> (runes: String)
        ensures
            runes@ == self.runes_for(text@),
    ;
}

} // verus!
