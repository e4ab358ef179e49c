//! The Elder Futhark: its glyphs, its lookup table and its transcription rules.

use vstd::prelude::*;
use crate::text::lowercase;
use crate::transcription::{Transcriber, TranscriptionConfig};

verus! {

/// A transcriber into the Elder Futhark, made for one configuration.
///
/// Its view is the configuration it was made for.
#[non_exhaustive]
pub struct ElderFuthark {
    config: TranscriptionConfig,
}

impl View for ElderFuthark {
    type V = TranscriptionConfig;

    closed spec fn view(&self) -> TranscriptionConfig {
        self.config
    }
}

impl ElderFuthark {
    pub const FEHU: char = 'ᚠ';
    pub const URUZ: char = 'ᚢ';
    pub const THURISAZ: char = 'ᚦ';
    pub const ANSUZ: char = 'ᚨ';
    pub const RAIDHO: char = 'ᚱ';
    pub const KAUNAN: char = 'ᚲ';
    pub const GEBO: char = 'ᚷ';
    pub const WUNJO: char = 'ᚹ';
    pub const HAGALAZ: char = 'ᚺ';
    pub const NAUDIZ: char = 'ᚾ';
    pub const ISA: char = 'ᛁ';
    pub const JERA: char = 'ᛃ';
    pub const EIHWAZ: char = 'ᛇ';
    pub const PERTHO: char = 'ᛈ';
    pub const ALGIZ: char = 'ᛉ';
    pub const SOWILO: char = 'ᛊ';
    pub const TIWAZ: char = 'ᛏ';
    pub const BERKANAN: char = 'ᛒ';
    pub const EHWAZ: char = 'ᛖ';
    pub const MANNAZ: char = 'ᛗ';
    pub const LAGUZ: char = 'ᛚ';
    pub const INGWAZ: char = 'ᛜ';
    pub const DAGAZ: char = 'ᛞ';
    pub const OTHALA: char = 'ᛟ';
    /// The word separator.
    pub const SINGLE_PUNCTUATION: char = '᛫';
    /// The mark for a colon or a semicolon.
    pub const DOUBLE_PUNCTUATION: char = '᛬';
    /// The mark that ends a sentence.
    pub const CROSS: char = '᛭';
    /// The table entry of a character that leaves nothing in the runes.
    pub const ELIDED: char = '\0';

    /// A transcriber for the given configuration.
    pub fn new(config: TranscriptionConfig) -> (futhark: Self)
        ensures
            futhark@ == config,
    {
        Self { config }
    }

    /// Transcribes a text that is already in lowercase: one pass from left to
    /// right, in which a two-character rule takes precedence over the rule for
    /// its first character alone.
    pub fn transcribe_lowercased(&self, lowered: &str) -> (runes: String)
        ensures
            runes@ == transcription(lowered@, self@),
    {
        let mut runes = String::new();
        // The character that was read but whose rule is not yet decided.
        let mut held: Option<char> = None;
        proof {
            assert(lowered@.skip(0) =~= lowered@);
            assert(runes@ + transcription(lowered@, self@) =~= transcription(lowered@, self@));
        }
        for second in it: lowered.chars()
            invariant
                it.seq() == lowered@,
                runes@ + transcription(unread(held, lowered@.skip(it.index())), self@)
                    == transcription(lowered@, self@),
        {
            let ghost text = unread(held, lowered@.skip(it.index()));
            let ghost rest = lowered@.skip(it.index() + 1);
            assert(lowered@.skip(it.index()) =~= seq![second] + rest);
            match held {
                None => {
                    held = Some(second);
                },
                Some(first) => {
                    match pair_rune(first, second, self.config) {
                        Some(glyph) => {
                            runes.push(glyph);
                            held = None;
                            assert(text.skip(2) =~= rest);
                        },
                        None => {
                            self.push_single(&mut runes, first);
                            held = Some(second);
                            assert(text.skip(1) =~= seq![second] + rest);
                        },
                    }
                },
            }
        }
        proof {
            // Nothing is left to read: what remains is the held character alone.
            assert(lowered@.skip(lowered@.len() as int) =~= Seq::<char>::empty());
            assert(transcription(Seq::empty(), self@) =~= Seq::<char>::empty());
        }
        if let Some(last) = held {
            proof {
                assert(unread(held, Seq::empty()) =~= seq![last]);
                assert(seq![last].skip(1) =~= Seq::<char>::empty());
            }
            self.push_single(&mut runes, last);
        }
        runes
    }

    /// Appends what a character contributes where no two-character rule applies.
    fn push_single(&self, runes: &mut String, character: char)
        ensures
            final(runes)@ == old(runes)@ + single_output(character, self@),
    {
        if character == 'x' {
            runes.push(Self::KAUNAN);
            runes.push(Self::SOWILO);
        } else {
            match self.lookup(character) {
                Some(glyph) => {
                    if glyph != Self::ELIDED {
                        runes.push(glyph);
                    }
                },
                None => {
                    runes.push(character);
                },
            }
        }
    }
}

impl Default for ElderFuthark {
    /// A transcriber for the default configuration.
    fn default() -> (futhark: Self)
        ensures
            futhark@.transcribe_spaces,
            futhark@.transcribe_punctuation,
    {
        Self { config: TranscriptionConfig::default() }
    }
}

impl Transcriber for ElderFuthark {
    open spec fn glyph_for(&self, character: char) -> Option<char> {
        table_entry(character, self@)
    }

    open spec fn runes_for(&self, text: Seq<char>) -> Seq<char> {
        transcription(lowercase(text), self@)
    }

    fn lookup(&self, character: char) -> (glyph: Option<char>) {
        match character {
            'f' => Some(Self::FEHU),
            'u' => Some(Self::URUZ),
            'þ' | 'ð' => Some(Self::THURISAZ),
            'a' | 'æ' => Some(Self::ANSUZ),
            'r' => Some(Self::RAIDHO),
            'k' | 'c' | 'q' => Some(Self::KAUNAN),
            'g' => Some(Self::GEBO),
            'w' | 'v' => Some(Self::WUNJO),
            'h' => Some(Self::HAGALAZ),
            'n' => Some(Self::NAUDIZ),
            'i' => Some(Self::ISA),
            'j' => Some(Self::JERA),
            'y' => Some(Self::EIHWAZ),
            'p' => Some(Self::PERTHO),
            'z' => Some(Self::ALGIZ),
            's' => Some(Self::SOWILO),
            't' => Some(Self::TIWAZ),
            'b' => Some(Self::BERKANAN),
            'e' | 'ø' | 'é' | 'œ' => Some(Self::EHWAZ),
            'm' => Some(Self::MANNAZ),
            'l' => Some(Self::LAGUZ),
            'd' => Some(Self::DAGAZ),
            'o' | 'å' => Some(Self::OTHALA),
            ' ' if self.config.transcribe_spaces => Some(Self::SINGLE_PUNCTUATION),
            ':' if self.config.transcribe_punctuation => Some(Self::DOUBLE_PUNCTUATION),
            ';' if self.config.transcribe_punctuation => Some(Self::DOUBLE_PUNCTUATION),
            '\'' if self.config.transcribe_punctuation => Some(Self::ELIDED),
            ',' if self.config.transcribe_punctuation => Some(Self::ELIDED),
            '.' if self.config.transcribe_punctuation => Some(Self::CROSS),
            _ => None,
        }
    }

    fn transcribe(&self, text: &str) -> (runes: String) {
        let lowered = text.to_lowercase();
        self.transcribe_lowercased(lowered.as_str())
    }
}

/// The lookup table: the glyph of a lowercase character under a configuration.
///
/// `Some(ElderFuthark::ELIDED)` stands for a character that is taken out of the
/// text; `None` for one that the table does not hold, which is kept as it is.
pub open spec fn table_entry(character: char, config: TranscriptionConfig) -> Option<char> {
    match character {
        'f' => Some(ElderFuthark::FEHU),
        'u' => Some(ElderFuthark::URUZ),
        'þ' | 'ð' => Some(ElderFuthark::THURISAZ),
        'a' | 'æ' => Some(ElderFuthark::ANSUZ),
        'r' => Some(ElderFuthark::RAIDHO),
        'k' | 'c' | 'q' => Some(ElderFuthark::KAUNAN),
        'g' => Some(ElderFuthark::GEBO),
        'w' | 'v' => Some(ElderFuthark::WUNJO),
        'h' => Some(ElderFuthark::HAGALAZ),
        'n' => Some(ElderFuthark::NAUDIZ),
        'i' => Some(ElderFuthark::ISA),
        'j' => Some(ElderFuthark::JERA),
        'y' => Some(ElderFuthark::EIHWAZ),
        'p' => Some(ElderFuthark::PERTHO),
        'z' => Some(ElderFuthark::ALGIZ),
        's' => Some(ElderFuthark::SOWILO),
        't' => Some(ElderFuthark::TIWAZ),
        'b' => Some(ElderFuthark::BERKANAN),
        'e' | 'ø' | 'é' | 'œ' => Some(ElderFuthark::EHWAZ),
        'm' => Some(ElderFuthark::MANNAZ),
        'l' => Some(ElderFuthark::LAGUZ),
        'd' => Some(ElderFuthark::DAGAZ),
        'o' | 'å' => Some(ElderFuthark::OTHALA),
        ' ' => if config.transcribe_spaces {
            Some(ElderFuthark::SINGLE_PUNCTUATION)
        } else {
            None
        },
        ':' | ';' => if config.transcribe_punctuation {
            Some(ElderFuthark::DOUBLE_PUNCTUATION)
        } else {
            None
        },
        '\'' | ',' => if config.transcribe_punctuation {
            Some(ElderFuthark::ELIDED)
        } else {
            None
        },
        '.' => if config.transcribe_punctuation {
            Some(ElderFuthark::CROSS)
        } else {
            None
        },
        _ => None,
    }
}

/// The glyph that two adjacent characters make together, where a rule joins them:
/// the digraphs `th` and `ng`, the diphthong `ea`, and, where punctuation is
/// transcribed, a full stop, colon or semicolon with the space behind it.
pub open spec fn pair_glyph(first: char, second: char, config: TranscriptionConfig) -> Option<
    char,
> {
    if first == 't' && second == 'h' {
        Some(ElderFuthark::THURISAZ)
    } else if first == 'n' && second == 'g' {
        Some(ElderFuthark::INGWAZ)
    } else if first == 'e' && second == 'a' {
        Some(ElderFuthark::EHWAZ)
    } else if config.transcribe_punctuation && first == '.' && second == ' ' {
        Some(ElderFuthark::CROSS)
    } else if config.transcribe_punctuation && (first == ':' || first == ';') && second == ' ' {
        Some(ElderFuthark::DOUBLE_PUNCTUATION)
    } else {
        None
    }
}

/// What one character contributes where no two-character rule applies to it:
/// two glyphs for `x`, the glyph of its table entry, nothing where the entry is
/// `ELIDED`, and the character itself where the table has no entry.
pub open spec fn single_output(character: char, config: TranscriptionConfig) -> Seq<char> {
    if character == 'x' {
        seq![ElderFuthark::KAUNAN, ElderFuthark::SOWILO]
    } else {
        match table_entry(character, config) {
            Some(glyph) => if glyph == ElderFuthark::ELIDED {
                Seq::empty()
            } else {
                seq![glyph]
            },
            None => seq![character],
        }
    }
}

/// The runes of a lowercase text: at each position the two-character rule where
/// one applies, else the single character's contribution, from left to right.
pub open spec fn transcription(text: Seq<char>, config: TranscriptionConfig) -> Seq<char>
    decreases text.len(),
{
    if text.len() == 0 {
        Seq::empty()
    } else if text.len() >= 2 && pair_glyph(text[0], text[1], config) is Some {
        seq![pair_glyph(text[0], text[1], config)->0] + transcription(text.skip(2), config)
    } else {
        single_output(text[0], config) + transcription(text.skip(1), config)
    }
}

/// The text that is still to be transcribed: the character held back, if any,
/// followed by what has not been read.
spec fn unread(held: Option<char>, rest: Seq<char>) -> Seq<char> {
    match held {
        Some(character) => seq![character] + rest,
        None => rest,
    }
}

/// The two-character rule for a pair of adjacent characters, if there is one.
fn pair_rune(first: char, second: char, config: TranscriptionConfig) -> (glyph: Option<char>)
    ensures
        glyph == pair_glyph(first, second, config),
{
    match (first, second) {
        ('t', 'h') => Some(ElderFuthark::THURISAZ),
        ('n', 'g') => Some(ElderFuthark::INGWAZ),
        ('e', 'a') => Some(ElderFuthark::EHWAZ),
        ('.', ' ') if config.transcribe_punctuation => Some(ElderFuthark::CROSS),
        (':', ' ') if config.transcribe_punctuation => Some(ElderFuthark::DOUBLE_PUNCTUATION),
        (';', ' ') if config.transcribe_punctuation => Some(ElderFuthark::DOUBLE_PUNCTUATION),
        _ => None,
    }
}

} // verus!
