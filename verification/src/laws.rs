//! What holds of every transcription into the Elder Futhark, whatever the text.

use vstd::prelude::*;
use crate::runes::{pair_glyph, single_output, table_entry, transcription, ElderFuthark};
use crate::text::lowercase;
use crate::transcription::{Transcriber, TranscriptionConfig};

verus! {

/// The runes depend on nothing but the text and the configuration: transcribers
/// made for the same configuration hold the same table and give the same runes
/// for the same text.
pub proof fn lemma_runes_are_determined(
    first: ElderFuthark,
    second: ElderFuthark,
    character: char,
    text: Seq<char>,
)
    requires
        first@ == second@,
    ensures
        first.glyph_for(character) == second.glyph_for(character),
        first.runes_for(text) == second.runes_for(text),
{
}

/// Case does not matter: two texts with the same lowercase form have the same
/// runes. In particular a text has the runes of its lowercase form, wherever
/// lowercasing that form again changes nothing.
pub proof fn lemma_case_is_ignored(futhark: ElderFuthark, text: Seq<char>, other: Seq<char>)
    ensures
        lowercase(text) == lowercase(other) ==> futhark.runes_for(text) == futhark.runes_for(other),
        lowercase(lowercase(text)) == lowercase(text) ==> futhark.runes_for(lowercase(text))
            == futhark.runes_for(text),
{
}

/// A text of one character is transcribed by that character's own rule.
pub proof fn lemma_transcription_of_one(character: char, config: TranscriptionConfig)
    ensures
        transcription(seq![character], config) == single_output(character, config),
{
    assert(seq![character].skip(1) =~= Seq::<char>::empty());
    assert(transcription(Seq::<char>::empty(), config) =~= Seq::<char>::empty());
}

/// A text may be cut wherever no two-character rule joins the characters on the
/// two sides of the cut: the runes of the whole are the runes of the parts, in
/// order.
pub proof fn lemma_transcription_splits(
    before: Seq<char>,
    after: Seq<char>,
    config: TranscriptionConfig,
)
    requires
        before.len() > 0 && after.len() > 0 ==> pair_glyph(before.last(), after[0], config) is None,
    ensures
        transcription(before + after, config) == transcription(before, config) + transcription(
            after,
            config,
        ),
    decreases before.len(),
{
    let text = before + after;
    if before.len() == 0 {
        assert(text =~= after);
    } else if before.len() == 1 {
        lemma_transcription_of_one(before[0], config);
        assert(before =~= seq![before[0]]);
        assert(text.skip(1) =~= after);
        if after.len() == 0 {
            assert(text =~= before);
        }
    } else {
        let step: int = if pair_glyph(before[0], before[1], config) is Some {
            2
        } else {
            1
        };
        assert(text.skip(step) =~= before.skip(step) + after);
        lemma_transcription_splits(before.skip(step), after, config);
    }
}

/// Two characters that a rule joins give the rule's glyph wherever they stand,
/// unless the first of them is already joined to the character before it.
pub proof fn lemma_pair_in_context(
    before: Seq<char>,
    first: char,
    second: char,
    after: Seq<char>,
    config: TranscriptionConfig,
)
    requires
        pair_glyph(first, second, config) is Some,
        before.len() > 0 ==> pair_glyph(before.last(), first, config) is None,
    ensures
        transcription(before + seq![first, second] + after, config) == transcription(
            before,
            config,
        ) + seq![pair_glyph(first, second, config)->0] + transcription(after, config),
{
    let tail = seq![first, second] + after;
    assert(tail.skip(2) =~= after);
    assert(before + seq![first, second] + after =~= before + tail);
    lemma_transcription_splits(before, tail, config);
}

/// A character that no rule joins to either of its neighbours contributes its
/// own output wherever it stands.
pub proof fn lemma_single_in_context(
    before: Seq<char>,
    character: char,
    after: Seq<char>,
    config: TranscriptionConfig,
)
    requires
        before.len() > 0 ==> pair_glyph(before.last(), character, config) is None,
        after.len() > 0 ==> pair_glyph(character, after[0], config) is None,
    ensures
        transcription(before + seq![character] + after, config) == transcription(before, config)
            + single_output(character, config) + transcription(after, config),
{
    let tail = seq![character] + after;
    assert(tail.skip(1) =~= after);
    if after.len() == 0 {
        assert(tail =~= seq![character]);
        lemma_transcription_of_one(character, config);
    }
    assert(before + seq![character] + after =~= before + tail);
    lemma_transcription_splits(before, tail, config);
}

/// A digraph is always one glyph: wherever `th`, `ng` or `ea` stands in a text,
/// under any configuration, the runes hold the digraph's glyph there, between the
/// runes of what precedes it and the runes of what follows it.
pub proof fn lemma_digraph_is_one_glyph(
    before: Seq<char>,
    after: Seq<char>,
    config: TranscriptionConfig,
)
    ensures
        transcription(before + seq!['t', 'h'] + after, config) == transcription(before, config)
            + seq![ElderFuthark::THURISAZ] + transcription(after, config),
        transcription(before + seq!['n', 'g'] + after, config) == transcription(before, config)
            + seq![ElderFuthark::INGWAZ] + transcription(after, config),
        transcription(before + seq!['e', 'a'] + after, config) == transcription(before, config)
            + seq![ElderFuthark::EHWAZ] + transcription(after, config),
{
    lemma_pair_in_context(before, 't', 'h', after, config);
    lemma_pair_in_context(before, 'n', 'g', after, config);
    lemma_pair_in_context(before, 'e', 'a', after, config);
}

/// An `x` always expands to two glyphs, KAUNAN and then SOWILO, wherever it
/// stands and under any configuration.
pub proof fn lemma_x_expands(before: Seq<char>, after: Seq<char>, config: TranscriptionConfig)
    ensures
        transcription(before + seq!['x'] + after, config) == transcription(before, config)
            + seq![ElderFuthark::KAUNAN, ElderFuthark::SOWILO] + transcription(after, config),
{
    lemma_single_in_context(before, 'x', after, config);
}

/// An apostrophe or a comma leaves nothing in the runes where punctuation is
/// transcribed, and stands in them unchanged where it is not.
pub proof fn lemma_elided_or_kept(
    before: Seq<char>,
    mark: char,
    after: Seq<char>,
    config: TranscriptionConfig,
)
    requires
        mark == '\'' || mark == ',',
    ensures
        config.transcribe_punctuation ==> transcription(before + seq![mark] + after, config)
            == transcription(before, config) + transcription(after, config),
        !config.transcribe_punctuation ==> transcription(before + seq![mark] + after, config)
            == transcription(before, config) + seq![mark] + transcription(after, config),
{
    lemma_single_in_context(before, mark, after, config);
}

/// Whether any rule speaks of the character: it is `x`, or the table holds it
/// where everything is transcribed.
pub open spec fn has_rule(character: char) -> bool {
    character == 'x' || table_entry(
        character,
        TranscriptionConfig { transcribe_spaces: true, transcribe_punctuation: true },
    ) is Some
}

/// A character of which no rule speaks stands in the runes as it is, wherever it
/// stands in the text and under any configuration.
pub proof fn lemma_unmapped_passes_through(
    before: Seq<char>,
    character: char,
    after: Seq<char>,
    config: TranscriptionConfig,
)
    requires
        !has_rule(character),
    ensures
        transcription(before + seq![character] + after, config) == transcription(before, config)
            + seq![character] + transcription(after, config),
{
    lemma_single_in_context(before, character, after, config);
}

/// A text of whose characters no rule speaks is its own transcription, under any
/// configuration.
pub proof fn lemma_unmapped_text_is_kept(text: Seq<char>, config: TranscriptionConfig)
    requires
        forall|i: int| 0 <= i < text.len() ==> !has_rule(#[trigger] text[i]),
    ensures
        transcription(text, config) == text,
    decreases text.len(),
{
    if text.len() > 0 {
        let rest = text.skip(1);
        lemma_unmapped_text_is_kept(rest, config);
        assert(!has_rule(text[0]));
        if text.len() >= 2 {
            assert(!has_rule(text[1]));
        }
        assert(text =~= seq![text[0]] + rest);
    }
}

} // verus!
