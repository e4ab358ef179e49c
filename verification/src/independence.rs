//! How far the two options of a configuration are independent of each other.

use vstd::prelude::*;
use crate::runes::{pair_glyph, single_output, transcription, ElderFuthark};
use crate::transcription::TranscriptionConfig;

verus! {

/// Two sequences of runes that are alike but for their spaces: of equal length,
/// and at each place either equal, or the word separator in the first and a
/// space in the second.
pub open spec fn alike_but_for_spaces(separated: Seq<char>, spaced: Seq<char>) -> bool {
    &&& separated.len() == spaced.len()
    &&& forall|i: int|
        0 <= i < separated.len() ==> #[trigger] separated[i] == spaced[i] || (separated[i]
            == ElderFuthark::SINGLE_PUNCTUATION && spaced[i] == ' ')
}

/// Whether the character is a punctuation mark that the table speaks of, or one
/// of the two glyphs that stand for such marks.
pub open spec fn is_punctuation(character: char) -> bool {
    ||| character == '.'
    ||| character == ':'
    ||| character == ';'
    ||| character == '\''
    ||| character == ','
    ||| character == ElderFuthark::CROSS
    ||| character == ElderFuthark::DOUBLE_PUNCTUATION
}

/// Whether the character is a space or the word separator.
pub open spec fn is_space(character: char) -> bool {
    character == ' ' || character == ElderFuthark::SINGLE_PUNCTUATION
}

/// The runes without their punctuation, marks and glyphs alike.
pub open spec fn without_punctuation(runes: Seq<char>) -> Seq<char> {
    runes.filter(|character: char| !is_punctuation(character))
}

/// The runes without their punctuation, spaces and word separators.
pub open spec fn without_punctuation_and_spaces(runes: Seq<char>) -> Seq<char> {
    runes.filter(|character: char| !is_punctuation(character) && !is_space(character))
}

/// Whether a full stop, a colon or a semicolon stands directly before a space
/// somewhere in the text.
pub open spec fn has_stop_before_space(text: Seq<char>) -> bool {
    exists|i: int|
        0 <= i && i + 1 < text.len() && (#[trigger] text[i] == '.' || text[i] == ':' || text[i]
            == ';') && text[i + 1] == ' '
}

/// Whether spaces are transcribed changes nothing but the spaces: under two
/// configurations that differ in `transcribe_spaces` alone, the runes of a text
/// are alike but for their spaces.
pub proof fn lemma_spaces_change_only_spaces(
    text: Seq<char>,
    separated: TranscriptionConfig,
    spaced: TranscriptionConfig,
)
    requires
        separated.transcribe_spaces,
        !spaced.transcribe_spaces,
        separated.transcribe_punctuation == spaced.transcribe_punctuation,
    ensures
        alike_but_for_spaces(transcription(text, separated), transcription(text, spaced)),
    decreases text.len(),
{
    if text.len() > 0 {
        let step: int = if text.len() >= 2 && pair_glyph(text[0], text[1], separated) is Some {
            2
        } else {
            1
        };
        lemma_spaces_change_only_spaces(text.skip(step), separated, spaced);
    }
}

/// Whether punctuation is transcribed changes nothing but the punctuation, in a
/// text where no full stop, colon or semicolon stands directly before a space:
/// under two configurations that differ in `transcribe_punctuation` alone, the
/// runes of such a text are the same once their punctuation is taken out.
pub proof fn lemma_punctuation_changes_only_punctuation(
    text: Seq<char>,
    marked: TranscriptionConfig,
    plain: TranscriptionConfig,
)
    requires
        marked.transcribe_punctuation,
        !plain.transcribe_punctuation,
        marked.transcribe_spaces == plain.transcribe_spaces,
        !has_stop_before_space(text),
    ensures
        without_punctuation(transcription(text, marked)) == without_punctuation(
            transcription(text, plain),
        ),
    decreases text.len(),
{
    if text.len() > 0 {
        if text.len() >= 2 {
            assert(!((text[0] == '.' || text[0] == ':' || text[0] == ';') && text[0int + 1]
                == ' '));
        }
        let step: int = if text.len() >= 2 && pair_glyph(text[0], text[1], marked) is Some {
            2
        } else {
            1
        };
        let rest = text.skip(step);
        assert(!has_stop_before_space(rest)) by {
            if has_stop_before_space(rest) {
                let i = choose|i: int|
                    0 <= i && i + 1 < rest.len() && (#[trigger] rest[i] == '.' || rest[i] == ':'
                        || rest[i] == ';') && rest[i + 1] == ' ';
                assert(text[i + step] == rest[i]);
                assert(text[i + step + 1] == rest[i + 1]);
            }
        }
        lemma_punctuation_changes_only_punctuation(rest, marked, plain);
        let head_marked = if step == 2 {
            seq![pair_glyph(text[0], text[1], marked)->0]
        } else {
            single_output(text[0], marked)
        };
        let head_plain = if step == 2 {
            seq![pair_glyph(text[0], text[1], plain)->0]
        } else {
            single_output(text[0], plain)
        };
        let kept = |character: char| !is_punctuation(character);
        assert(head_marked.filter(kept) == head_plain.filter(kept)) by {
            lemma_filter_of_short(head_marked, kept);
            lemma_filter_of_short(head_plain, kept);
        }
        Seq::filter_distributes_over_add(head_marked, transcription(rest, marked), kept);
        Seq::filter_distributes_over_add(head_plain, transcription(rest, plain), kept);
    }
}

/// In any text, whether punctuation is transcribed changes nothing but the
/// punctuation and the spaces: a space may go with the mark before it, and every
/// other character gives the same runes either way.
pub proof fn lemma_punctuation_changes_no_letters(
    text: Seq<char>,
    marked: TranscriptionConfig,
    plain: TranscriptionConfig,
)
    requires
        marked.transcribe_punctuation,
        !plain.transcribe_punctuation,
        marked.transcribe_spaces == plain.transcribe_spaces,
    ensures
        without_punctuation_and_spaces(transcription(text, marked))
            == without_punctuation_and_spaces(transcription(text, plain)),
    decreases text.len(),
{
    if text.len() > 0 {
        let joined = text.len() >= 2 && pair_glyph(text[0], text[1], marked) is Some;
        let rest = if joined {
            text.skip(2)
        } else {
            text.skip(1)
        };
        lemma_punctuation_changes_no_letters(rest, marked, plain);
        let head_marked = if joined {
            seq![pair_glyph(text[0], text[1], marked)->0]
        } else {
            single_output(text[0], marked)
        };
        let head_plain = if joined && pair_glyph(text[0], text[1], plain) is None {
            single_output(text[0], plain) + single_output(text[1], plain)
        } else if joined {
            seq![pair_glyph(text[0], text[1], plain)->0]
        } else {
            single_output(text[0], plain)
        };
        assert(transcription(text, plain) == head_plain + transcription(rest, plain)) by {
            if joined && pair_glyph(text[0], text[1], plain) is None {
                // Without punctuation the mark and the space are read in two steps.
                let middle = text.skip(1);
                assert(middle[0] == ' ');
                assert(middle.skip(1) =~= rest);
                assert(transcription(middle, plain) == single_output(' ', plain)
                    + transcription(rest, plain));
            }
        }
        assert(without_punctuation_and_spaces(head_marked) == without_punctuation_and_spaces(
            head_plain,
        )) by {
            if joined {
                lemma_joined_letters(text[0], text[1], marked, plain);
            } else {
                lemma_single_letters(text[0], marked, plain);
            }
        }
        lemma_letters_of_concatenation(head_marked, transcription(rest, marked));
        lemma_letters_of_concatenation(head_plain, transcription(rest, plain));
    }
}

/// Taking out punctuation and spaces distributes over concatenation.
proof fn lemma_letters_of_concatenation(left: Seq<char>, right: Seq<char>)
    ensures
        without_punctuation_and_spaces(left + right) == without_punctuation_and_spaces(left)
            + without_punctuation_and_spaces(right),
{
    Seq::filter_distributes_over_add(
        left,
        right,
        |character: char| !is_punctuation(character) && !is_space(character),
    );
}

/// One character alone gives the same letters with and without punctuation.
proof fn lemma_single_letters(
    character: char,
    marked: TranscriptionConfig,
    plain: TranscriptionConfig,
)
    requires
        marked.transcribe_punctuation,
        !plain.transcribe_punctuation,
        marked.transcribe_spaces == plain.transcribe_spaces,
    ensures
        without_punctuation_and_spaces(single_output(character, marked))
            == without_punctuation_and_spaces(single_output(character, plain)),
{
    let kept = |character: char| !is_punctuation(character) && !is_space(character);
    lemma_filter_of_short(single_output(character, marked), kept);
    lemma_filter_of_short(single_output(character, plain), kept);
}

/// Two characters that a rule joins where punctuation is transcribed give the
/// same letters where it is not, be it by the same rule or one by one.
proof fn lemma_joined_letters(
    first: char,
    second: char,
    marked: TranscriptionConfig,
    plain: TranscriptionConfig,
)
    requires
        marked.transcribe_punctuation,
        !plain.transcribe_punctuation,
        marked.transcribe_spaces == plain.transcribe_spaces,
        pair_glyph(first, second, marked) is Some,
    ensures
        without_punctuation_and_spaces(seq![pair_glyph(first, second, marked)->0])
            == without_punctuation_and_spaces(
            if pair_glyph(first, second, plain) is Some {
                seq![pair_glyph(first, second, plain)->0]
            } else {
                single_output(first, plain) + single_output(second, plain)
            },
        ),
{
    let kept = |character: char| !is_punctuation(character) && !is_space(character);
    lemma_filter_of_short(seq![pair_glyph(first, second, marked)->0], kept);
    if pair_glyph(first, second, plain) is None {
        assert(single_output(first, plain) =~= seq![first]);
        assert(single_output(second, plain).len() == 1);
        lemma_filter_of_short(single_output(first, plain) + single_output(second, plain), kept);
    }
}

/// What a filter keeps of a sequence of at most two items.
proof fn lemma_filter_of_short(items: Seq<char>, kept: spec_fn(char) -> bool)
    requires
        items.len() <= 2,
    ensures
        items.len() == 0 ==> items.filter(kept) == Seq::<char>::empty(),
        items.len() == 1 ==> items.filter(kept) == if kept(items[0]) {
            seq![items[0]]
        } else {
            Seq::<char>::empty()
        },
        items.len() == 2 ==> items.filter(kept) == (if kept(items[0]) {
            seq![items[0]]
        } else {
            Seq::<char>::empty()
        }) + (if kept(items[1]) {
            seq![items[1]]
        } else {
            Seq::<char>::empty()
        }),
{
    reveal_with_fuel(Seq::filter, 3);
    if items.len() == 1 {
        assert(items.drop_last() =~= Seq::<char>::empty());
    } else if items.len() == 2 {
        assert(items.drop_last() =~= seq![items[0]]);
        assert(items.drop_last().drop_last() =~= Seq::<char>::empty());
    }
}

} // verus!
