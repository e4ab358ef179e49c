use rune_converter::runes::ElderFuthark;
use rune_converter::transcription::{Transcriber, TranscriptionConfig};

fn runes(text: &str, spaces: bool, punctuation: bool) -> String {
    ElderFuthark::new(TranscriptionConfig {
        transcribe_spaces: spaces,
        transcribe_punctuation: punctuation,
    })
    .transcribe(text)
}

fn all_configs() -> Vec<(bool, bool)> {
    vec![(false, false), (false, true), (true, false), (true, true)]
}

fn samples() -> Vec<&'static str> {
    vec![
        "",
        "At hyggjandi sinni skylit maðr; hrœsinn vera heldr gætinn at geði",
        "The thing is, it's an axe. Bring it: now; or never",
        "Earth, Wind & Fire 1970",
        "tthh nngg eeaa xx",
        " . : ; ' , ",
        "a.b:c;d'e,f",
        "ᚠ᛫᛬᛭ and \0",
    ]
}

fn is_punctuation(character: char) -> bool {
    matches!(character, '.' | ':' | ';' | '\'' | ',' | '᛭' | '᛬')
}

#[test]
fn test_same_call_same_runes() {
    for (spaces, punctuation) in all_configs() {
        for text in samples() {
            let futhark = ElderFuthark::new(TranscriptionConfig {
                transcribe_spaces: spaces,
                transcribe_punctuation: punctuation,
            });
            let first = futhark.transcribe(text);
            assert_eq!(futhark.transcribe(text), first);
            assert_eq!(runes(text, spaces, punctuation), first);
        }
    }
}

#[test]
fn test_case_is_ignored() {
    for (spaces, punctuation) in all_configs() {
        for text in samples() {
            let lower = text.to_lowercase();
            let upper = text.to_uppercase();
            assert_eq!(runes(text, spaces, punctuation), runes(&lower, spaces, punctuation));
            if upper.to_lowercase() == lower {
                assert_eq!(runes(&upper, spaces, punctuation), runes(&lower, spaces, punctuation));
            }
        }
        assert_eq!(runes("ThE tHiNg", spaces, punctuation), runes("the thing", spaces, punctuation));
    }
}

#[test]
fn test_cut_before_a_character_that_ends_no_pair() {
    for (spaces, punctuation) in all_configs() {
        let whole = runes("earth and fire", spaces, punctuation);
        let parts = runes("earth and ", spaces, punctuation) + &runes("fire", spaces, punctuation);
        assert_eq!(whole, parts);
        // Cut inside a digraph, the halves are read one by one.
        let halves = runes("t", spaces, punctuation) + &runes("h", spaces, punctuation);
        assert_ne!(runes("th", spaces, punctuation), halves);
        assert_eq!(halves, "ᛏᚺ");
    }
}

#[test]
fn test_digraph_in_any_context() {
    for (spaces, punctuation) in all_configs() {
        for before in ["", "t", "n", "e", "a. ", "x", "1"] {
            for after in ["", "h", "g", "a", " b", "x."] {
                let front = runes(before, spaces, punctuation);
                let back = runes(after, spaces, punctuation);
                for (digraph, glyph) in [("th", 'ᚦ'), ("ng", 'ᛜ'), ("ea", 'ᛖ')] {
                    let text = format!("{}{}{}", before, digraph, after);
                    let expected = format!("{}{}{}", front, glyph, back);
                    assert_eq!(runes(&text, spaces, punctuation), expected);
                }
                let text = format!("{}x{}", before, after);
                let expected = format!("{}ᚲᛊ{}", front, back);
                assert_eq!(runes(&text, spaces, punctuation), expected);
            }
        }
    }
}

#[test]
fn test_unmapped_character_in_any_context() {
    for (spaces, punctuation) in all_configs() {
        for before in ["", "t", "a. ", "e"] {
            for after in ["", "h", " b", "a"] {
                for kept in ['1', '\n', 'ü', '!'] {
                    let text = format!("{}{}{}", before, kept, after);
                    let expected = format!(
                        "{}{}{}",
                        runes(before, spaces, punctuation),
                        kept,
                        runes(after, spaces, punctuation)
                    );
                    assert_eq!(runes(&text, spaces, punctuation), expected);
                }
            }
        }
    }
}

#[test]
fn test_elided_mark_in_any_context() {
    for spaces in [false, true] {
        for before in ["", "t", "it", "a. "] {
            for after in ["", "s", " b", "h"] {
                for mark in ['\'', ','] {
                    let text = format!("{}{}{}", before, mark, after);
                    let elided =
                        format!("{}{}", runes(before, spaces, true), runes(after, spaces, true));
                    assert_eq!(runes(&text, spaces, true), elided);
                    let kept = format!(
                        "{}{}{}",
                        runes(before, spaces, false),
                        mark,
                        runes(after, spaces, false)
                    );
                    assert_eq!(runes(&text, spaces, false), kept);
                }
            }
        }
    }
}

#[test]
fn test_spaces_change_only_spaces() {
    for punctuation in [false, true] {
        for text in samples() {
            let separated: Vec<char> = runes(text, true, punctuation).chars().collect();
            let spaced: Vec<char> = runes(text, false, punctuation).chars().collect();
            assert_eq!(separated.len(), spaced.len());
            for (with_separator, with_space) in separated.iter().zip(spaced.iter()) {
                assert!(
                    with_separator == with_space || (*with_separator == '᛫' && *with_space == ' ')
                );
            }
        }
    }
    assert_eq!(runes("a b ᛫", true, false), "ᚨ᛫ᛒ᛫᛫");
    assert_eq!(runes("a b ᛫", false, false), "ᚨ ᛒ ᛫");
}

#[test]
fn test_punctuation_changes_only_punctuation() {
    for spaces in [false, true] {
        for text in ["it's a.b:c;d,e", "one,two", "at geði", "a .b", "x'th,ng.ea"] {
            let on: String =
                runes(text, spaces, true).chars().filter(|c| !is_punctuation(*c)).collect();
            let off: String =
                runes(text, spaces, false).chars().filter(|c| !is_punctuation(*c)).collect();
            assert_eq!(on, off);
        }
    }
    assert_eq!(runes("it's a.b", true, true), "ᛁᛏᛊ᛫ᚨ᛭ᛒ");
    assert_eq!(runes("it's a.b", true, false), "ᛁᛏ'ᛊ᛫ᚨ.ᛒ");
}

#[test]
fn test_punctuation_changes_no_letters() {
    let is_space = |c: char| c == ' ' || c == '᛫';
    for spaces in [false, true] {
        for text in samples() {
            let on: String = runes(text, spaces, true)
                .chars()
                .filter(|c| !is_punctuation(*c) && !is_space(*c))
                .collect();
            let off: String = runes(text, spaces, false)
                .chars()
                .filter(|c| !is_punctuation(*c) && !is_space(*c))
                .collect();
            assert_eq!(on, off);
        }
    }
    // A mark takes the space behind it along, so the spaces themselves differ.
    assert_eq!(runes("a. b", false, true), "ᚨ᛭ᛒ");
    assert_eq!(runes("a. b", false, false), "ᚨ. ᛒ");
}
