//! Deriving an identifier from the name of a race.
//!
//! The name is put in lower case; of what results only digits, the letters
//! `a` to `z` and `A` to `Z`, and spaces are kept; and the words that the
//! spaces part are joined by hyphens.

use crate::text::{ascii_letter, decimal_digit};
use vstd::prelude::*;
use vstd::string::*;

verus! {

/// The lower-case form of a text, as the standard library computes it from
/// the Unicode character tables.
pub uninterp spec fn lowercase(text: Seq<char>) -> Seq<char>;

/// `str::to_lowercase` returns the lower-case equivalent of the text as a
/// new string. The result depends on the text alone.
#[verifier::external_body]
fn to_lowercase(text: &str) -> (lowered: String)
    ensures
        lowered@ == lowercase(text@),
{
    text.to_lowercase()
}

/// Whether an identifier keeps the character: a digit, a letter of the
/// basic Latin alphabet, or the space that parts two words.
pub open spec fn kept(ch: char) -> bool {
    decimal_digit(ch) || ascii_letter(ch) || ch == ' '
}

/// The words of a text: its longest runs of characters other than the
/// space, in order.
pub open spec fn words(text: Seq<char>) -> Seq<Seq<char>>
    decreases text.len(),
{
    if text.len() == 0 {
        Seq::empty()
    } else if text.last() == ' ' {
        words(text.drop_last())
    } else if text.len() >= 2 && text[text.len() - 2] != ' ' {
        let before = words(text.drop_last());
        before.drop_last().push(before.last().push(text.last()))
    } else {
        words(text.drop_last()).push(seq![text.last()])
    }
}

/// The words, written one after another with a hyphen between each two.
pub open spec fn hyphenated(words: Seq<Seq<char>>) -> Seq<char>
    decreases words.len(),
{
    if words.len() == 0 {
        Seq::empty()
    } else if words.len() == 1 {
        words[0]
    } else {
        hyphenated(words.drop_last()).push('-') + words.last()
    }
}

/// The identifier that a text in lower case gives: the words of what is
/// kept of it, joined by hyphens.
pub open spec fn slug_of(lowered: Seq<char>) -> Seq<char> {
    hyphenated(words(lowered.filter(|ch: char| kept(ch))))
}

/// The identifier derived from the name of a race.
pub open spec fn clean_name_of(name: Seq<char>) -> Seq<char> {
    slug_of(lowercase(name))
}

/// Every word has a character, and a text that does not end in a space
/// has a last word.
proof fn words_are_not_empty(text: Seq<char>)
    ensures
        forall|i: int| 0 <= i < words(text).len() ==> (#[trigger] words(text)[i]).len() > 0,
        text.len() > 0 && text.last() != ' ' ==> words(text).len() > 0,
    decreases text.len(),
{
    if text.len() > 0 {
        words_are_not_empty(text.drop_last());
        if text.last() != ' ' && text.len() >= 2 && text[text.len() - 2] != ' ' {
            assert(text.drop_last().last() == text[text.len() - 2]);
        }
    }
}

/// What is written is empty only if there are no words.
proof fn hyphenated_is_empty_without_words(words: Seq<Seq<char>>)
    requires
        forall|i: int| 0 <= i < words.len() ==> (#[trigger] words[i]).len() > 0,
    ensures
        hyphenated(words).len() == 0 <==> words.len() == 0,
    decreases words.len(),
{
    if words.len() >= 2 {
        hyphenated_is_empty_without_words(words.drop_last());
    }
}

/// A character added to the last word is added to what is written.
proof fn hyphenated_with_longer_last_word(words: Seq<Seq<char>>, ch: char)
    requires
        words.len() > 0,
    ensures
        hyphenated(words.drop_last().push(words.last().push(ch))) == hyphenated(words).push(ch),
{
    let longer = words.drop_last().push(words.last().push(ch));
    assert(longer.last() == words.last().push(ch));
    assert(longer.drop_last() =~= words.drop_last());
    if words.len() == 1 {
        assert(longer[0] == words[0].push(ch));
    } else {
        assert(hyphenated(words.drop_last()).push('-') + words.last().push(ch) =~= (hyphenated(
            words.drop_last(),
        ).push('-') + words.last()).push(ch));
    }
}

/// A word added behind the others is written behind a hyphen, or alone
/// where it is the first.
proof fn hyphenated_with_new_word(words: Seq<Seq<char>>, ch: char)
    ensures
        hyphenated(words.push(seq![ch])) == if words.len() == 0 {
            seq![ch]
        } else {
            hyphenated(words).push('-').push(ch)
        },
{
    let longer = words.push(seq![ch]);
    assert(longer.last() == seq![ch]);
    assert(longer.drop_last() =~= words);
    if words.len() == 0 {
        assert(longer[0] == seq![ch]);
    } else {
        assert(hyphenated(words).push('-') + seq![ch] =~= hyphenated(words).push('-').push(ch));
    }
}

fn keeps(ch: char) -> (keep: bool)
    ensures
        keep == kept(ch),
{
    (ch >= '0' && ch <= '9') || (ch >= 'a' && ch <= 'z') || (ch >= 'A' && ch <= 'Z') || ch == ' '
}

/// Derives the identifier from a text that is already in lower case: drops
/// what an identifier does not keep and joins the words by hyphens.
pub fn slug(lowered: &str) -> (id: String)
    ensures
        id@ == slug_of(lowered@),
{
    let ghost keep = |ch: char| kept(ch);
    let mut id = String::new();
    // Whether a space was kept since the last character that was written.
    let mut parted = false;
    proof {
        reveal(Seq::filter);
        assert(lowered@.take(0) =~= Seq::<char>::empty());
    }
    for ch in it: lowered.chars()
        invariant
            it.seq() == lowered@,
            keep == |ch: char| kept(ch),
            id@ == hyphenated(words(lowered@.take(it.index() as int).filter(keep))),
            parted == ({
                let seen = lowered@.take(it.index() as int).filter(keep);
                seen.len() > 0 && seen.last() == ' '
            }),
    {
        let ghost seen = lowered@.take(it.index() as int).filter(keep);
        proof {
            reveal(Seq::filter);
            assert(lowered@.take(it.index() + 1).drop_last() =~= lowered@.take(it.index() as int));
            assert(lowered@.take(it.index() + 1).last() == ch);
        }
        if keeps(ch) {
            let ghost longer = seen.push(ch);
            proof {
                assert(lowered@.take(it.index() + 1).filter(keep) == longer);
                assert(longer.drop_last() =~= seen);
                assert(longer.last() == ch);
                words_are_not_empty(seen);
                hyphenated_is_empty_without_words(words(seen));
            }
            if ch == ' ' {
                parted = true;
            } else {
                proof {
                    if seen.len() > 0 {
                        assert(longer[longer.len() - 2] == seen.last());
                    }
                    if seen.len() > 0 && seen.last() != ' ' {
                        hyphenated_with_longer_last_word(words(seen), ch);
                    } else {
                        hyphenated_with_new_word(words(seen), ch);
                    }
                }
                if parted && !id.as_str().is_empty() {
                    id.push('-');
                }
                id.push(ch);
                parted = false;
            }
        }
    }
    proof {
        assert(lowered@.take(lowered@.len() as int) =~= lowered@);
    }
    id
}

/// Derives the identifier of a race from its name.
pub fn clean_name(name: &str) -> (id: String)
    ensures
        id@ == clean_name_of(name@),
{
    let lowered = to_lowercase(name);
    slug(lowered.as_str())
}

} // verus!
