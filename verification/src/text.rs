//! Text matching: a filter text accepts a field when one of its words, case
//! aside, occurs somewhere in the field.

use vstd::prelude::*;

verus! {

/// What `str::to_lowercase` makes of a text.
pub uninterp spec fn lowercase(text: Seq<char>) -> Seq<char>;

/// The words that `str::split_whitespace` finds in a text, in their order.
pub uninterp spec fn whitespace_words(text: Seq<char>) -> Seq<Seq<char>>;

/// Whether `word` stands in `text` from position `at` on.
pub open spec fn occurs_at(word: Seq<char>, text: Seq<char>, at: int) -> bool {
    &&& 0 <= at
    &&& at + word.len() <= text.len()
    &&& text.subrange(at, at + word.len()) == word
}

/// Whether `word` stands somewhere in `text`.
pub open spec fn occurs_in(word: Seq<char>, text: Seq<char>) -> bool {
    exists|at: int| occurs_at(word, text, at)
}

/// Whether one of `words` stands somewhere in `text`.
pub open spec fn any_word_occurs(words: Seq<Seq<char>>, text: Seq<char>) -> bool {
    exists|i: int| 0 <= i < words.len() && occurs_in(#[trigger] words[i], text)
}

/// Whether a filter text accepts a field: both are put in lower case, the
/// filter text is split at white space, and one of its words must stand
/// somewhere in the field. A filter text without a word accepts nothing.
pub open spec fn text_accepts(filter_text: Seq<char>, field: Seq<char>) -> bool {
    any_word_occurs(whitespace_words(lowercase(filter_text)), lowercase(field))
}

/// The texts of a sequence of strings, in the same order.
pub open spec fn texts(strings: Seq<String>) -> Seq<Seq<char>> {
    strings.map_values(|s: String| s@)
}

/// `str::to_lowercase`: the lower-case form of `text`.
#[verifier::external_body]
fn to_lowercase(text: &str) -> (lowered: String)
    ensures
        lowered@ == lowercase(text@),
{
    text.to_lowercase()
}

/// `str::split_whitespace`: the words of `text`, each as a string of its own.
#[verifier::external_body]
fn split_whitespace(text: &str) -> (words: Vec<String>)
    ensures
        texts(words@) == whitespace_words(text@),
{
    text.split_whitespace().map(String::from).collect()
}

/// `str::contains` with a string for its pattern: whether `word` is a
/// substring of `text`.
#[verifier::external_body]
fn contains(text: &str, word: &str) -> (found: bool)
    ensures
        found == occurs_in(word@, text@),
{
    text.contains(word)
}

/// Whether one of `words` stands somewhere in `text`.
pub fn any_word_within(words: &Vec<String>, text: &str) -> (found: bool)
    ensures
        found == any_word_occurs(texts(words@), text@),
{
    let mut i: usize = 0;
    while i < words.len()
        invariant
            i <= words.len(),
            forall|j: int| 0 <= j < i ==> !occurs_in(#[trigger] texts(words@)[j], text@),
        decreases words.len() - i,
    {
        if contains(text, words[i].as_str()) {
            assert(occurs_in(texts(words@)[i as int], text@));
            return true;
        }
        i += 1;
    }
    false
}

/// Whether `filter_text` accepts `field`.
pub fn text_matches(filter_text: &str, field: &str) -> (accepted: bool)
    ensures
        accepted == text_accepts(filter_text@, field@),
{
    let lowered_filter = to_lowercase(filter_text);
    let words = split_whitespace(lowered_filter.as_str());
    let lowered_field = to_lowercase(field);
    any_word_within(&words, lowered_field.as_str())
}

} // verus!
