//! Small operations on text that the rest of the crate is built from.

use vstd::prelude::*;
use vstd::string::*;

verus! {

/// The text that `{:?}` prints for a string: the string between double
/// quotes, with the characters that need it escaped.
pub uninterp spec fn debug_quoted(text: Seq<char>) -> Seq<char>;

/// Formats a string with `{:?}`, that is through `<str as Debug>::fmt`.
///
/// Trusted: the result is the text that std's formatter prints for `text`,
/// which depends on the characters of `text` alone.
#[verifier::external_body]
pub(crate) fn quote(text: &str) -> (quoted: String)
    ensures
        quoted@ == debug_quoted(text@),
{
    format!("{:?}", text)
}

/// Formats a value with `{:?}`, that is through its `Debug::fmt`.
///
/// Trusted: nothing is claimed of the text that comes back.
#[verifier::external_body]
pub(crate) fn debug_text<E: core::fmt::Debug>(value: &E) -> String {
    format!("{:?}", value)
}

/// Whether `needle` stands in `hay` from index `at` on.
pub open spec fn occurs_at(hay: Seq<char>, needle: Seq<char>, at: int) -> bool {
    &&& 0 <= at
    &&& at + needle.len() <= hay.len()
    &&& hay.subrange(at, at + needle.len()) == needle
}

/// Whether `needle` stands somewhere in `hay`.
pub open spec fn occurs_in(hay: Seq<char>, needle: Seq<char>) -> bool {
    exists|at: int| occurs_at(hay, needle, at)
}

/// `first` followed by `second`.
pub fn join(first: &str, second: &str) -> (joined: String)
    ensures
        joined@ == first@ + second@,
{
    let mut joined = String::from_str(first);
    joined.append(second);
    joined
}

/// `text` without the run of `mark` that it ends in, if it ends in one.
pub open spec fn trim_end(text: Seq<char>, mark: char) -> Seq<char>
    decreases text.len(),
{
    if text.len() > 0 && text.last() == mark {
        trim_end(text.drop_last(), mark)
    } else {
        text
    }
}

/// What is left of a trimmed text is the beginning of the text, does not end
/// in the mark, and is followed in the text by marks alone.
pub proof fn lemma_trim_end(text: Seq<char>, mark: char)
    ensures
        trim_end(text, mark).len() <= text.len(),
        trim_end(text, mark) == text.subrange(0, trim_end(text, mark).len() as int),
        trim_end(text, mark).len() > 0 ==> trim_end(text, mark).last() != mark,
        forall|i: int| trim_end(text, mark).len() <= i < text.len() ==> text[i] == mark,
    decreases text.len(),
{
    if text.len() > 0 && text.last() == mark {
        lemma_trim_end(text.drop_last(), mark);
        let kept = trim_end(text, mark);
        assert(kept =~= text.subrange(0, kept.len() as int));
        assert forall|i: int| kept.len() <= i < text.len() implies text[i] == mark by {
            if i < text.len() - 1 {
                assert(text.drop_last()[i] == mark);
            }
        }
    } else {
        assert(text =~= text.subrange(0, text.len() as int));
    }
}

/// The part of `text` before the run of `mark` that `text` ends in.
pub fn trim_end_matches(text: &str, mark: char) -> (kept: &str)
    ensures
        kept@ == trim_end(text@, mark),
{
    let mut end: usize = text.unicode_len();
    assert(text@.subrange(0, end as int) =~= text@);
    while end > 0 && text.get_char(end - 1) == mark
        invariant
            end <= text@.len(),
            trim_end(text@, mark) == trim_end(text@.subrange(0, end as int), mark),
        decreases end,
    {
        assert(text@.subrange(0, end as int).drop_last() =~= text@.subrange(0, end - 1));
        end = end - 1;
    }
    text.substring_char(0, end)
}

} // verus!
