//! Text helpers shared by the rest of the crate: access to the characters of a
//! string, comparison by content, and the two conversions that are taken from
//! the standard library as they are.

use vstd::prelude::*;
use vstd::string::*;

verus! {

/// The lowercase form of a text, as the standard library computes it from the
/// Unicode character tables.
pub uninterp spec fn lowercase_of(text: Seq<char>) -> Seq<char>;

/// The text that lossy UTF-8 decoding gives for a byte sequence: valid parts
/// decoded, invalid parts replaced by U+FFFD.
pub uninterp spec fn lossy_text_of(bytes: Seq<u8>) -> Seq<char>;

/// Calls `str::to_lowercase`. The contract only gives the result its name,
/// `lowercase_of`: the Unicode case mapping is not restated here and nothing
/// is proved about it.
#[verifier::external_body]
pub(crate) fn lowercase(text: &str) -> (lowered: String)
    ensures
        lowered@ == lowercase_of(text@),
{
    text.to_lowercase()
}

/// Calls `String::from_utf8_lossy` and takes ownership of what it returns.
/// The contract only gives the result its name, `lossy_text_of`: the decoding
/// itself is not restated here and nothing is proved about it.
#[verifier::external_body]
pub(crate) fn lossy_text(bytes: &Vec<u8>) -> (text: String)
    ensures
        text@ == lossy_text_of(bytes@),
{
    String::from_utf8_lossy(bytes).into_owned()
}

/// The characters of `text`, in order.
pub fn chars_of(text: &str) -> (chars: Vec<char>)
    ensures
        chars@ == text@,
{
    let mut chars: Vec<char> = Vec::new();
    for c in it: text.chars()
        invariant
            it.seq() == text@,
            chars@ == text@.subrange(0, it.index() as int),
    {
        chars.push(c);
    }
    chars
}

/// Whether two texts hold the same characters.
pub fn same_text(left: &str, right: &str) -> (same: bool)
    ensures
        same == (left@ == right@),
{
    let left_owned = String::from_str(left);
    let right_owned = String::from_str(right);
    left_owned == right_owned
}

/// Whether `text` is one of the items of `list`.
pub fn list_contains(list: &Vec<String>, text: &str) -> (found: bool)
    ensures
        found == list.deep_view().contains(text@),
{
    let mut i: usize = 0;
    while i < list.len()
        invariant
            i <= list.len(),
            forall|k: int| 0 <= k < i ==> list.deep_view()[k] != text@,
        decreases list.len() - i,
    {
        if same_text(list[i].as_str(), text) {
            assert(list.deep_view()[i as int] == text@);
            return true;
        }
        i += 1;
    }
    false
}

/// A copy of a list of texts.
pub fn copy_list(list: &Vec<String>) -> (copy: Vec<String>)
    ensures
        copy.deep_view() == list.deep_view(),
{
    list.clone()
}

/// Appends `text` to `list`.
pub fn push_text(list: &mut Vec<String>, text: String)
    ensures
        final(list).deep_view() == old(list).deep_view().push(text@),
{
    list.push(text);
}

/// A copy of a text that may be absent.
pub fn copy_optional(text: &Option<String>) -> (copy: Option<String>)
    ensures
        copy.deep_view() == text.deep_view(),
{
    match text {
        Some(present) => Some(present.clone()),
        None => None,
    }
}

} // verus!
