//! Texts that come in over a link.

use vstd::prelude::*;
use vstd::utf8::{decode_utf8, encode_utf8, valid_utf8};

verus! {

/// The longest name of a tune, in bytes.
pub const TUNE_NAME_LEN: usize = 32;

/// `heapless::String`: a text of at most `N` bytes.
#[verifier::external_type_specification]
#[verifier::external_body]
pub struct ExBoundedString<const N: usize>(heapless::String<N>);

/// The name of a tune.
pub type TuneName = heapless::String<32>;

/// The text that the bounded string holds.
pub uninterp spec fn name_text(name: heapless::String<32>) -> Seq<char>;

/// `heapless::String::try_from`: a copy of the text, where its bytes fit.
#[verifier::external_body]
pub(crate) fn to_name(text: &str) -> (name: Option<TuneName>)
    ensures
        match name {
            Some(name) => name_text(name) == text@ && encode_utf8(text@).len() <= TUNE_NAME_LEN,
            None => encode_utf8(text@).len() > TUNE_NAME_LEN,
        },
{
    heapless::String::try_from(text).ok()
}

/// `heapless::String::as_str`: the text.
#[verifier::external_body]
pub(crate) fn name_str(name: &TuneName) -> (text: &str)
    ensures
        text@ == name_text(*name),
{
    name.as_str()
}

/// `core::str::from_utf8`: the bytes as text, where they are UTF-8.
#[verifier::external_body]
pub(crate) fn utf8_text(bytes: &[u8]) -> (text: Option<&str>)
    ensures
        match text {
            Some(text) => valid_utf8(bytes@) && text@ == decode_utf8(bytes@),
            None => !valid_utf8(bytes@),
        },
{
    core::str::from_utf8(bytes).ok()
}

/// The character is white space: it has the property `White_Space` of Unicode.
pub open spec fn is_white_space(c: char) -> bool {
    let n = c as u32;
    ||| 0x9 <= n <= 0xd
    ||| n == 0x20
    ||| n == 0x85
    ||| n == 0xa0
    ||| n == 0x1680
    ||| 0x2000 <= n <= 0x200a
    ||| 0x2028 <= n <= 0x2029
    ||| n == 0x202f
    ||| n == 0x205f
    ||| n == 0x3000
}

/// The text without white space at its start.
pub open spec fn trimmed_start(text: Seq<char>) -> Seq<char>
    decreases text.len(),
{
    if text.len() > 0 && is_white_space(text[0]) {
        trimmed_start(text.drop_first())
    } else {
        text
    }
}

/// The text without white space at its end.
pub open spec fn trimmed_end(text: Seq<char>) -> Seq<char>
    decreases text.len(),
{
    if text.len() > 0 && is_white_space(text.last()) {
        trimmed_end(text.drop_last())
    } else {
        text
    }
}

/// The text without white space at its ends.
pub open spec fn trimmed(text: Seq<char>) -> Seq<char> {
    trimmed_end(trimmed_start(text))
}

/// `str::trim`: the text without white space at its ends, which is what Unicode takes for such.
#[verifier::external_body]
pub(crate) fn trim(text: &str) -> (rest: &str)
    ensures
        rest@ == trimmed(text@),
{
    text.trim()
}

/// The number of the character, with an ASCII capital taken as its small letter.
pub open spec fn folded(c: char) -> u32 {
    let n = c as u32;
    if 65 <= n <= 90 {
        (n + 32) as u32
    } else {
        n
    }
}

/// The texts are the same but for the case of ASCII letters.
pub open spec fn same_ignoring_case(a: Seq<char>, b: Seq<char>) -> bool {
    &&& a.len() == b.len()
    &&& forall|i: int| 0 <= i < a.len() ==> folded(#[trigger] a[i]) == folded(b[i])
}

/// `str::eq_ignore_ascii_case`: whether the texts are the same but for the case of ASCII letters.
#[verifier::external_body]
pub(crate) fn eq_ignore_ascii_case(a: &str, b: &str) -> (same: bool)
    ensures
        same == same_ignoring_case(a@, b@),
{
    a.eq_ignore_ascii_case(b)
}

} // verus!
