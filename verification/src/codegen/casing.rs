//! Names in the casing that their place asks for, and whether they are names.

use vstd::prelude::*;

use convert_case::{Case, Casing};
use syn::ext::IdentExt;
use syn::parse::Parser;

verus! {

/// The casings that generated names use.
#[derive(Clone, Copy, PartialEq, Eq, Structural)]
pub enum WordCase {
    /// `OneTwo`, for enum variants.
    Pascal,
    /// `one_two`, for functions and macros.
    Snake,
    /// `ONE_TWO`, for constants.
    Constant,
}

/// `name` in the given casing.
pub uninterp spec fn cased(name: Seq<char>, case: WordCase) -> Seq<char>;

/// `Casing::to_case` of the `convert_case` crate: the words of `name`, joined
/// in the given casing. What the words of a name are is left to that crate;
/// the result depends on the name and the casing alone.
#[verifier::external_body]
pub(crate) fn to_case(name: &str, case: WordCase) -> (text: String)
    ensures
        text@ == cased(name@, case),
{
    name.to_case(match case {
        WordCase::Pascal => Case::Pascal,
        WordCase::Snake => Case::Snake,
        WordCase::Constant => Case::Constant,
    })
}

/// Whether `text` spells one identifier or keyword, raw ones included.
pub uninterp spec fn spells_word(text: Seq<char>) -> bool;

/// `syn::ext::IdentExt::parse_any` on the tokens of `text`: whether it spells one
/// identifier or keyword and nothing else. The answer depends on the text alone.
#[verifier::external_body]
fn is_word(text: &str) -> (found: bool)
    ensures
        found == spells_word(text@),
{
    syn::Ident::parse_any.parse_str(text).is_ok()
}

/// Whether `text` starts like a raw identifier.
pub open spec fn starts_raw(text: Seq<char>) -> bool {
    text.len() >= 2 && text[0] == 'r' && text[1] == '#'
}

/// Whether a generated item can have the name `text`.
pub open spec fn is_name(text: Seq<char>) -> bool {
    spells_word(text) && !starts_raw(text)
}

/// Whether a generated item can have the name `text`.
pub fn can_name(text: &str) -> (found: bool)
    ensures
        found == is_name(text@),
{
    let raw: bool = text.unicode_len() >= 2 && text.get_char(0) == 'r' && text.get_char(1) == '#';
    !raw && is_word(text)
}

} // verus!
