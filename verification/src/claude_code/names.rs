//! The names that the product and its models go by, spelled from the name of
//! the dialect.
use crate::text::{chars_of, concat3, text_range};
use vstd::prelude::*;
use vstd::string::*;

verus! {

/// The name of the dialect: that of the family of models, an underscore, and
/// that of the product.
pub const DIALECT_NAME: &'static str = "claude_code";

/// The name of the family of models in small letters.
pub open spec fn family_name() -> Seq<char> {
    DIALECT_NAME@.take(6)
}

/// The name of the family of models with a capital letter.
pub open spec fn family_title() -> Seq<char> {
    seq!['C'] + DIALECT_NAME@.subrange(1, 6)
}

/// A text that the small name stands in.
pub open spec fn in_small(before: Seq<char>, behind: Seq<char>) -> Seq<char> {
    before + family_name() + behind
}

/// A text that the name with a capital letter stands in.
pub open spec fn in_title(before: Seq<char>, behind: Seq<char>) -> Seq<char> {
    before + family_title() + behind
}

/// The name of the family of models in small letters.
pub fn family() -> (name: String)
    ensures
        name@ == family_name(),
{
    proof {
        reveal_name();
    }
    let chars = chars_of(DIALECT_NAME);
    assert(chars@.subrange(0, 6) =~= family_name());
    text_range(&chars, 0, 6)
}

/// The name of the family of models with a capital letter.
pub fn title() -> (name: String)
    ensures
        name@ == family_title(),
{
    proof {
        reveal_name();
    }
    let chars = chars_of(DIALECT_NAME);
    let mut name: String = String::new();
    name.push('C');
    assert(name@ =~= seq!['C']);
    name.append(&text_range(&chars, 1, 6));
    name
}

/// A text that the small name stands in.
pub fn spell_small(before: &str, behind: &str) -> (text: String)
    ensures
        text@ == in_small(before@, behind@),
{
    concat3(before, &family(), behind)
}

/// A text that the name with a capital letter stands in.
pub fn spell_title(before: &str, behind: &str) -> (text: String)
    ensures
        text@ == in_title(before@, behind@),
{
    concat3(before, &title(), behind)
}

proof fn reveal_name()
    ensures
        DIALECT_NAME@.len() == 11,
{
    reveal_strlit("claude_code");
}

} // verus!
