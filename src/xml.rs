//! Writing request bodies: escaping of text and attribute values.

use vstd::prelude::*;

verus! {

/// The entity that stands for a character in XML text, or the character.
pub open spec fn escape_char(c: char) -> Seq<char> {
    if c == '<' {
        "&lt;"@
    } else if c == '>' {
        "&gt;"@
    } else if c == '&' {
        "&amp;"@
    } else if c == '\'' {
        "&apos;"@
    } else if c == '"' {
        "&quot;"@
    } else {
        seq![c]
    }
}

/// A text with each special character replaced by its entity.
pub open spec fn spec_escape(s: Seq<char>) -> Seq<char>
    decreases s.len(),
{
    if s.len() == 0 {
        Seq::empty()
    } else {
        spec_escape(s.drop_last()) + escape_char(s.last())
    }
}

/// Relies on quick_xml::escape::escape: replaces `<`, `>`, `&`, `'` and `"`
/// by their entities and keeps every other character.
#[verifier::external_body]
pub(crate) fn escape(s: &str) -> (r: String)
    ensures
        r@ == spec_escape(s@),
{
    quick_xml::escape::escape(s).into_owned()
}

} // verus!
