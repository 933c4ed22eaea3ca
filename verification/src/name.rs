//! Names, apart from where they stand in a file.

use vstd::prelude::*;
use vstd::string::StringExecFns;
use crate::ast::{AstNode, Name as AstName, NameRef, first_token_text};

verus! {

/// A name in the intermediate representation: the text of an identifier,
/// apart from where in a file it stood.
#[derive(Debug, Clone, PartialEq, Eq, Hash)]
pub struct Name {
    text: String,
}

impl View for Name {
    type V = Seq<char>;

    closed spec fn view(&self) -> Seq<char> {
        self.text@
    }
}

impl Name {
    /// The name with the given text.
    pub fn new(text: String) -> (r: Name)
        ensures
            r@ == text@,
    {
        Name { text }
    }

    /// The name that stands in for a name that the source lacks.
    pub fn missing() -> (r: Name)
        ensures
            r@ == "[missing name]"@,
    {
        Name { text: String::from_str("[missing name]") }
    }

    /// The name of the `self` parameter.
    pub fn self_param() -> (r: Name)
        ensures
            r@ == "self"@,
    {
        Name { text: String::from_str("self") }
    }

    /// The name of the field of a tuple at position `idx`: the decimal
    /// digits of the position.
    pub fn tuple_field_name(idx: usize) -> (r: Name)
        ensures
            r@ == crate::text::spec_decimal(idx as nat),
    {
        Name { text: crate::text::usize_to_string(idx) }
    }

    /// The text of the name.
    pub fn text(&self) -> (r: &String)
        ensures
            r@ == self@,
    {
        &self.text
    }

    /// The name that a name reference of the syntax tree holds.
    pub fn from_name_ref(name_ref: NameRef) -> (r: Name)
        requires
            name_ref.wf(),
        ensures
            r@ == first_token_text(name_ref.node().tree()@, name_ref.node().index()),
    {
        Name { text: name_ref.text() }
    }

    /// The name that a name of the syntax tree holds.
    pub fn from_name(name: AstName) -> (r: Name)
        requires
            name.wf(),
        ensures
            r@ == first_token_text(name.node().tree()@, name.node().index()),
    {
        Name { text: name.text() }
    }
}

} // verus!
