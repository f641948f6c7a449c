//! The header record and its mathematical view.
use vstd::prelude::*;

verus! {

/// One HTTP header: a name and a value, both text.
///
/// Names are compared without regard to ASCII case wherever a rule looks at
/// them; the record itself keeps the spelling it was given.
#[derive(Debug, Hash, Clone, PartialEq, Eq)]
pub struct Header {
    /// Name of the header.
    pub name: String,
    /// Value of the header.
    pub value: String,
}

/// What a [`Header`] holds, as two sequences of characters.
pub struct HeaderView {
    /// The characters of the name, in the spelling it was given.
    pub name: Seq<char>,
    /// The characters of the value.
    pub value: Seq<char>,
}

impl View for Header {
    type V = HeaderView;

    open spec fn view(&self) -> HeaderView {
        HeaderView { name: self.name@, value: self.value@ }
    }
}

} // verus!
