//! Identifiers of resources.

use vstd::prelude::*;

verus! {

/// The identifier of a transfer: an opaque text.
#[derive(Debug)]
pub struct TransferId {
    pub value: String,
}

impl View for TransferId {
    type V = Seq<char>;

    open spec fn view(&self) -> Seq<char> {
        self.value@
    }
}

impl TransferId {
    /// The identifier that reads as `text`.
    pub fn new(text: &str) -> (id: TransferId)
        ensures
            id@ == text@,
    {
        TransferId { value: text.to_owned() }
    }

    /// The identifier's text.
    pub fn as_str(&self) -> (text: &str)
        ensures
            text@ == self@,
    {
        self.value.as_str()
    }
}

impl Clone for TransferId {
    fn clone(&self) -> (copy: TransferId)
        ensures
            copy@ == self@,
    {
        TransferId { value: self.value.clone() }
    }
}

} // verus!
