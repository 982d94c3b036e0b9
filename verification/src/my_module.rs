//! A struct with one public and one private field.

use vstd::prelude::*;

verus! {

/// Carries one public value; its private flag starts cleared.
pub struct PublicStruct {
    pub field: i32,
    private_field: bool,
}

impl PublicStruct {
    /// The value held in the public field.
    pub closed spec fn spec_field(&self) -> i32 {
        self.field
    }

    /// Whether the private flag has been raised.
    pub closed spec fn spec_flagged(&self) -> bool {
        self.private_field
    }

    /// Wraps the given value; the private flag starts cleared.
    pub fn new(val: i32) -> (r: Self)
        ensures
            r.spec_field() == val,
            !r.spec_flagged(),
    {
        PublicStruct { field: val, private_field: false }
    }
}

} // verus!
