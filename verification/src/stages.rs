//! Types for stages.

use vstd::prelude::*;

use crate::strutil::{dec_str, u64_to_string};

verus! {

/// Represents a stage ID.
#[derive(Debug, Clone, Copy, PartialEq, Eq, Structural, Hash)]
pub struct StageId {
    id: u32,
}

impl StageId {
    /// The numeric id.
    pub closed spec fn id_spec(&self) -> u32 {
        self.id
    }

    /// The decimal wire rendering of this id.
    pub open spec fn wire_str(self) -> Seq<char> {
        dec_str(self.id_spec() as nat)
    }

    /// Create a new [`StageId`].
    pub fn new(id: u32) -> (r: Self)
        ensures
            r.id_spec() == id,
    {
        StageId { id }
    }

    /// The id rendered in decimal.
    pub fn as_string(&self) -> (r: String)
        ensures
            r@ == self.wire_str(),
    {
        u64_to_string(self.id as u64)
    }
}

} // verus!
