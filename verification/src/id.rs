//! Identifier of a stored sample.

use vstd::prelude::*;

verus! {

/// The database key of a sample.
#[derive(Debug, Clone, Copy, PartialEq, Eq, Structural, Hash)]
pub struct SampleId(i64);

impl View for SampleId {
    type V = i64;

    closed spec fn view(&self) -> i64 {
        self.0
    }
}

impl SampleId {
    /// Wraps a raw key.
    pub fn new(id: i64) -> (r: Self)
        ensures
            r@ == id,
    {
        SampleId(id)
    }

    /// The raw key.
    pub fn get(&self) -> (r: i64)
        ensures
            r == self@,
    {
        self.0
    }

    /// Two identifiers with the same key are the same identifier.
    pub proof fn lemma_view_injective(a: SampleId, b: SampleId)
        ensures
            a@ == b@ <==> a == b,
    {
    }
}

impl From<i64> for SampleId {
    fn from(value: i64) -> (r: Self)
        ensures
            r@ == value,
    {
        SampleId(value)
    }
}

impl vstd::std_specs::convert::FromSpecImpl<i64> for SampleId {
    open spec fn obeys_from_spec() -> bool {
        true
    }

    closed spec fn from_spec(v: i64) -> SampleId {
        SampleId(v)
    }
}

} // verus!
