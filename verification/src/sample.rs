//! The sample entity and the events that change the set of stored samples.

use crate::id::SampleId;
use vstd::prelude::*;

verus! {

/// A stored sample.
#[derive(Debug, PartialEq, Eq)]
pub struct Sample {
    pub id: SampleId,
    pub name: String,
    pub email: String,
    pub age: i16,
}

/// Asks the repository to store a new sample; the repository picks its id.
#[derive(Debug, PartialEq, Eq)]
pub struct CreateSample {
    pub name: String,
    pub email: String,
    pub age: i16,
}

/// Asks the repository to replace the fields of the sample with `id`.
#[derive(Debug, PartialEq, Eq)]
pub struct UpdateSample {
    pub id: SampleId,
    pub name: String,
    pub email: String,
    pub age: i16,
}

/// Asks the repository to remove the sample with `id`.
#[derive(Debug, PartialEq, Eq)]
pub struct DeleteSample {
    pub id: SampleId,
}

} // verus!
