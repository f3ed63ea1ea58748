//! What a client sends to create or change a sample.

use crate::id::SampleId;
use crate::sample::{CreateSample, UpdateSample};
use crate::validation::{
    failing_fields, fields_of, garde_email_accepts, sample_fields_ok, utf16_len, validate_sample_fields, ValidationReport,
};
use vstd::prelude::*;

verus! {

/// The body of a request that creates a sample.
#[derive(Debug, PartialEq, Eq)]
pub struct CreateSampleRequest {
    pub name: String,
    pub email: String,
    pub age: i16,
}

impl CreateSampleRequest {
    /// Whether the request meets the rules on its name, e-mail and age.
    pub open spec fn is_valid(&self) -> bool {
        sample_fields_ok(self.name@, self.email@, self.age)
    }

    /// Checks the request: the name has at most 100 UTF-16 code units, the
    /// e-mail is one that garde accepts, and the age lies in `0..=100`.
    pub fn validate(&self) -> (r: Result<(), ValidationReport>)
        ensures
            r is Ok <==> self.is_valid(),
            r matches Err(report) ==> fields_of(report@) == failing_fields(self.name@, self.email@, self.age)
                && report@.len() > 0,
            self.email@.len() == 0 || !self.email@.contains('@') ==> !self.is_valid(),
    {
        validate_sample_fields(&self.name, &self.email, self.age)
    }
}

impl From<CreateSampleRequest> for CreateSample {
    fn from(value: CreateSampleRequest) -> (r: Self) {
        let CreateSampleRequest { name, email, age } = value;
        Self { name, email, age }
    }
}

impl vstd::std_specs::convert::FromSpecImpl<CreateSampleRequest> for CreateSample {
    open spec fn obeys_from_spec() -> bool {
        true
    }

    open spec fn from_spec(v: CreateSampleRequest) -> CreateSample {
        CreateSample { name: v.name, email: v.email, age: v.age }
    }
}

/// The body of a request that changes a sample; it obeys the same rules as
/// a request that creates one.
#[derive(Debug, PartialEq, Eq)]
pub struct UpdateSampleRequest {
    pub name: String,
    pub email: String,
    pub age: i16,
}

impl UpdateSampleRequest {
    /// Whether the request meets the rules on its name, e-mail and age.
    pub open spec fn is_valid(&self) -> bool {
        sample_fields_ok(self.name@, self.email@, self.age)
    }

    /// Checks the request by the rules of `CreateSampleRequest::validate`.
    pub fn validate(&self) -> (r: Result<(), ValidationReport>)
        ensures
            r is Ok <==> self.is_valid(),
            r matches Err(report) ==> fields_of(report@) == failing_fields(self.name@, self.email@, self.age)
                && report@.len() > 0,
            self.email@.len() == 0 || !self.email@.contains('@') ==> !self.is_valid(),
    {
        validate_sample_fields(&self.name, &self.email, self.age)
    }
}

/// A change request together with the id, taken from the path, of the
/// sample that it changes.
#[derive(Debug, PartialEq, Eq)]
pub struct UpdateSampleRequestWithIds(pub SampleId, pub UpdateSampleRequest);

impl UpdateSampleRequestWithIds {
    /// Pairs the id of the sample with the change requested for it.
    pub fn new(id: SampleId, req: UpdateSampleRequest) -> (r: Self)
        ensures
            r.0 == id,
            r.1 == req,
    {
        UpdateSampleRequestWithIds(id, req)
    }
}

impl From<UpdateSampleRequestWithIds> for UpdateSample {
    fn from(value: UpdateSampleRequestWithIds) -> (r: Self) {
        let UpdateSampleRequestWithIds(id, UpdateSampleRequest { name, email, age }) = value;
        Self { id, name, email, age }
    }
}

impl vstd::std_specs::convert::FromSpecImpl<UpdateSampleRequestWithIds> for UpdateSample {
    open spec fn obeys_from_spec() -> bool {
        true
    }

    open spec fn from_spec(v: UpdateSampleRequestWithIds) -> UpdateSample {
        UpdateSample { id: v.0, name: v.1.name, email: v.1.email, age: v.1.age }
    }
}

/// A create or change request is valid exactly when its name has at most
/// 100 UTF-16 code units, garde accepts its e-mail, and its age lies in
/// `0..=100`; nothing else counts.
pub proof fn lemma_request_validity(c: CreateSampleRequest, u: UpdateSampleRequest)
    ensures
        c.is_valid() <==> (utf16_len(c.name@) <= 100 && garde_email_accepts(c.email@) && 0 <= c.age <= 100),
        u.is_valid() <==> (utf16_len(u.name@) <= 100 && garde_email_accepts(u.email@) && 0 <= u.age <= 100),
{
}

/// A create request becomes the event with the same name, e-mail and age;
/// a change request becomes the event with the path's id and the request's
/// name, e-mail and age, each in its own place.
pub proof fn lemma_events_keep_fields(c: CreateSampleRequest, id: SampleId, u: UpdateSampleRequest)
    ensures
        <CreateSample as vstd::std_specs::convert::FromSpec<CreateSampleRequest>>::from_spec(c) == (CreateSample {
            name: c.name,
            email: c.email,
            age: c.age,
        }),
        <UpdateSample as vstd::std_specs::convert::FromSpec<UpdateSampleRequestWithIds>>::from_spec(
            UpdateSampleRequestWithIds(id, u),
        ) == (UpdateSample { id: id, name: u.name, email: u.email, age: u.age }),
{
}

} // verus!
