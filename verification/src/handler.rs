//! The decisions of the request handlers: what each request is turned into
//! before the repository is called, and what the repository's answer is
//! turned into. The calls themselves, which wait on the database, are made
//! by the server around this library.

use crate::decimal::{decimal, decimal_string};
use crate::error::{answer_status, AppError, AppResult, STATUS_BAD_REQUEST, STATUS_CREATED, STATUS_NOT_FOUND, STATUS_NO_CONTENT, STATUS_OK};
use crate::id::SampleId;
use crate::request::{CreateSampleRequest, UpdateSampleRequest, UpdateSampleRequestWithIds};
use crate::repository::{samples_of_rows, SampleRow};
use crate::response::{response_of, responses_of, SampleList, SampleResponse};
use crate::sample::{CreateSample, DeleteSample, Sample, UpdateSample};
use crate::validation::{failing_fields, fields_of};
use vstd::prelude::*;

verus! {

/// The event that a valid create request becomes.
pub open spec fn create_event_of(req: CreateSampleRequest) -> CreateSample {
    CreateSample { name: req.name, email: req.email, age: req.age }
}

/// Checks a create request and, when it meets the rules, turns it into the
/// event for the repository; else answers with a `ValidateError` that lists
/// the failing fields, and the repository is not called.
pub fn register_request(req: CreateSampleRequest) -> (r: AppResult<CreateSample>)
    ensures
        r is Ok <==> req.is_valid(),
        r matches Ok(event) ==> event == create_event_of(req),
        r matches Err(e) ==> (e matches AppError::ValidateError(report)
            && fields_of(report@) == failing_fields(req.name@, req.email@, req.age) && report@.len() > 0),
        req.email@.len() == 0 || !req.email@.contains('@') ==> r is Err,
        !req.is_valid() ==> answer_status(r, STATUS_CREATED) == STATUS_BAD_REQUEST,
{
    match req.validate() {
        Ok(()) => Ok(CreateSample::from(req)),
        Err(report) => Err(AppError::ValidateError(report)),
    }
}

/// The answer to a create request once the repository has stored the
/// sample: 201 Created, or the repository's error.
pub fn register_response(created: AppResult<Sample>) -> (r: AppResult<u16>)
    ensures
        match created {
            Ok(_) => r == Ok::<u16, AppError>(STATUS_CREATED),
            Err(e) => r == Err::<u16, AppError>(e),
        },
{
    match created {
        Ok(_) => Ok(STATUS_CREATED),
        Err(e) => Err(e),
    }
}

/// The answer to a request for all samples: the list of every sample the
/// repository found, in its order, or the repository's error.
pub fn show_sample_list_response(found: AppResult<Vec<Sample>>) -> (r: AppResult<SampleList>)
    ensures
        match found {
            Ok(samples) => r matches Ok(list)
                && list.samples@ == responses_of(samples@),
            Err(e) => r == Err::<SampleList, AppError>(e),
        },
{
    match found {
        Ok(samples) => Ok(SampleList::from(samples)),
        Err(e) => Err(e),
    }
}

/// The text that tells which sample was not found:
/// `SampleId: <id> is not found`.
pub open spec fn not_found_message(id: i64) -> Seq<char> {
    "SampleId: "@ + decimal(id as int) + " is not found"@
}

/// The answer to a request for the sample with `id`: the sample if the
/// repository found it, an `EntityNotFound` error if it did not, or the
/// repository's error.
pub fn show_sample_response(id: SampleId, found: AppResult<Option<Sample>>) -> (r: AppResult<SampleResponse>)
    ensures
        match found {
            Ok(Some(s)) => r == Ok::<SampleResponse, AppError>(response_of(s)),
            Ok(None) => r matches Err(AppError::EntityNotFound(msg)) && msg@ == not_found_message(id@),
            Err(e) => r == Err::<SampleResponse, AppError>(e),
        },
        found matches Ok(None) ==> answer_status(r, STATUS_OK) == STATUS_NOT_FOUND,
{
    match found {
        Ok(Some(s)) => Ok(SampleResponse::from(s)),
        Ok(None) => {
            let mut msg = String::from_str("SampleId: ");
            let digits = decimal_string(id.get());
            msg.append(digits.as_str());
            msg.append(" is not found");
            Err(AppError::EntityNotFound(msg))
        },
        Err(e) => Err(e),
    }
}

/// The event that a valid change request for the sample `id` becomes.
pub open spec fn update_event_of(id: SampleId, req: UpdateSampleRequest) -> UpdateSample {
    UpdateSample { id, name: req.name, email: req.email, age: req.age }
}

/// Checks a change request for the sample `id` and, when it meets the
/// rules, turns it into the event for the repository; else answers with a
/// `ValidateError` that lists the failing fields.
pub fn update_sample_request(id: SampleId, req: UpdateSampleRequest) -> (r: AppResult<UpdateSample>)
    ensures
        r is Ok <==> req.is_valid(),
        r matches Ok(event) ==> event == update_event_of(id, req),
        r matches Err(e) ==> (e matches AppError::ValidateError(report)
            && fields_of(report@) == failing_fields(req.name@, req.email@, req.age) && report@.len() > 0),
        req.email@.len() == 0 || !req.email@.contains('@') ==> r is Err,
        !req.is_valid() ==> answer_status(r, STATUS_NO_CONTENT) == STATUS_BAD_REQUEST,
{
    match req.validate() {
        Ok(()) => Ok(UpdateSample::from(UpdateSampleRequestWithIds::new(id, req))),
        Err(report) => Err(AppError::ValidateError(report)),
    }
}

/// The answer to a change request once the repository has run it:
/// 204 No Content, or the repository's error.
pub fn update_sample_response(done: AppResult<()>) -> (r: AppResult<u16>)
    ensures
        match done {
            Ok(_) => r == Ok::<u16, AppError>(STATUS_NO_CONTENT),
            Err(e) => r == Err::<u16, AppError>(e),
        },
{
    match done {
        Ok(()) => Ok(STATUS_NO_CONTENT),
        Err(e) => Err(e),
    }
}

/// The event that a request to remove the sample `id` becomes.
pub fn delete_sample_request(id: SampleId) -> (r: DeleteSample)
    ensures
        r.id == id,
{
    DeleteSample { id }
}

/// The answer to a request to remove a sample once the repository has run
/// it: 204 No Content, or the repository's error.
pub fn delete_sample_response(done: AppResult<()>) -> (r: AppResult<u16>)
    ensures
        match done {
            Ok(_) => r == Ok::<u16, AppError>(STATUS_NO_CONTENT),
            Err(e) => r == Err::<u16, AppError>(e),
        },
{
    match done {
        Ok(()) => Ok(STATUS_NO_CONTENT),
        Err(e) => Err(e),
    }
}

/// What the service shows of a stored row is the row itself: its id, name,
/// e-mail and age, unchanged, whether it is shown alone or in the list.
pub proof fn lemma_stored_row_shown_unchanged(rows: Seq<SampleRow>)
    ensures
        responses_of(samples_of_rows(rows)).len() == rows.len(),
        forall|i: int| 0 <= i < rows.len() ==> #[trigger] responses_of(samples_of_rows(rows))[i] == (SampleResponse {
            id: rows[i].id,
            name: rows[i].name,
            email: rows[i].email,
            age: rows[i].age,
        }),
{
}

/// A valid create request reaches the repository with its own name, e-mail
/// and age; a valid change request with the path's id and its own name,
/// e-mail and age, none of them moved to another field.
pub proof fn lemma_handler_events_keep_fields(c: CreateSampleRequest, id: SampleId, u: UpdateSampleRequest)
    ensures
        create_event_of(c) == (CreateSample { name: c.name, email: c.email, age: c.age }),
        update_event_of(id, u) == (UpdateSample { id: id, name: u.name, email: u.email, age: u.age }),
{
}

/// The text for a missing sample starts with `SampleId: `, ends with
/// ` is not found`, and holds the id's decimal digits in between.
pub proof fn lemma_not_found_message_shape(id: i64)
    ensures
        not_found_message(id).len() == 23 + decimal(id as int).len(),
        not_found_message(id).subrange(0, 10) == seq!['S', 'a', 'm', 'p', 'l', 'e', 'I', 'd', ':', ' '],
        not_found_message(id).subrange(10, 10 + decimal(id as int).len() as int) == decimal(id as int),
        not_found_message(id).subrange(10 + decimal(id as int).len() as int, not_found_message(id).len() as int)
            == seq![' ', 'i', 's', ' ', 'n', 'o', 't', ' ', 'f', 'o', 'u', 'n', 'd'],
{
    reveal_strlit("SampleId: ");
    reveal_strlit(" is not found");
    let d = decimal(id as int);
    let m = not_found_message(id);
    assert(m.subrange(0, 10) =~= seq!['S', 'a', 'm', 'p', 'l', 'e', 'I', 'd', ':', ' ']);
    assert(m.subrange(10, 10 + d.len() as int) =~= d);
    assert(m.subrange(10 + d.len() as int, m.len() as int) =~= seq![' ', 'i', 's', ' ', 'n', 'o', 't', ' ', 'f', 'o', 'u', 'n', 'd']);
}

} // verus!
