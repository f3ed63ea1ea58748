use axum_sample::error::{status_of, AppError, STATUS_BAD_REQUEST, STATUS_CREATED, STATUS_INTERNAL_SERVER_ERROR, STATUS_NOT_FOUND, STATUS_NO_CONTENT, STATUS_OK};
use axum_sample::handler::{
    delete_sample_request, delete_sample_response, register_request, register_response, show_sample_list_response,
    show_sample_response, update_sample_request, update_sample_response,
};
use axum_sample::id::SampleId;
use axum_sample::request::{CreateSampleRequest, UpdateSampleRequest};
use axum_sample::sample::{CreateSample, Sample, UpdateSample};
use axum_sample::validation::Field;

fn sample(id: i64, name: &str, email: &str, age: i16) -> Sample {
    Sample { id: SampleId::new(id), name: name.to_string(), email: email.to_string(), age }
}

#[test]
fn register_sample_ok() {
    let req = CreateSampleRequest { name: "test".into(), email: "test@example.com".into(), age: 10 };
    let event = register_request(req).unwrap();
    assert_eq!(event, CreateSample { name: "test".into(), email: "test@example.com".into(), age: 10 });
    // The repository stores it under id 1 and hands the sample back.
    let stored = Sample { id: 1.into(), name: event.name, email: event.email, age: event.age };
    let answer = register_response(Ok(stored));
    assert_eq!(status_of(&answer, STATUS_CREATED), STATUS_CREATED);
    assert_eq!(answer, Ok(201));
}

#[test]
fn register_sample_ng() {
    let req = CreateSampleRequest { name: "".into(), email: "".into(), age: 10 };
    let answer = register_request(req);
    assert_eq!(status_of(&answer, STATUS_CREATED), STATUS_BAD_REQUEST);
    match answer {
        Err(AppError::ValidateError(report)) => {
            assert_eq!(report.errors.len(), 1);
            assert_eq!(report.errors[0].field, Field::Email);
        },
        _ => panic!("Unexpected answer"),
    }
}

#[test]
fn register_passes_a_repository_error_through() {
    let answer = register_response(Err(AppError::SpecificOperationError("duplicate".into())));
    assert_eq!(answer, Err(AppError::SpecificOperationError("duplicate".into())));
    assert_eq!(status_of(&answer, STATUS_CREATED), STATUS_INTERNAL_SERVER_ERROR);
}

#[test]
fn show_sample_list() {
    let found = Ok(vec![sample(1, "Sample", "sample@example.com", 20), sample(2, "Sample2", "sample2@example.com", 30)]);
    let answer = show_sample_list_response(found);
    assert_eq!(status_of(&answer, STATUS_OK), STATUS_OK);
    let list = answer.unwrap();
    assert_eq!(list.samples.len(), 2);
    assert_eq!(list.samples[0].id.get(), 1);
    assert_eq!(list.samples[0].name, "Sample");
    assert_eq!(list.samples[0].email, "sample@example.com");
    assert_eq!(list.samples[0].age, 20);
    assert_eq!(list.samples[1].id.get(), 2);
    assert_eq!(list.samples[1].name, "Sample2");
    assert_eq!(list.samples[1].email, "sample2@example.com");
    assert_eq!(list.samples[1].age, 30);
}

#[test]
fn show_sample_ok() {
    let answer = show_sample_response(SampleId::new(1), Ok(Some(sample(1, "Sample", "sample@example.com", 20))));
    assert_eq!(status_of(&answer, STATUS_OK), STATUS_OK);
    let r = answer.unwrap();
    assert_eq!(r.id.get(), 1);
    assert_eq!(r.name, "Sample");
    assert_eq!(r.email, "sample@example.com");
    assert_eq!(r.age, 20);
}

#[test]
fn show_sample_ng() {
    let answer = show_sample_response(SampleId::new(1), Ok(None));
    assert_eq!(status_of(&answer, STATUS_OK), STATUS_NOT_FOUND);
    assert_eq!(answer, Err(AppError::EntityNotFound("SampleId: 1 is not found".into())));
}

#[test]
fn show_sample_not_found_names_a_negative_id() {
    let answer = show_sample_response(SampleId::new(-25), Ok(None));
    assert_eq!(answer, Err(AppError::EntityNotFound("SampleId: -25 is not found".into())));
}

#[test]
fn update_sample_valid_and_invalid() {
    let req = UpdateSampleRequest { name: "u".into(), email: "u@example.com".into(), age: 50 };
    let event = update_sample_request(SampleId::new(4), req).unwrap();
    assert_eq!(event, UpdateSample { id: SampleId::new(4), name: "u".into(), email: "u@example.com".into(), age: 50 });
    let bad = UpdateSampleRequest { name: "u".into(), email: "not an address".into(), age: 50 };
    let answer = update_sample_request(SampleId::new(4), bad);
    assert_eq!(status_of(&answer, STATUS_NO_CONTENT), STATUS_BAD_REQUEST);
    assert_eq!(update_sample_response(Ok(())), Ok(204));
}

#[test]
fn delete_sample_answers_no_content() {
    assert_eq!(delete_sample_request(SampleId::new(8)).id, SampleId::new(8));
    assert_eq!(delete_sample_response(Ok(())), Ok(204));
    let e = delete_sample_response(Err(AppError::TransactionError("gone".into())));
    assert_eq!(e, Err(AppError::TransactionError("gone".into())));
}

#[test]
fn every_error_has_its_status() {
    assert_eq!(AppError::EntityNotFound("x".into()).status_code(), 404);
    assert_eq!(AppError::SpecificOperationError("x".into()).status_code(), 500);
    assert_eq!(AppError::NoRowsAffectedError("x".into()).status_code(), 500);
    assert_eq!(AppError::TransactionError("x".into()).status_code(), 500);
    let invalid = register_request(CreateSampleRequest { name: "n".into(), email: "".into(), age: 1 }).unwrap_err();
    assert_eq!(invalid.status_code(), 400);
}
