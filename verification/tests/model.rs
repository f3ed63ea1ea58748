use axum_sample::id::SampleId;
use axum_sample::repository::SampleRow;
use axum_sample::request::{CreateSampleRequest, UpdateSampleRequest, UpdateSampleRequestWithIds};
use axum_sample::response::{SampleList, SampleResponse};
use axum_sample::sample::{CreateSample, Sample, UpdateSample};

fn sample(id: i64, name: &str, email: &str, age: i16) -> Sample {
    Sample { id: SampleId::new(id), name: name.to_string(), email: email.to_string(), age }
}

#[test]
fn sample_id_new_then_get() {
    assert_eq!(SampleId::new(42).get(), 42);
    assert_eq!(SampleId::new(-7).get(), -7);
    assert_eq!(SampleId::new(i64::MIN).get(), i64::MIN);
}

#[test]
fn sample_id_from_is_new() {
    let a: SampleId = 1.into();
    assert_eq!(a, SampleId::new(1));
    assert_eq!(SampleId::from(99).get(), 99);
}

#[test]
fn sample_response_from_sample_keeps_fields() {
    let r = SampleResponse::from(sample(1, "Sample", "sample@example.com", 20));
    assert_eq!(r.id.get(), 1);
    assert_eq!(r.name, "Sample");
    assert_eq!(r.email, "sample@example.com");
    assert_eq!(r.age, 20);
}

#[test]
fn sample_list_from_samples_keeps_order() {
    let list = SampleList::from(vec![
        sample(1, "Sample", "sample@example.com", 20),
        sample(2, "Sample2", "sample2@example.com", 30),
    ]);
    assert_eq!(list.samples.len(), 2);
    assert_eq!(list.samples[0].id.get(), 1);
    assert_eq!(list.samples[0].name, "Sample");
    assert_eq!(list.samples[1].id.get(), 2);
    assert_eq!(list.samples[1].email, "sample2@example.com");
    assert_eq!(list.samples[1].age, 30);
}

#[test]
fn sample_list_from_no_samples_is_empty() {
    assert!(SampleList::from(Vec::new()).samples.is_empty());
}

#[test]
fn create_sample_from_request_keeps_fields() {
    let req = CreateSampleRequest { name: "test".into(), email: "test@example.com".into(), age: 10 };
    let ev = CreateSample::from(req);
    assert_eq!(ev, CreateSample { name: "test".into(), email: "test@example.com".into(), age: 10 });
}

#[test]
fn update_sample_from_request_takes_id_from_path() {
    let req = UpdateSampleRequest { name: "n".into(), email: "n@example.com".into(), age: 5 };
    let with_ids = UpdateSampleRequestWithIds::new(SampleId::new(3), req);
    assert_eq!(with_ids.0, SampleId::new(3));
    let ev = UpdateSample::from(with_ids);
    assert_eq!(ev, UpdateSample { id: SampleId::new(3), name: "n".into(), email: "n@example.com".into(), age: 5 });
}

#[test]
fn sample_from_row_keeps_fields() {
    let row = SampleRow { id: SampleId::new(9), name: "r".into(), email: "r@example.com".into(), age: 100 };
    assert_eq!(Sample::from(row), sample(9, "r", "r@example.com", 100));
}
