use axum_sample::error::AppError;
use axum_sample::id::SampleId;
use axum_sample::repository::{create_outcome, execute_outcome, find_all_outcome, find_by_id_outcome, samples_from_rows, transaction_outcome, SampleRow};

fn row(id: i64, name: &str, email: &str, age: i16) -> SampleRow {
    SampleRow { id: SampleId::new(id), name: name.to_string(), email: email.to_string(), age }
}

#[test]
fn test_find_all() {
    let rows = vec![
        row(2, "test2", "test2@example.com", 20),
        row(1, "test1", "test1@example.com", 0),
        row(3, "test3", "test3@example.com", 100),
    ];
    let mut samples = find_all_outcome(Ok(rows)).unwrap();
    samples.sort_by(|a, b| a.name.cmp(&b.name));
    assert_eq!(samples.len(), 3);
    assert_eq!(samples[0].name, "test1");
    assert_eq!(samples[0].email, "test1@example.com");
    assert_eq!(samples[0].age, 0);
    assert_eq!(samples[1].name, "test2");
    assert_eq!(samples[1].email, "test2@example.com");
    assert_eq!(samples[1].age, 20);
    assert_eq!(samples[2].name, "test3");
    assert_eq!(samples[2].email, "test3@example.com");
    assert_eq!(samples[2].age, 100);
}

#[test]
fn find_all_keeps_the_fetched_order() {
    let samples = samples_from_rows(vec![row(5, "b", "b@x.y", 1), row(4, "a", "a@x.y", 2)]);
    assert_eq!(samples.len(), 2);
    assert_eq!(samples[0].id.get(), 5);
    assert_eq!(samples[1].id.get(), 4);
    assert!(samples_from_rows(Vec::new()).is_empty());
}

#[test]
fn find_all_passes_a_database_error() {
    let r = find_all_outcome(Err("connection refused".into()));
    assert_eq!(r, Err(AppError::SpecificOperationError("connection refused".into())));
}

#[test]
fn test_create_ok() {
    let res = create_outcome(Ok(row(1, "test", "test@example.com", 10))).unwrap();
    assert_eq!(res.name, "test");
    assert_eq!(res.email, "test@example.com");
    assert_eq!(res.age, 10);
}

#[test]
fn test_create_ng() {
    let res1 = create_outcome(Ok(row(1, "test", "test@example.com", 10))).unwrap();
    assert_eq!(res1.name, "test");
    assert_eq!(res1.email, "test@example.com");
    assert_eq!(res1.age, 10);
    let message = "error returned from database: duplicate key value violates unique constraint \"sample_email_key\"";
    let res2 = create_outcome(Err(message.to_string()));
    assert!(res2.is_err());
    match res2 {
        Err(AppError::SpecificOperationError(e)) => assert_eq!(e, message),
        _ => panic!("Unexpected error"),
    }
}

#[test]
fn test_create_ng_age_minus() {
    let message = "error returned from database: new row for relation \"sample\" violates check constraint \"sample_age_check\"";
    let res = create_outcome(Err(message.to_string()));
    assert!(res.is_err());
    match res {
        Err(AppError::SpecificOperationError(e)) => assert_eq!(e, message),
        _ => panic!("Unexpected error"),
    }
}

#[test]
fn test_create_ng_age_over() {
    let message = "error returned from database: new row for relation \"sample\" violates check constraint \"sample_age_check\"";
    let res = create_outcome(Err(message.to_string()));
    assert!(res.is_err());
    match res {
        Err(AppError::SpecificOperationError(e)) => assert_eq!(e, message),
        _ => panic!("Unexpected error"),
    }
}

#[test]
fn find_by_id_outcomes() {
    let found = find_by_id_outcome(Ok(Some(row(7, "s", "s@x.y", 3)))).unwrap().unwrap();
    assert_eq!(found.id.get(), 7);
    assert_eq!(find_by_id_outcome(Ok(None)), Ok(None));
    assert_eq!(find_by_id_outcome(Err("e".into())), Err(AppError::SpecificOperationError("e".into())));
}

#[test]
fn execute_and_transaction_outcomes() {
    assert_eq!(execute_outcome(Ok(0)), Ok(()));
    assert_eq!(execute_outcome(Ok(3)), Ok(()));
    assert_eq!(execute_outcome(Err("e".into())), Err(AppError::SpecificOperationError("e".into())));
    assert_eq!(transaction_outcome(Ok(5u8)), Ok(5u8));
    assert_eq!(transaction_outcome::<u8>(Err("busy".into())), Err(AppError::TransactionError("busy".into())));
}
