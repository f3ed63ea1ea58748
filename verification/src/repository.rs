//! What the repository makes of what the database hands back.

use crate::error::{AppError, AppResult};
use crate::id::SampleId;
use crate::sample::Sample;
use vstd::prelude::*;

verus! {

/// A row of the `sample` table.
#[derive(Debug, PartialEq, Eq)]
pub struct SampleRow {
    pub id: SampleId,
    pub name: String,
    pub email: String,
    pub age: i16,
}

/// The sample that the row `r` stores, field for field.
pub open spec fn sample_of_row(r: SampleRow) -> Sample {
    Sample { id: r.id, name: r.name, email: r.email, age: r.age }
}

/// The samples that the rows `rows` store, one for each, in order.
pub open spec fn samples_of_rows(rows: Seq<SampleRow>) -> Seq<Sample> {
    rows.map_values(|row: SampleRow| sample_of_row(row))
}

impl From<SampleRow> for Sample {
    fn from(value: SampleRow) -> (r: Self) {
        let SampleRow { id, name, email, age } = value;
        Sample { id, name, email, age }
    }
}

impl vstd::std_specs::convert::FromSpecImpl<SampleRow> for Sample {
    open spec fn obeys_from_spec() -> bool {
        true
    }

    open spec fn from_spec(v: SampleRow) -> Sample {
        sample_of_row(v)
    }
}

/// The samples that the rows store: every row, in the order fetched.
pub fn samples_from_rows(rows: Vec<SampleRow>) -> (r: Vec<Sample>)
    ensures
        r@ == samples_of_rows(rows@),
{
    let ghost original = rows@;
    let mut samples: Vec<Sample> = Vec::new();
    for row in it: rows.into_iter()
        invariant
            it.seq() == original,
            samples@ == original.take(it.index() as int).map_values(|row: SampleRow| sample_of_row(row)),
    {
        let ghost k = it.index() as int;
        match Sample::try_from(row) {
            Ok(s) => {
                samples.push(s);
            },
            Err(_) => {},
        }
        assert(original.take(k + 1).map_values(|row: SampleRow| sample_of_row(row))
            =~= original.take(k).map_values(|row: SampleRow| sample_of_row(row)).push(sample_of_row(original[k])));
    }
    assert(original.take(original.len() as int) =~= original);
    samples
}

/// What `find_all` answers once the database has been queried: every
/// stored sample, or the database's refusal as a `SpecificOperationError`.
pub fn find_all_outcome(fetched: Result<Vec<SampleRow>, String>) -> (r: AppResult<Vec<Sample>>)
    ensures
        match fetched {
            Ok(rows) => r matches Ok(samples) && samples@ == samples_of_rows(rows@),
            Err(msg) => r == Err::<Vec<Sample>, AppError>(AppError::SpecificOperationError(msg)),
        },
{
    match fetched {
        Ok(rows) => Ok(samples_from_rows(rows)),
        Err(msg) => Err(AppError::SpecificOperationError(msg)),
    }
}

/// What `create` answers once the insert has returned: the stored sample,
/// or the database's refusal (a duplicate e-mail, an age that the table's
/// check rejects) as a `SpecificOperationError`.
pub fn create_outcome(fetched: Result<SampleRow, String>) -> (r: AppResult<Sample>)
    ensures
        match fetched {
            Ok(row) => r == Ok::<Sample, AppError>(sample_of_row(row)),
            Err(msg) => r == Err::<Sample, AppError>(AppError::SpecificOperationError(msg)),
        },
{
    let converted: Option<Sample> = match fetched {
        Ok(row) => Sample::try_from(row).ok(),
        Err(msg) => {
            return Err(AppError::SpecificOperationError(msg));
        },
    };
    match converted {
        Some(sample) => Ok(sample),
        None => Err(AppError::NoRowsAffectedError(String::from_str("Failed to insert row"))),
    }
}

/// What `find_by_id` answers once the database has been queried: the
/// stored sample if there is one, or the database's refusal as a
/// `SpecificOperationError`.
pub fn find_by_id_outcome(fetched: Result<Option<SampleRow>, String>) -> (r: AppResult<Option<Sample>>)
    ensures
        match fetched {
            Ok(Some(row)) => r == Ok::<Option<Sample>, AppError>(Some(sample_of_row(row))),
            Ok(None) => r == Ok::<Option<Sample>, AppError>(None),
            Err(msg) => r == Err::<Option<Sample>, AppError>(AppError::SpecificOperationError(msg)),
        },
{
    match fetched {
        Ok(Some(row)) => Ok(Some(Sample::from(row))),
        Ok(None) => Ok(None),
        Err(msg) => Err(AppError::SpecificOperationError(msg)),
    }
}

/// What `update` and `delete` answer once their statement has run: success
/// whatever the number of rows touched, or the database's refusal as a
/// `SpecificOperationError`.
pub fn execute_outcome(done: Result<u64, String>) -> (r: AppResult<()>)
    ensures
        match done {
            Ok(_) => r == Ok::<(), AppError>(()),
            Err(msg) => r == Err::<(), AppError>(AppError::SpecificOperationError(msg)),
        },
{
    match done {
        Ok(_) => Ok(()),
        Err(msg) => Err(AppError::SpecificOperationError(msg)),
    }
}

/// The error that answers a transaction that could not be opened.
pub fn transaction_outcome<T>(opened: Result<T, String>) -> (r: AppResult<T>)
    ensures
        match opened {
            Ok(t) => r == Ok::<T, AppError>(t),
            Err(msg) => r == Err::<T, AppError>(AppError::TransactionError(msg)),
        },
{
    match opened {
        Ok(t) => Ok(t),
        Err(msg) => Err(AppError::TransactionError(msg)),
    }
}

/// A row becomes the sample with the same id, name, e-mail and age, each
/// in its own place.
pub proof fn lemma_row_keeps_fields(r: SampleRow)
    ensures
        sample_of_row(r) == (Sample { id: r.id, name: r.name, email: r.email, age: r.age }),
        <Sample as vstd::std_specs::convert::FromSpec<SampleRow>>::from_spec(r) == (Sample {
            id: r.id,
            name: r.name,
            email: r.email,
            age: r.age,
        }),
{
}

/// Rows become samples one for one, in the fetched order, each with its
/// row's fields unchanged.
pub proof fn lemma_rows_keep_fields(rows: Seq<SampleRow>)
    ensures
        samples_of_rows(rows).len() == rows.len(),
        forall|i: int| 0 <= i < rows.len() ==> #[trigger] samples_of_rows(rows)[i] == (Sample {
            id: rows[i].id,
            name: rows[i].name,
            email: rows[i].email,
            age: rows[i].age,
        }),
{
}

} // verus!
