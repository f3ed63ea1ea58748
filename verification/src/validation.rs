//! Field rules that a request must meet before it reaches the repository.
//!
//! The rules themselves are garde's; this module calls them and gathers
//! their verdicts into a report, in the order in which the fields are
//! declared.

use vstd::prelude::*;

verus! {

/// garde's description of one broken rule. The library carries it as it
/// came back and never looks inside it.
#[verifier::external_type_specification]
#[verifier::external_body]
pub struct ExGardeError(garde::Error);

/// Number of UTF-16 code units that encode `c`: two for a character
/// outside the basic multilingual plane, one otherwise.
pub open spec fn utf16_units(c: char) -> nat {
    if (c as u32) >= 0x10000 {
        2
    } else {
        1
    }
}

/// Number of UTF-16 code units that encode `s`.
pub open spec fn utf16_len(s: Seq<char>) -> nat
    decreases s.len(),
{
    if s.len() == 0 {
        0
    } else {
        utf16_len(s.drop_last()) + utf16_units(s.last())
    }
}

/// A text takes at least one and at most two UTF-16 code units per
/// character, and exactly one per character when none of its characters
/// lies outside the basic multilingual plane (as for any ASCII text).
pub proof fn lemma_utf16_len_bounds(s: Seq<char>)
    ensures
        s.len() <= utf16_len(s) <= 2 * s.len(),
        (forall|i: int| 0 <= i < s.len() ==> (#[trigger] s[i] as u32) < 0x10000) ==> utf16_len(s) == s.len(),
    decreases s.len(),
{
    if s.len() > 0 {
        lemma_utf16_len_bounds(s.drop_last());
        if forall|i: int| 0 <= i < s.len() ==> (#[trigger] s[i] as u32) < 0x10000 {
            assert forall|i: int| 0 <= i < s.drop_last().len() implies (#[trigger] s.drop_last()[i] as u32) < 0x10000 by {
                assert(s.drop_last()[i] == s[i]);
            }
            assert((s[s.len() - 1] as u32) < 0x10000);
        }
    }
}

/// Whether garde's e-mail rule (`garde::rules::email::parse_email`)
/// accepts the text `s`.
pub uninterp spec fn garde_email_accepts(s: Seq<char>) -> bool;

/// Calls `garde::rules::length::utf16::apply`, which counts the UTF-16 code
/// units of the text (`encode_utf16().count()`) and fails exactly when that
/// count lies outside `min..=max`.
#[verifier::external_body]
pub(crate) fn check_utf16_length(v: &String, min: usize, max: usize) -> (r: Result<(), garde::Error>)
    ensures
        r is Ok <==> min <= utf16_len(v@) <= max,
{
    garde::rules::length::utf16::apply(v, (min, max))
}

/// Calls `garde::rules::email::apply`, which fails exactly when
/// `garde::rules::email::parse_email` rejects the text. That function
/// rejects an empty text and a text without `@` before it looks further;
/// what it does beyond that (regular expressions on both halves) is named
/// by `garde_email_accepts` and not spelled out.
#[verifier::external_body]
pub(crate) fn check_email(v: &String) -> (r: Result<(), garde::Error>)
    ensures
        r is Ok <==> garde_email_accepts(v@),
        v@.len() == 0 ==> r is Err,
        !v@.contains('@') ==> r is Err,
{
    garde::rules::email::apply(v, ())
}

/// Calls `garde::rules::range::apply` on an `i16` with both bounds given,
/// which fails exactly when the value lies outside `min..=max`.
#[verifier::external_body]
pub(crate) fn check_range_i16(v: i16, min: i16, max: i16) -> (r: Result<(), garde::Error>)
    ensures
        r is Ok <==> min <= v <= max,
{
    garde::rules::range::apply(&v, (Some(min), Some(max)))
}

/// The field of a sample request that a rule was checked on.
#[derive(Debug, Clone, Copy, PartialEq, Eq, Structural)]
pub enum Field {
    Name,
    Email,
    Age,
}

/// One broken rule: the field, and garde's description of what is wrong.
#[derive(Debug, PartialEq, Eq)]
pub struct FieldError {
    pub field: Field,
    pub error: garde::Error,
}

/// Every broken rule of a request, in the order of the request's fields.
#[derive(Debug, PartialEq, Eq)]
pub struct ValidationReport {
    pub errors: Vec<FieldError>,
}

impl View for ValidationReport {
    type V = Seq<(Field, garde::Error)>;

    open spec fn view(&self) -> Seq<(Field, garde::Error)> {
        self.errors@.map_values(|e: FieldError| (e.field, e.error))
    }
}

/// The entries that a check of `field` with outcome `check` adds to a report.
pub open spec fn entry_of(field: Field, check: Result<(), garde::Error>) -> Seq<(Field, garde::Error)> {
    match check {
        Ok(()) => Seq::empty(),
        Err(e) => seq![(field, e)],
    }
}

/// The report made of the outcomes of the name, e-mail and age checks.
pub open spec fn report_of(
    name: Result<(), garde::Error>,
    email: Result<(), garde::Error>,
    age: Result<(), garde::Error>,
) -> Seq<(Field, garde::Error)> {
    entry_of(Field::Name, name) + entry_of(Field::Email, email) + entry_of(Field::Age, age)
}

fn push_failure(errors: &mut Vec<FieldError>, field: Field, check: Result<(), garde::Error>)
    ensures
        final(errors)@.map_values(|e: FieldError| (e.field, e.error))
            == old(errors)@.map_values(|e: FieldError| (e.field, e.error)) + entry_of(field, check),
{
    match check {
        Ok(()) => {
            assert(old(errors)@.map_values(|e: FieldError| (e.field, e.error)) + Seq::empty()
                =~= old(errors)@.map_values(|e: FieldError| (e.field, e.error)));
        },
        Err(error) => {
            errors.push(FieldError { field, error });
            assert(errors@.map_values(|e: FieldError| (e.field, e.error))
                =~= old(errors)@.map_values(|e: FieldError| (e.field, e.error)) + seq![(field, error)]);
        },
    }
}

/// Gathers the outcomes of the three field checks of a sample request:
/// success when all three passed, else a report with one entry per failed
/// check, in the order name, e-mail, age.
pub fn report_from_checks(
    name: Result<(), garde::Error>,
    email: Result<(), garde::Error>,
    age: Result<(), garde::Error>,
) -> (r: Result<(), ValidationReport>)
    ensures
        r is Ok <==> (name is Ok && email is Ok && age is Ok),
        r matches Err(report) ==> report@ == report_of(name, email, age) && report@.len() > 0,
{
    let ghost (n, e, a) = (name, email, age);
    let ok = name.is_ok() && email.is_ok() && age.is_ok();
    if ok {
        return Ok(());
    }
    let mut errors: Vec<FieldError> = Vec::new();
    assert(errors@.map_values(|e: FieldError| (e.field, e.error)) =~= Seq::<(Field, garde::Error)>::empty());
    push_failure(&mut errors, Field::Name, name);
    push_failure(&mut errors, Field::Email, email);
    push_failure(&mut errors, Field::Age, age);
    assert(Seq::<(Field, garde::Error)>::empty() + entry_of(Field::Name, n) =~= entry_of(Field::Name, n));
    Err(ValidationReport { errors })
}

/// The fields named by a report, in its order.
pub open spec fn fields_of(report: Seq<(Field, garde::Error)>) -> Seq<Field> {
    report.map_values(|entry: (Field, garde::Error)| entry.0)
}

/// The longest name, in UTF-16 code units, that a sample request may carry.
pub const NAME_MAX_UTF16: usize = 100;

/// The lowest age that a sample request may carry.
pub const AGE_MIN: i16 = 0;

/// The highest age that a sample request may carry.
pub const AGE_MAX: i16 = 100;

/// Whether the name rule holds: at most 100 UTF-16 code units.
pub open spec fn name_ok(name: Seq<char>) -> bool {
    utf16_len(name) <= NAME_MAX_UTF16
}

/// Whether the age rule holds: between 0 and 100, both included.
pub open spec fn age_ok(age: i16) -> bool {
    AGE_MIN <= age <= AGE_MAX
}

/// Whether all three rules of a sample request hold.
pub open spec fn sample_fields_ok(name: Seq<char>, email: Seq<char>, age: i16) -> bool {
    name_ok(name) && garde_email_accepts(email) && age_ok(age)
}

/// The fields of a sample request whose rule fails, in declaration order.
pub open spec fn failing_fields(name: Seq<char>, email: Seq<char>, age: i16) -> Seq<Field> {
    (if name_ok(name) { Seq::empty() } else { seq![Field::Name] })
        + (if garde_email_accepts(email) { Seq::empty() } else { seq![Field::Email] })
        + (if age_ok(age) { Seq::empty() } else { seq![Field::Age] })
}

proof fn lemma_fields_of_entry(field: Field, check: Result<(), garde::Error>)
    ensures
        fields_of(entry_of(field, check)) == (if check is Ok { Seq::<Field>::empty() } else { seq![field] }),
{
    assert(fields_of(entry_of(field, check)) =~= (if check is Ok { Seq::<Field>::empty() } else { seq![field] }));
}

proof fn lemma_fields_of_concat(a: Seq<(Field, garde::Error)>, b: Seq<(Field, garde::Error)>)
    ensures
        fields_of(a + b) == fields_of(a) + fields_of(b),
{
    assert(fields_of(a + b) =~= fields_of(a) + fields_of(b));
}

/// Checks the name, e-mail and age of a sample request against garde's
/// rules `length(utf16, max = 100)`, `email` and `range(min = 0, max = 100)`:
/// success exactly when all three hold, else a report that names each
/// failing field once, in the order name, e-mail, age.
pub fn validate_sample_fields(name: &String, email: &String, age: i16) -> (r: Result<(), ValidationReport>)
    ensures
        r is Ok <==> sample_fields_ok(name@, email@, age),
        r matches Err(report) ==> fields_of(report@) == failing_fields(name@, email@, age) && report@.len() > 0,
        email@.len() == 0 || !email@.contains('@') ==> !garde_email_accepts(email@),
{
    let name_check = check_utf16_length(name, 0, NAME_MAX_UTF16);
    let email_check = check_email(email);
    let age_check = check_range_i16(age, AGE_MIN, AGE_MAX);
    let ghost (n, e, a) = (name_check, email_check, age_check);
    let r = report_from_checks(name_check, email_check, age_check);
    proof {
        lemma_fields_of_entry(Field::Name, n);
        lemma_fields_of_entry(Field::Email, e);
        lemma_fields_of_entry(Field::Age, a);
        lemma_fields_of_concat(entry_of(Field::Name, n), entry_of(Field::Email, e));
        lemma_fields_of_concat(entry_of(Field::Name, n) + entry_of(Field::Email, e), entry_of(Field::Age, a));
    }
    r
}

/// The fields of a report are its entries' fields, one for one, in order.
pub proof fn lemma_fields_of(report: Seq<(Field, garde::Error)>)
    ensures
        fields_of(report).len() == report.len(),
        forall|i: int| 0 <= i < report.len() ==> #[trigger] fields_of(report)[i] == report[i].0,
{
}

/// The view of a report lists its errors one for one, in order.
pub proof fn lemma_report_view(r: ValidationReport)
    ensures
        r@.len() == r.errors@.len(),
        forall|i: int| 0 <= i < r.errors@.len() ==> #[trigger] r@[i] == (r.errors@[i].field, r.errors@[i].error),
{
}

/// A report made of three checks holds the error of each failed check,
/// paired with its field, and nothing else; name before e-mail before age.
pub proof fn lemma_report_of(
    name: Result<(), garde::Error>,
    email: Result<(), garde::Error>,
    age: Result<(), garde::Error>,
)
    ensures
        forall|x: garde::Error| #[trigger] report_of(name, email, age).contains((Field::Name, x)) <==> name == Err::<(), garde::Error>(x),
        forall|x: garde::Error| #[trigger] report_of(name, email, age).contains((Field::Email, x)) <==> email == Err::<(), garde::Error>(x),
        forall|x: garde::Error| #[trigger] report_of(name, email, age).contains((Field::Age, x)) <==> age == Err::<(), garde::Error>(x),
        report_of(name, email, age).len() == (if name is Err { 1int } else { 0 }) + (if email is Err { 1int } else { 0 })
            + (if age is Err { 1int } else { 0 }),
        name is Err ==> report_of(name, email, age)[0].0 == Field::Name,
        age is Err ==> report_of(name, email, age).last().0 == Field::Age,
{
    let r = report_of(name, email, age);
    assert forall|x: garde::Error| #[trigger] r.contains((Field::Name, x)) <==> name == Err::<(), garde::Error>(x) by {
        if name == Err::<(), garde::Error>(x) {
            assert(r[0] == (Field::Name, x));
        }
    }
    assert forall|x: garde::Error| #[trigger] r.contains((Field::Email, x)) <==> email == Err::<(), garde::Error>(x) by {
        if email == Err::<(), garde::Error>(x) {
            let k = if name is Err { 1int } else { 0 };
            assert(r[k] == (Field::Email, x));
        }
    }
    assert forall|x: garde::Error| #[trigger] r.contains((Field::Age, x)) <==> age == Err::<(), garde::Error>(x) by {
        if age == Err::<(), garde::Error>(x) {
            assert(r[r.len() - 1] == (Field::Age, x));
        }
    }
}

/// The rules of a sample request are garde's `length(utf16, max = 100)` on
/// the name, `email` on the e-mail, and `range(min = 0, max = 100)` on the
/// age, and nothing else. The failing fields are exactly those whose rule
/// fails, each once, name first and age last.
pub proof fn lemma_sample_rules(name: Seq<char>, email: Seq<char>, age: i16)
    ensures
        sample_fields_ok(name, email, age) <==> (utf16_len(name) <= 100 && garde_email_accepts(email) && 0 <= age <= 100),
        failing_fields(name, email, age).contains(Field::Name) <==> utf16_len(name) > 100,
        failing_fields(name, email, age).contains(Field::Email) <==> !garde_email_accepts(email),
        failing_fields(name, email, age).contains(Field::Age) <==> !(0 <= age <= 100),
        failing_fields(name, email, age).no_duplicates(),
        failing_fields(name, email, age).len() == 0 <==> sample_fields_ok(name, email, age),
        failing_fields(name, email, age).contains(Field::Name) ==> failing_fields(name, email, age)[0] == Field::Name,
        failing_fields(name, email, age).contains(Field::Age) ==> failing_fields(name, email, age).last() == Field::Age,
{
    let f = failing_fields(name, email, age);
    let n = name_ok(name);
    let e = garde_email_accepts(email);
    let a = age_ok(age);
    if !n {
        assert(f[0] == Field::Name);
    }
    if !a {
        assert(f[f.len() - 1] == Field::Age);
    }
    if !e {
        let k = if n { 0int } else { 1 };
        assert(f[k] == Field::Email);
    }
    assert forall|i: int, j: int| 0 <= i < j < f.len() implies f[i] != f[j] by {
        if !n && !e && !a {
            assert(f =~= seq![Field::Name, Field::Email, Field::Age]);
        } else if !n && !e {
            assert(f =~= seq![Field::Name, Field::Email]);
        } else if !n && !a {
            assert(f =~= seq![Field::Name, Field::Age]);
        } else if !e && !a {
            assert(f =~= seq![Field::Email, Field::Age]);
        }
    }
}

/// UTF-16 lengths add up: the code units of two texts put together are
/// those of each. A character of the basic multilingual plane takes one
/// code unit and any other character two.
pub proof fn lemma_utf16_len_concat(a: Seq<char>, b: Seq<char>)
    ensures
        utf16_len(a + b) == utf16_len(a) + utf16_len(b),
        forall|c: char| (c as u32) < 0x10000 ==> #[trigger] utf16_len(seq![c]) == 1,
        forall|c: char| (c as u32) >= 0x10000 ==> #[trigger] utf16_len(seq![c]) == 2,
    decreases b.len(),
{
    assert forall|c: char| #[trigger] utf16_len(seq![c]) == utf16_units(c) by {
        assert(seq![c].drop_last() =~= Seq::<char>::empty());
        assert(utf16_len(Seq::<char>::empty()) == 0);
        assert(seq![c].last() == c);
    }
    if b.len() == 0 {
        assert(a + b =~= a);
    } else {
        lemma_utf16_len_concat(a, b.drop_last());
        assert((a + b).drop_last() =~= a + b.drop_last());
    }
}

} // verus!
