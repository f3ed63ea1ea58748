//! What the service sends back about stored samples.

use crate::id::SampleId;
use crate::sample::Sample;
use vstd::prelude::*;

verus! {

/// One sample as the service shows it.
#[derive(Debug, PartialEq, Eq)]
pub struct SampleResponse {
    pub id: SampleId,
    pub name: String,
    pub email: String,
    pub age: i16,
}

/// The response that shows the sample `s`, field for field.
pub open spec fn response_of(s: Sample) -> SampleResponse {
    SampleResponse { id: s.id, name: s.name, email: s.email, age: s.age }
}

/// The responses that show the samples `s`, one for each, in order.
pub open spec fn responses_of(s: Seq<Sample>) -> Seq<SampleResponse> {
    s.map_values(|x: Sample| response_of(x))
}

impl From<Sample> for SampleResponse {
    fn from(value: Sample) -> (r: Self) {
        let Sample { id, name, email, age } = value;
        Self { id, name, email, age }
    }
}

impl vstd::std_specs::convert::FromSpecImpl<Sample> for SampleResponse {
    open spec fn obeys_from_spec() -> bool {
        true
    }

    open spec fn from_spec(v: Sample) -> SampleResponse {
        response_of(v)
    }
}

/// A list of samples as the service shows it.
#[derive(Debug, PartialEq, Eq)]
pub struct SampleList {
    pub samples: Vec<SampleResponse>,
}

impl From<Vec<Sample>> for SampleList {
    fn from(value: Vec<Sample>) -> (r: Self)
        ensures
            r.samples@ == responses_of(value@),
    {
        let mut value = value;
        let ghost original = value@;
        let mut rev: Vec<SampleResponse> = Vec::new();
        while value.len() > 0
            invariant
                value@.len() <= original.len(),
                value@ =~= original.take(value@.len() as int),
                rev@ =~= original.skip(value@.len() as int).map_values(|x: Sample| response_of(x)).reverse(),
            decreases value.len(),
        {
            let ghost before = value@;
            let s = value.pop().unwrap();
            assert(s == original[before.len() - 1]);
            rev.push(SampleResponse::from(s));
            let ghost k = value@.len() as int;
            assert(original.skip(k) =~= seq![s] + original.skip(k + 1));
            assert(original.skip(k).map_values(|x: Sample| response_of(x))
                =~= seq![response_of(s)] + original.skip(k + 1).map_values(|x: Sample| response_of(x))) by {
                assert(original.skip(k)[0] == s);
            }
            assert(original.skip(k).map_values(|x: Sample| response_of(x)).reverse()
                =~= original.skip(k + 1).map_values(|x: Sample| response_of(x)).reverse().push(response_of(s)));
        }
        let mut samples: Vec<SampleResponse> = Vec::new();
        while rev.len() > 0
            invariant
                samples@ + rev@.reverse() =~= original.map_values(|x: Sample| response_of(x)),
            decreases rev.len(),
        {
            let ghost before = rev@;
            let r = rev.pop().unwrap();
            samples.push(r);
            assert(before.reverse() =~= seq![r] + rev@.reverse());
        }
        SampleList { samples }
    }
}

/// A `Vec` cannot be built inside a specification, so the list that `from`
/// returns is pinned down by the `ensures` of `from` itself, over the view of
/// its samples.
impl vstd::std_specs::convert::FromSpecImpl<Vec<Sample>> for SampleList {
    open spec fn obeys_from_spec() -> bool {
        false
    }

    open spec fn from_spec(v: Vec<Sample>) -> SampleList {
        choose|l: SampleList| l.samples@ == responses_of(v@)
    }
}

/// A response shows its sample field for field: the id, the name, the
/// e-mail and the age each stay in their own place, whatever the sample.
pub proof fn lemma_response_keeps_fields(s: Sample)
    ensures
        response_of(s).id == s.id,
        response_of(s).name == s.name,
        response_of(s).email == s.email,
        response_of(s).age == s.age,
        <SampleResponse as vstd::std_specs::convert::FromSpec<Sample>>::from_spec(s) == (SampleResponse {
            id: s.id,
            name: s.name,
            email: s.email,
            age: s.age,
        }),
{
}

/// The responses to a list of samples are one per sample, in the same
/// order, each showing its own sample's fields unchanged.
pub proof fn lemma_responses_keep_fields(s: Seq<Sample>)
    ensures
        responses_of(s).len() == s.len(),
        forall|i: int| 0 <= i < s.len() ==> #[trigger] responses_of(s)[i] == (SampleResponse {
            id: s[i].id,
            name: s[i].name,
            email: s[i].email,
            age: s[i].age,
        }),
{
}

} // verus!
