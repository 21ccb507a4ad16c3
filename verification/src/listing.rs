//! Listing the pending questions: classify every enumerated object, then
//! require every projection to have succeeded before handing out a result.
//!
//! The listing holds no cache: it is a pure function of the enumeration
//! snapshot and of the property values projected from each object on this
//! very call. If projecting any single object fails — a vanished object is
//! the common case — the whole listing fails; no partial, best-effort
//! sequence is ever returned.

use vstd::prelude::*;
use crate::classify::{classify, spec_classify, Variant};
use crate::error::QuestionsError;
use crate::model::{GenericQuestion, Question, QuestionWithPassword};

verus! {

/// Classifies every enumerated object: for each `(path, interfaces)` pair
/// of the snapshot, in order, the same path and the shape that its
/// advertised interfaces dictate.
#[verifier::loop_isolation(false)]
pub fn plan_projections(objects: &Vec<(String, Vec<String>)>) -> (plan: Vec<(String, Variant)>)
    ensures
        plan@.len() == objects@.len(),
        forall|i: int| 0 <= i < objects@.len() ==> (#[trigger] plan@[i]).0 == objects@[i].0,
        forall|i: int|
            0 <= i < objects@.len() ==> (#[trigger] plan@[i]).1 == spec_classify(objects@[i].1@),
{
    let mut plan: Vec<(String, Variant)> = Vec::new();
    let mut k: usize = 0;
    while k < objects.len()
        invariant
            0 <= k <= objects@.len(),
            plan@.len() == k,
            forall|i: int| 0 <= i < k ==> (#[trigger] plan@[i]).0 == objects@[i].0,
            forall|i: int| 0 <= i < k ==> (#[trigger] plan@[i]).1 == spec_classify(objects@[i].1@),
        decreases objects@.len() - k,
    {
        let (path, interfaces) = &objects[k];
        let v = classify(interfaces);
        plan.push((path.clone(), v));
        k += 1;
    }
    plan
}

/// Projects one object into a question of the shape its classification
/// dictates: the generic fields are the property values read from the
/// generic interface, and the password extension is attached — carrying the
/// value read from the password interface — exactly for the password shape.
pub fn project(variant: Variant, generic: GenericQuestion, password: Option<String>) -> (q:
    Question)
    requires
        password is Some <==> variant is GenericWithPassword,
    ensures
        q.generic == generic,
        q.with_password is Some <==> variant is GenericWithPassword,
        variant is GenericWithPassword ==> q.with_password == Some(
            QuestionWithPassword { password: password->0 },
        ),
{
    let mut q = Question { generic, with_password: None };
    if let Some(p) = password {
        q.attach_password(p);
    }
    q
}

/// Whether every projection in the snapshot succeeded.
pub open spec fn all_projected(results: Seq<Result<Question, QuestionsError>>) -> bool {
    forall|i: int| 0 <= i < results.len() ==> results[i] is Ok
}

/// Whether the projection at position `i` is the first failure of the
/// snapshot and `e` is its error.
pub open spec fn first_failure(
    results: Seq<Result<Question, QuestionsError>>,
    i: int,
    e: QuestionsError,
) -> bool {
    &&& 0 <= i < results.len()
    &&& results[i] is Err
    &&& e == results[i]->Err_0
    &&& forall|j: int| 0 <= j < i ==> results[j] is Ok
}

/// Whether `e` is the error of the first failed projection of the snapshot.
pub open spec fn is_first_failure(
    results: Seq<Result<Question, QuestionsError>>,
    e: QuestionsError,
) -> bool {
    exists|i: int| first_failure(results, i, e)
}

/// Joins the per-object projection outcomes into one listing outcome:
/// the questions in enumeration order when every projection succeeded,
/// and the first projection failure otherwise — never a partial sequence.
#[verifier::loop_isolation(false)]
pub fn collect_questions(results: Vec<Result<Question, QuestionsError>>) -> (r: Result<
    Vec<Question>,
    QuestionsError,
>)
    ensures
        r is Ok <==> all_projected(results@),
        r is Ok ==> r->Ok_0@.len() == results@.len() && forall|i: int|
            0 <= i < results@.len() ==> r->Ok_0@[i] == results@[i]->Ok_0,
        r is Err ==> is_first_failure(results@, r->Err_0),
{
    let ghost all = results@;
    let mut rest = results;
    let mut questions: Vec<Question> = Vec::new();
    let mut k: usize = 0;
    proof {
        assert(all.subrange(0, all.len() as int) =~= all);
        assert(all.len() <= usize::MAX) by {
            assert(rest.len() == all.len());
        }
    }
    while rest.len() > 0
        invariant
            0 <= k,
            all.len() <= usize::MAX,
            k + rest@.len() == all.len(),
            rest@ =~= all.subrange(k as int, all.len() as int),
            questions@.len() == k,
            forall|i: int| 0 <= i < k ==> #[trigger] all[i] is Ok,
            forall|i: int| 0 <= i < k ==> #[trigger] questions@[i] == all[i]->Ok_0,
        decreases rest@.len(),
    {
        let next = rest.remove(0);
        proof {
            assert(next == all[k as int]);
        }
        match next {
            Ok(q) => {
                questions.push(q);
            },
            Err(e) => {
                proof {
                    assert(!(all[k as int] is Ok));
                    assert(is_first_failure(all, e)) by {
                        assert(first_failure(all, k as int, e));
                    }
                }
                return Err(e);
            },
        }
        k += 1;
        proof {
            assert(rest@ =~= all.subrange(k as int, all.len() as int));
        }
    }
    proof {
        assert(all_projected(all));
    }
    Ok(questions)
}

} // verus!
