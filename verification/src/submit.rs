//! Planning an answer submission: which remote property writes to perform,
//! against which object, and in which order.
//!
//! The generic `answer` write is the action that signals "answered" to the
//! remote side, so when the answer carries a password it must be written
//! first: the plan places the password write strictly before the answer
//! write. When the answer carries no password, the password property is
//! left untouched.

use vstd::prelude::*;
use crate::model::Answer;
use crate::path::{question_path, question_path_chars};

verus! {

/// One remote property write, addressed to the object at `path`.
pub enum WriteOp {
    /// Writes `value` to the password property of the password-capable
    /// interface.
    SetPassword { path: String, value: String },
    /// Writes `value` to the answer property of the generic interface.
    SetAnswer { path: String, value: String },
}

/// Whether `op` writes `value` to the password property of the question
/// object with identity `id`.
pub open spec fn writes_password(op: WriteOp, id: u32, value: Seq<char>) -> bool {
    match op {
        WriteOp::SetPassword { path, value: v } => path@ == question_path_chars(id) && v@
            == value,
        WriteOp::SetAnswer { .. } => false,
    }
}

/// Whether `op` writes `value` to the answer property of the question
/// object with identity `id`.
pub open spec fn writes_answer(op: WriteOp, id: u32, value: Seq<char>) -> bool {
    match op {
        WriteOp::SetAnswer { path, value: v } => path@ == question_path_chars(id) && v@ == value,
        WriteOp::SetPassword { .. } => false,
    }
}

/// Whether every password write in `plan` stands strictly before every
/// answer write.
pub open spec fn passwords_precede_answers(plan: Seq<WriteOp>) -> bool {
    forall|i: int, j: int|
        0 <= i < plan.len() && 0 <= j < plan.len() && plan[i] is SetAnswer
            && plan[j] is SetPassword ==> j < i
}

/// Plans the writes that submit `answer` to the question with identity
/// `id`: the password write, if the answer carries one, strictly followed
/// by the generic answer write, both addressed to the object at
/// `<root>/<id>`. An answer without a password plans no password write.
pub fn submission_plan(id: u32, answer: &Answer) -> (plan: Vec<WriteOp>)
    ensures
        passwords_precede_answers(plan@),
        match answer.with_password {
            Some(pw) => plan@.len() == 2 && writes_password(plan@[0], id, pw.password@)
                && writes_answer(plan@[1], id, answer.generic.answer@),
            None => plan@.len() == 1 && writes_answer(plan@[0], id, answer.generic.answer@),
        },
{
    let mut plan: Vec<WriteOp> = Vec::new();
    if let Some(pw) = &answer.with_password {
        plan.push(WriteOp::SetPassword { path: question_path(id), value: pw.password.clone() });
    }
    plan.push(WriteOp::SetAnswer { path: question_path(id), value: answer.generic.answer.clone() });
    plan
}

/// Law: for every identity and every answer that carries a password, the
/// planned password write stands strictly before the planned answer write.
pub proof fn lemma_password_written_first(plan: Seq<WriteOp>, id: u32, answer: Answer)
    requires
        answer.with_password is Some,
        plan.len() == 2,
        writes_password(plan[0], id, answer.with_password->0.password@),
        writes_answer(plan[1], id, answer.generic.answer@),
    ensures
        forall|i: int, j: int|
            0 <= i < plan.len() && 0 <= j < plan.len() && plan[i] is SetPassword
                && plan[j] is SetAnswer ==> i < j,
{
}

} // verus!
