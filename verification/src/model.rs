//! The typed values exchanged with callers: questions projected from remote
//! objects, and answers submitted back to them.

use vstd::prelude::*;
use std::collections::HashMap;

verus! {

/// The generic fields every question carries, read from the generic
/// question interface.
pub struct GenericQuestion {
    pub id: u32,
    pub class: String,
    pub text: String,
    pub options: Vec<String>,
    pub default_option: String,
    pub data: HashMap<String, String>,
}

/// The extension a question carries when its object also advertises the
/// password-capable interface.
pub struct QuestionWithPassword {
    pub password: String,
}

/// A question projected from one remote object: the generic fields, plus
/// the password extension exactly when the object advertises the
/// password-capable interface.
pub struct Question {
    pub generic: GenericQuestion,
    pub with_password: Option<QuestionWithPassword>,
}

/// The field answering the generic part of a question.
pub struct GenericAnswer {
    pub answer: String,
}

/// The field answering the password extension of a question.
pub struct PasswordAnswer {
    pub password: String,
}

/// An answer to a question: a mandatory generic answer, and a password
/// part present exactly when the target question carries the extension.
pub struct Answer {
    pub generic: GenericAnswer,
    pub with_password: Option<PasswordAnswer>,
}

impl GenericQuestion {
    /// A generic question is well formed when its default option is empty
    /// or is one of its options.
    pub open spec fn wf(&self) -> bool {
        self.default_option@.len() == 0 || exists|i: int|
            0 <= i < self.options@.len() && self.options@[i]@ == self.default_option@
    }

    /// Decides whether the default option is empty or one of the options.
    pub fn default_option_valid(&self) -> (r: bool)
        ensures
            r == self.wf(),
    {
        if self.default_option.as_str().is_empty() {
            return true;
        }
        let mut k: usize = 0;
        while k < self.options.len()
            invariant
                0 <= k <= self.options@.len(),
                forall|i: int| 0 <= i < k ==> self.options@[i]@ != self.default_option@,
            decreases self.options@.len() - k,
        {
            if self.options[k] == self.default_option {
                return true;
            }
            k += 1;
        }
        false
    }
}

impl Answer {
    /// Decides whether this answer fits the shape of `q`: it carries a
    /// password part exactly when the question carries the extension.
    pub fn matches_question(&self, q: &Question) -> (r: bool)
        ensures
            r == (self.with_password is Some <==> q.with_password is Some),
    {
        self.with_password.is_some() == q.with_password.is_some()
    }
}

impl Question {
    /// Assembles the projection of an object that advertises only the
    /// generic interface: the fields are exactly the property values read
    /// from it, and no password extension is attached.
    pub fn from_generic_parts(
        id: u32,
        class: String,
        text: String,
        options: Vec<String>,
        default_option: String,
        data: HashMap<String, String>,
    ) -> (q: Question)
        ensures
            q.generic.id == id,
            q.generic.class == class,
            q.generic.text == text,
            q.generic.options == options,
            q.generic.default_option == default_option,
            q.generic.data == data,
            q.with_password is None,
    {
        Question {
            generic: GenericQuestion { id, class, text, options, default_option, data },
            with_password: None,
        }
    }

    /// Attaches the password extension read from the password-capable
    /// interface, leaving the generic fields untouched.
    pub fn attach_password(&mut self, password: String)
        ensures
            final(self).generic == old(self).generic,
            final(self).with_password == Some(QuestionWithPassword { password }),
    {
        self.with_password = Some(QuestionWithPassword { password });
    }
}

} // verus!
