//! Validation of staged credential rows before they are written: the email
//! field must be a well-formed address.
use vstd::prelude::*;

use crate::model::{Staged, StagedUserAuth};

verus! {

/// Whether a string is a well-formed email address, as the outside email
/// check judges it. The verdict depends on the characters alone.
pub uninterp spec fn is_valid_email(s: Seq<char>) -> bool;

/// Relies on validator's `ValidateEmail::validate_email` for `String`: an
/// HTML5-style well-formedness check of the address, a function of the
/// characters alone.
#[verifier::external_body]
fn check_email(s: &String) -> (r: bool)
    ensures
        r == is_valid_email(s@),
{
    validator::ValidateEmail::validate_email(s)
}

/// The validation shape extracted from a staged credential row: the fields
/// the pre-write validation looks at.
#[derive(Debug, Clone, PartialEq, Eq)]
pub struct Validator {
    pub email: String,
}

impl Validator {
    /// Whether the staged email is a well-formed address.
    pub fn validate(&self) -> (r: bool)
        ensures
            r == is_valid_email(self.email@),
    {
        check_email(&self.email)
    }
}

impl StagedUserAuth {
    /// Extracts the validation shape of this staged row. The email field must
    /// hold a value: a row staged without one has nothing to validate.
    pub fn validator(&self) -> (v: Validator)
        requires
            !(self@.email is NotSet),
        ensures
            v.email@ == self@.email.value(),
    {
        match &self.email {
            Staged::Changed(e) => Validator { email: e.clone() },
            Staged::Unchanged(e) => Validator { email: e.clone() },
            Staged::NotSet => vstd::pervasive::unreached(),
        }
    }
}

} // verus!
