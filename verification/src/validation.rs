//! The validation policy applied when the form is submitted.
//!
//! The checks run in a fixed order and stop at the first failure, so every
//! rejected submission is reported under exactly one error.

use vstd::prelude::*;
use crate::text::{char_count, contains_char};

verus! {

/// The least number of characters that a password must have.
pub const MIN_PASSWORD_LEN: usize = 6;

/// Why a submission was rejected.
#[derive(Clone, Copy, Debug, PartialEq, Eq, Structural)]
pub enum ValidationError {
    /// At least one of the four fields is empty.
    MissingField,
    /// The email holds no `@`.
    InvalidEmail,
    /// The password has fewer than [`MIN_PASSWORD_LEN`] characters.
    WeakPassword,
}

impl ValidationError {
    /// The text shown to the user for this error.
    pub open spec fn message_text(self) -> Seq<char> {
        match self {
            ValidationError::MissingField => "All fields are required"@,
            ValidationError::InvalidEmail => "Please enter a valid email address"@,
            ValidationError::WeakPassword => "Password must be at least 6 characters"@,
        }
    }

    /// The text shown to the user for this error.
    pub fn message(&self) -> (text: String)
        ensures
            text@ == self.message_text(),
    {
        match self {
            ValidationError::MissingField => String::from_str("All fields are required"),
            ValidationError::InvalidEmail => String::from_str("Please enter a valid email address"),
            ValidationError::WeakPassword => String::from_str(
                "Password must be at least 6 characters",
            ),
        }
    }
}

/// Whether at least one of the four fields is empty.
pub open spec fn any_empty(
    first_name: Seq<char>,
    last_name: Seq<char>,
    email: Seq<char>,
    password: Seq<char>,
) -> bool {
    first_name.len() == 0 || last_name.len() == 0 || email.len() == 0 || password.len() == 0
}

/// The verdict of the policy on four field values: the first check that
/// fails, or `None` when all of them pass.
pub open spec fn check(
    first_name: Seq<char>,
    last_name: Seq<char>,
    email: Seq<char>,
    password: Seq<char>,
) -> Option<ValidationError> {
    if any_empty(first_name, last_name, email, password) {
        Some(ValidationError::MissingField)
    } else if !email.contains('@') {
        Some(ValidationError::InvalidEmail)
    } else if password.len() < MIN_PASSWORD_LEN {
        Some(ValidationError::WeakPassword)
    } else {
        None
    }
}

/// Whether the four field values pass every check.
pub open spec fn acceptable(
    first_name: Seq<char>,
    last_name: Seq<char>,
    email: Seq<char>,
    password: Seq<char>,
) -> bool {
    &&& !any_empty(first_name, last_name, email, password)
    &&& email.contains('@')
    &&& password.len() >= MIN_PASSWORD_LEN
}

/// The policy sorts every submission into exactly one class: each error is
/// reported on the inputs that pass the checks before it and fail its own,
/// and on no others; a submission is accepted when no check fails.
pub proof fn lemma_check_classifies(
    first_name: Seq<char>,
    last_name: Seq<char>,
    email: Seq<char>,
    password: Seq<char>,
)
    ensures
        check(first_name, last_name, email, password) == Some(ValidationError::MissingField)
            <==> any_empty(first_name, last_name, email, password),
        check(first_name, last_name, email, password) == Some(ValidationError::InvalidEmail) <==> {
            &&& !any_empty(first_name, last_name, email, password)
            &&& !email.contains('@')
        },
        check(first_name, last_name, email, password) == Some(ValidationError::WeakPassword) <==> {
            &&& !any_empty(first_name, last_name, email, password)
            &&& email.contains('@')
            &&& password.len() < MIN_PASSWORD_LEN
        },
        check(first_name, last_name, email, password) is None <==> acceptable(
            first_name,
            last_name,
            email,
            password,
        ),
{
}

/// Runs the policy on four field values: `Ok` exactly when every check
/// passes, and otherwise the error of the first check that fails. The values
/// are taken as they are: nothing is trimmed or normalised beforehand.
pub fn validate(first_name: &str, last_name: &str, email: &str, password: &str) -> (outcome: Result<
    (),
    ValidationError,
>)
    ensures
        match outcome {
            Ok(()) => check(first_name@, last_name@, email@, password@) is None,
            Err(error) => check(first_name@, last_name@, email@, password@) == Some(error),
        },
{
    if first_name.is_empty() || last_name.is_empty() || email.is_empty() || password.is_empty() {
        return Err(ValidationError::MissingField);
    }
    if !contains_char(email, '@') {
        return Err(ValidationError::InvalidEmail);
    }
    if char_count(password) < MIN_PASSWORD_LEN {
        return Err(ValidationError::WeakPassword);
    }
    Ok(())
}

} // verus!
