//! The form as a state machine over mathematical values.
//!
//! A [`FormState`] holds the four field texts, the error left by the last
//! submission and the `submitted` flag. Two kinds of event move it: an edit
//! of one field and a submission. What is shown follows from the state alone.

use vstd::prelude::*;
use crate::validation::{acceptable, any_empty, check, ValidationError, MIN_PASSWORD_LEN};

verus! {

/// One of the four text inputs.
#[derive(Clone, Copy, Debug, PartialEq, Eq, Structural)]
pub enum Field {
    FirstName,
    LastName,
    Email,
    Password,
}

/// What the form shows: one of three mutually exclusive screens.
#[derive(Clone, Copy, Debug, PartialEq, Eq)]
pub enum Screen {
    /// The four inputs, under an error banner exactly when `error` is present.
    Editing { error: Option<ValidationError> },
    /// The success banner alone; the inputs are no longer shown.
    Success,
}

/// The four values that a successful submission hands on.
pub struct RegistrationData {
    pub first_name: Seq<char>,
    pub last_name: Seq<char>,
    pub email: Seq<char>,
    pub password: Seq<char>,
}

impl RegistrationData {
    /// The diagnostic text of the collected data: one labelled line per
    /// value, joined by newlines, each value as it was entered.
    pub open spec fn log_text(self) -> Seq<char> {
        "First Name: "@ + self.first_name + "\nLast Name: "@ + self.last_name + "\nEmail: "@
            + self.email + "\nPassword: "@ + self.password
    }
}

/// An event that the form responds to.
pub enum FormEvent {
    /// The user changed `field` to `value`.
    Edit { field: Field, value: Seq<char> },
    /// The user asked to submit the form.
    Submit,
}

/// The state of the form.
pub struct FormState {
    pub first_name: Seq<char>,
    pub last_name: Seq<char>,
    pub email: Seq<char>,
    pub password: Seq<char>,
    /// The error of the most recent submission, if it was rejected.
    pub error: Option<ValidationError>,
    /// Whether some submission has been accepted.
    pub submitted: bool,
}

impl FormState {
    /// The state of a fresh form: every field empty, no error, not submitted.
    pub open spec fn initial() -> FormState {
        FormState {
            first_name: Seq::empty(),
            last_name: Seq::empty(),
            email: Seq::empty(),
            password: Seq::empty(),
            error: None,
            submitted: false,
        }
    }

    /// The text held by `field`.
    pub open spec fn field(self, field: Field) -> Seq<char> {
        match field {
            Field::FirstName => self.first_name,
            Field::LastName => self.last_name,
            Field::Email => self.email,
            Field::Password => self.password,
        }
    }

    /// The state after `field` was changed to `value`. The value is stored
    /// as it is; nothing is validated and nothing else changes.
    pub open spec fn edit(self, field: Field, value: Seq<char>) -> FormState {
        match field {
            Field::FirstName => FormState { first_name: value, ..self },
            Field::LastName => FormState { last_name: value, ..self },
            Field::Email => FormState { email: value, ..self },
            Field::Password => FormState { password: value, ..self },
        }
    }

    /// What the validation policy says of the current field values.
    pub open spec fn verdict(self) -> Option<ValidationError> {
        check(self.first_name, self.last_name, self.email, self.password)
    }

    /// The four field values as a submission would hand them on.
    pub open spec fn collected(self) -> RegistrationData {
        RegistrationData {
            first_name: self.first_name,
            last_name: self.last_name,
            email: self.email,
            password: self.password,
        }
    }

    /// The state after a submission: the verdict becomes the error, and an
    /// accepted submission sets `submitted`. The fields are left alone.
    pub open spec fn submit(self) -> FormState {
        FormState { error: self.verdict(), submitted: self.submitted || self.verdict() is None, ..self }
    }

    /// What a submission emits: the collected data when it is accepted,
    /// nothing when it is rejected.
    pub open spec fn emitted(self) -> Option<RegistrationData> {
        if self.verdict() is None {
            Some(self.collected())
        } else {
            None
        }
    }

    /// The state after one event.
    pub open spec fn step(self, event: FormEvent) -> FormState {
        match event {
            FormEvent::Edit { field, value } => self.edit(field, value),
            FormEvent::Submit => self.submit(),
        }
    }

    /// What one event emits: an edit emits nothing, a submission what
    /// [`FormState::emitted`] says.
    pub open spec fn output(self, event: FormEvent) -> Option<RegistrationData> {
        match event {
            FormEvent::Edit { .. } => None,
            FormEvent::Submit => self.emitted(),
        }
    }

    /// The state after a sequence of events, taken in order.
    pub open spec fn run(self, events: Seq<FormEvent>) -> FormState
        decreases events.len(),
    {
        if events.len() == 0 {
            self
        } else {
            self.run(events.drop_last()).step(events.last())
        }
    }

    /// What the form shows in this state.
    pub open spec fn screen(self) -> Screen {
        if self.submitted {
            Screen::Success
        } else {
            Screen::Editing { error: self.error }
        }
    }
}

/// An edit stores the new value in its field and touches nothing else: the
/// other fields, the error and the `submitted` flag stay as they were.
pub proof fn lemma_edit_changes_one_field(
    state: FormState,
    field: Field,
    value: Seq<char>,
    other: Field,
)
    ensures
        state.edit(field, value).field(field) == value,
        other != field ==> state.edit(field, value).field(other) == state.field(other),
        state.edit(field, value).error == state.error,
        state.edit(field, value).submitted == state.submitted,
{
}

/// A submission records the verdict as the error, sets `submitted` exactly
/// when it is accepted or was set before, emits data exactly when it is
/// accepted, and leaves every field as it was.
pub proof fn lemma_submit_records_verdict(state: FormState, field: Field)
    ensures
        state.submit().error == state.verdict(),
        state.submit().submitted == (state.submitted || state.verdict() is None),
        state.emitted() is Some <==> state.verdict() is None,
        state.submit().field(field) == state.field(field),
{
}

/// A submission with any field empty is rejected for the missing field,
/// whatever the other fields hold; nothing is emitted and `submitted` stays
/// as it was.
pub proof fn lemma_empty_field_rejected(state: FormState)
    requires
        any_empty(state.first_name, state.last_name, state.email, state.password),
    ensures
        state.verdict() == Some(ValidationError::MissingField),
        state.submit().error == Some(ValidationError::MissingField),
        state.submit().submitted == state.submitted,
        state.emitted() is None,
{
}

/// A submission with no field empty and an email without `@` is rejected
/// for the email; nothing is emitted and `submitted` stays as it was.
pub proof fn lemma_email_without_at_rejected(state: FormState)
    requires
        !any_empty(state.first_name, state.last_name, state.email, state.password),
        !state.email.contains('@'),
    ensures
        state.verdict() == Some(ValidationError::InvalidEmail),
        state.submit().error == Some(ValidationError::InvalidEmail),
        state.submit().submitted == state.submitted,
        state.emitted() is None,
{
}

/// A submission with no field empty, an email that holds `@` and a password
/// of fewer characters than the minimum is rejected for the password; nothing is emitted
/// and `submitted` stays as it was.
pub proof fn lemma_short_password_rejected(state: FormState)
    requires
        !any_empty(state.first_name, state.last_name, state.email, state.password),
        state.email.contains('@'),
        state.password.len() < MIN_PASSWORD_LEN,
    ensures
        state.verdict() == Some(ValidationError::WeakPassword),
        state.submit().error == Some(ValidationError::WeakPassword),
        state.submit().submitted == state.submitted,
        state.emitted() is None,
{
}

/// A submission whose values pass every check is accepted: the error is
/// cleared, `submitted` is set, the success screen is shown, and the four
/// values are emitted exactly as the fields hold them.
pub proof fn lemma_acceptable_submission_succeeds(state: FormState)
    requires
        acceptable(state.first_name, state.last_name, state.email, state.password),
    ensures
        state.verdict() is None,
        state.submit().error is None,
        state.submit().submitted,
        state.submit().screen() == Screen::Success,
        state.emitted() == Some(
            (RegistrationData {
                first_name: state.first_name,
                last_name: state.last_name,
                email: state.email,
                password: state.password,
            }),
        ),
{
}

/// The `submitted` flag is set by an accepted submission and by nothing
/// else: after one event it holds exactly when it held before or the event
/// was a submission that passed every check.
pub proof fn lemma_only_acceptance_sets_submitted(state: FormState, event: FormEvent)
    ensures
        state.step(event).submitted <==> state.submitted || (event is Submit && state.verdict()
            is None),
{
}

/// On a submitted form no event has a visible effect: after an edit or a
/// further submission the form is still submitted and still shows the
/// success screen, whatever the fields hold.
pub proof fn lemma_event_after_success_is_invisible(state: FormState, event: FormEvent)
    requires
        state.submitted,
    ensures
        state.step(event).submitted,
        state.step(event).screen() == state.screen(),
        state.screen() == Screen::Success,
{
}

/// Once a submission has been accepted the form stays submitted: whatever
/// events follow, edits or further submissions, the flag is never reset and
/// the success screen is the only thing shown.
pub proof fn lemma_submitted_is_terminal(state: FormState, events: Seq<FormEvent>)
    requires
        state.submitted,
    ensures
        state.run(events).submitted,
        state.run(events).screen() == Screen::Success,
    decreases events.len(),
{
    if events.len() > 0 {
        lemma_submitted_is_terminal(state, events.drop_last());
        lemma_event_after_success_is_invisible(state.run(events.drop_last()), events.last());
    }
}

} // verus!
