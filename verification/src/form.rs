//! The executable form, proved to follow the state machine of
//! [`crate::model`].

use vstd::prelude::*;
use crate::model::{Field, FormEvent, FormState, RegistrationData, Screen};
use crate::validation::{validate, ValidationError};

verus! {

/// The four values handed on by an accepted submission, exactly as they
/// were entered.
#[derive(Debug, PartialEq, Eq)]
pub struct Registration {
    pub first_name: String,
    pub last_name: String,
    pub email: String,
    pub password: String,
}

impl View for Registration {
    type V = RegistrationData;

    open spec fn view(&self) -> RegistrationData {
        RegistrationData {
            first_name: self.first_name@,
            last_name: self.last_name@,
            email: self.email@,
            password: self.password@,
        }
    }
}

impl Clone for Registration {
    fn clone(&self) -> (copy: Registration)
        ensures
            copy@ == self@,
    {
        Registration {
            first_name: self.first_name.clone(),
            last_name: self.last_name.clone(),
            email: self.email.clone(),
            password: self.password.clone(),
        }
    }
}

impl Registration {
    /// The text written to the diagnostic log for this registration.
    pub fn log_message(&self) -> (text: String)
        ensures
            text@ == self@.log_text(),
    {
        let mut text = String::from_str("First Name: ");
        text.append(self.first_name.as_str());
        text.append("\nLast Name: ");
        text.append(self.last_name.as_str());
        text.append("\nEmail: ");
        text.append(self.email.as_str());
        text.append("\nPassword: ");
        text.append(self.password.as_str());
        text
    }
}

/// The data that an emitted registration stands for, if there is one.
pub open spec fn emitted_data(emitted: Option<Registration>) -> Option<RegistrationData> {
    match emitted {
        Some(registration) => Some(registration@),
        None => None,
    }
}

/// An event delivered to the form.
#[derive(Debug, PartialEq, Eq)]
pub enum Event {
    /// The user changed `field` to `value`.
    Edit { field: Field, value: String },
    /// The user asked to submit the form.
    Submit,
}

impl View for Event {
    type V = FormEvent;

    open spec fn view(&self) -> FormEvent {
        match self {
            Event::Edit { field, value } => FormEvent::Edit { field: *field, value: value@ },
            Event::Submit => FormEvent::Submit,
        }
    }
}

impl Clone for Event {
    fn clone(&self) -> (copy: Event)
        ensures
            copy@ == self@,
    {
        match self {
            Event::Edit { field, value } => Event::Edit { field: *field, value: value.clone() },
            Event::Submit => Event::Submit,
        }
    }
}

/// A registration form: four text fields, the error of the last rejected
/// submission, and whether a submission has been accepted.
#[derive(Debug, PartialEq, Eq)]
pub struct RegistrationForm {
    first_name: String,
    last_name: String,
    email: String,
    password: String,
    form_error: Option<ValidationError>,
    submitted: bool,
}

impl View for RegistrationForm {
    type V = FormState;

    closed spec fn view(&self) -> FormState {
        FormState {
            first_name: self.first_name@,
            last_name: self.last_name@,
            email: self.email@,
            password: self.password@,
            error: self.form_error,
            submitted: self.submitted,
        }
    }
}

impl Clone for RegistrationForm {
    fn clone(&self) -> (copy: RegistrationForm)
        ensures
            copy@ == self@,
    {
        RegistrationForm {
            first_name: self.first_name.clone(),
            last_name: self.last_name.clone(),
            email: self.email.clone(),
            password: self.password.clone(),
            form_error: self.form_error,
            submitted: self.submitted,
        }
    }
}

impl RegistrationForm {
    /// A fresh form: every field empty, no error, not submitted.
    pub fn new() -> (form: RegistrationForm)
        ensures
            form@ == FormState::initial(),
    {
        RegistrationForm {
            first_name: String::new(),
            last_name: String::new(),
            email: String::new(),
            password: String::new(),
            form_error: None,
            submitted: false,
        }
    }

    /// Stores `value` in `field`, exactly as given. Nothing is validated and
    /// neither the error nor the `submitted` flag changes.
    pub fn on_field_change(&mut self, field: Field, value: String)
        ensures
            final(self)@ == old(self)@.edit(field, value@),
    {
        match field {
            Field::FirstName => {
                self.first_name = value;
            },
            Field::LastName => {
                self.last_name = value;
            },
            Field::Email => {
                self.email = value;
            },
            Field::Password => {
                self.password = value;
            },
        }
    }

    /// Runs the validation policy on the current field values. A rejected
    /// submission leaves its error behind and emits nothing. An accepted one
    /// clears the error, marks the form as submitted and emits the four
    /// values for the diagnostic log.
    pub fn on_submit(&mut self) -> (emitted: Option<Registration>)
        ensures
            final(self)@ == old(self)@.submit(),
            emitted_data(emitted) == old(self)@.emitted(),
    {
        match validate(
            self.first_name.as_str(),
            self.last_name.as_str(),
            self.email.as_str(),
            self.password.as_str(),
        ) {
            Err(error) => {
                self.form_error = Some(error);
                None
            },
            Ok(()) => {
                self.form_error = None;
                self.submitted = true;
                Some(
                    Registration {
                        first_name: self.first_name.clone(),
                        last_name: self.last_name.clone(),
                        email: self.email.clone(),
                        password: self.password.clone(),
                    },
                )
            },
        }
    }

    /// Delivers one event to the form and returns what it emits.
    pub fn handle(&mut self, event: Event) -> (emitted: Option<Registration>)
        ensures
            final(self)@ == old(self)@.step(event@),
            emitted_data(emitted) == old(self)@.output(event@),
    {
        match event {
            Event::Edit { field, value } => {
                self.on_field_change(field, value);
                None
            },
            Event::Submit => self.on_submit(),
        }
    }

    /// The text currently held by `field`.
    pub fn value(&self, field: Field) -> (text: &str)
        ensures
            text@ == self@.field(field),
    {
        match field {
            Field::FirstName => self.first_name.as_str(),
            Field::LastName => self.last_name.as_str(),
            Field::Email => self.email.as_str(),
            Field::Password => self.password.as_str(),
        }
    }

    /// The error left by the most recent submission, if it was rejected.
    pub fn error(&self) -> (error: Option<ValidationError>)
        ensures
            error == self@.error,
    {
        self.form_error
    }

    /// The text of the error banner, if there is an error to show.
    pub fn error_message(&self) -> (message: Option<String>)
        ensures
            match message {
                Some(text) => self@.error matches Some(error) && text@ == error.message_text(),
                None => self@.error is None,
            },
    {
        match self.form_error {
            Some(error) => Some(error.message()),
            None => None,
        }
    }

    /// Whether a submission has been accepted.
    pub fn is_submitted(&self) -> (submitted: bool)
        ensures
            submitted == self@.submitted,
    {
        self.submitted
    }

    /// What the form shows now.
    pub fn screen(&self) -> (screen: Screen)
        ensures
            screen == self@.screen(),
    {
        if self.submitted {
            Screen::Success
        } else {
            Screen::Editing { error: self.form_error }
        }
    }
}

} // verus!
