//! A verified model of a client-side registration form.
//!
//! The form holds four free-form text fields, an optional validation error
//! and a flag recording a successful submission. The crate states the
//! validation policy and the form's transitions as mathematical functions
//! and proves that the executable code computes exactly those.
//!
//! - [`validation`] holds the policy: the ordered checks and their errors.
//! - [`model`] holds the form as a state machine over mathematical values,
//!   together with the laws that its transitions obey.
//! - [`form`] holds the executable form, whose every operation is proved
//!   to follow the model.
//! - [`text`] holds the text measures that the policy relies on.

pub mod form;
pub mod model;
pub mod text;
pub mod validation;

pub use form::{Event, Registration, RegistrationForm};
pub use model::{Field, Screen};
pub use validation::{validate, ValidationError, MIN_PASSWORD_LEN};
