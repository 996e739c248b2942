//! Errors of the application layer.

use vstd::prelude::*;
use vstd::std_specs::convert::FromSpecImpl;

use crate::shared::errors::{joined, DomainError, RepoError};

verus! {

#[derive(Debug)]
pub enum ApplicationError {
    Domain(DomainError),
    Repository(RepoError),
    NotFound(String),
    PaymentFailed(String),
    RefundFailed(String),
    NotificationFailed(String),
}

pub type AppResult<T> = Result<T, ApplicationError>;

impl From<DomainError> for ApplicationError {
    fn from(err: DomainError) -> (r: Self) {
        ApplicationError::Domain(err)
    }
}

impl FromSpecImpl<DomainError> for ApplicationError {
    open spec fn obeys_from_spec() -> bool {
        true
    }

    open spec fn from_spec(v: DomainError) -> ApplicationError {
        ApplicationError::Domain(v)
    }
}

impl From<RepoError> for ApplicationError {
    fn from(err: RepoError) -> (r: Self) {
        ApplicationError::Repository(err)
    }
}

impl FromSpecImpl<RepoError> for ApplicationError {
    open spec fn obeys_from_spec() -> bool {
        true
    }

    open spec fn from_spec(v: RepoError) -> ApplicationError {
        ApplicationError::Repository(v)
    }
}

/// The item that a lookup found, or `NotFound` with the given message.
pub fn found_or<T>(item: Option<T>, message: &str) -> (r: AppResult<T>)
    ensures
        item matches Some(x) ==> r == Ok::<T, ApplicationError>(x),
        item is None ==> (r matches Err(ApplicationError::NotFound(m)) && m@ == message@),
{
    match item {
        Some(x) => Ok(x),
        None => Err(ApplicationError::NotFound(String::from_str(message))),
    }
}

impl ApplicationError {
    /// The message that reports the error.
    pub open spec fn message_text(self) -> Seq<char> {
        match self {
            ApplicationError::Domain(e) => "Domain error: "@ + e.message_text(),
            ApplicationError::Repository(e) => "Repository error: "@ + e.message_text(),
            ApplicationError::NotFound(m) => "Not found: "@ + m@,
            ApplicationError::PaymentFailed(m) => "Payment failed: "@ + m@,
            ApplicationError::RefundFailed(m) => "Refund processing failed: "@ + m@,
            ApplicationError::NotificationFailed(m) => "Notification failed: "@ + m@,
        }
    }

    /// The message that reports the error.
    pub fn message(&self) -> (r: String)
        ensures
            r@ == self.message_text(),
    {
        match self {
            ApplicationError::Domain(e) => joined("Domain error: ", e.message().as_str()),
            ApplicationError::Repository(e) => joined("Repository error: ", e.message().as_str()),
            ApplicationError::NotFound(m) => joined("Not found: ", m.as_str()),
            ApplicationError::PaymentFailed(m) => joined("Payment failed: ", m.as_str()),
            ApplicationError::RefundFailed(m) => joined("Refund processing failed: ", m.as_str()),
            ApplicationError::NotificationFailed(m) => joined("Notification failed: ", m.as_str()),
        }
    }
}

} // verus!
