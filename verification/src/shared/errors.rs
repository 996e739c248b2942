//! Errors raised by the domain rules and by persistence.

use vstd::prelude::*;

verus! {

/// Errors originating from domain business rule violations.
#[derive(Debug)]
pub enum DomainError {
    InvalidSchedule,
    InvalidCapacity,
    NegativePrice,
    InvalidQuota,
    QuotaExceedsCapacity,
    InvalidSalesPeriod,
    InvalidStatusTransition(String),
    PaymentDeadlinePassed,
    PaymentAmountMismatch,
    AlreadyCheckedIn,
    TicketEventMismatch,
    CheckedInTicketRefundDenied,
    RejectionReasonRequired,
    RefundNotRequested,
    RefundNotApproved,
    CurrencyMismatch,
    NegativeMoney,
    BusinessRule(String),
}

/// Errors originating from repository operations (persistence layer).
#[derive(Debug)]
pub enum RepoError {
    Database(String),
    NotFound,
}

/// Text followed by another text.
pub(crate) fn joined(prefix: &str, rest: &str) -> (r: String)
    ensures
        r@ == prefix@ + rest@,
{
    let mut text = String::from_str(prefix);
    text.append(rest);
    text
}

impl DomainError {
    /// The message that reports the error.
    pub open spec fn message_text(self) -> Seq<char> {
        match self {
            DomainError::InvalidSchedule => "End date must be after start date"@,
            DomainError::InvalidCapacity => "Capacity must be greater than zero"@,
            DomainError::NegativePrice => "Ticket price cannot be negative"@,
            DomainError::InvalidQuota => "Ticket quota must be greater than zero"@,
            DomainError::QuotaExceedsCapacity => "Total category quota exceeds event capacity"@,
            DomainError::InvalidSalesPeriod => "Sales end date must be on or before event start date"@,
            DomainError::PaymentDeadlinePassed => "Payment deadline has passed"@,
            DomainError::PaymentAmountMismatch => "Payment amount does not match booking total"@,
            DomainError::AlreadyCheckedIn => "Ticket has already been checked in"@,
            DomainError::TicketEventMismatch => "Ticket does not match this event"@,
            DomainError::CheckedInTicketRefundDenied => "Refund cannot be requested: a ticket has already been checked in"@,
            DomainError::RejectionReasonRequired => "Rejection reason is required"@,
            DomainError::RefundNotRequested => "Refund is not in Requested status"@,
            DomainError::RefundNotApproved => "Refund is not in Approved status"@,
            DomainError::CurrencyMismatch => "Money amounts have different currencies"@,
            DomainError::NegativeMoney => "Money amount cannot be negative"@,
            DomainError::InvalidStatusTransition(m) => "Invalid status transition: "@ + m@,
            DomainError::BusinessRule(m) => m@,
        }
    }

    /// The message that reports the error.
    pub fn message(&self) -> (r: String)
        ensures
            r@ == self.message_text(),
    {
        match self {
            DomainError::InvalidSchedule => String::from_str("End date must be after start date"),
            DomainError::InvalidCapacity => String::from_str("Capacity must be greater than zero"),
            DomainError::NegativePrice => String::from_str("Ticket price cannot be negative"),
            DomainError::InvalidQuota => String::from_str("Ticket quota must be greater than zero"),
            DomainError::QuotaExceedsCapacity => String::from_str("Total category quota exceeds event capacity"),
            DomainError::InvalidSalesPeriod => String::from_str("Sales end date must be on or before event start date"),
            DomainError::PaymentDeadlinePassed => String::from_str("Payment deadline has passed"),
            DomainError::PaymentAmountMismatch => String::from_str("Payment amount does not match booking total"),
            DomainError::AlreadyCheckedIn => String::from_str("Ticket has already been checked in"),
            DomainError::TicketEventMismatch => String::from_str("Ticket does not match this event"),
            DomainError::CheckedInTicketRefundDenied => String::from_str("Refund cannot be requested: a ticket has already been checked in"),
            DomainError::RejectionReasonRequired => String::from_str("Rejection reason is required"),
            DomainError::RefundNotRequested => String::from_str("Refund is not in Requested status"),
            DomainError::RefundNotApproved => String::from_str("Refund is not in Approved status"),
            DomainError::CurrencyMismatch => String::from_str("Money amounts have different currencies"),
            DomainError::NegativeMoney => String::from_str("Money amount cannot be negative"),
            DomainError::InvalidStatusTransition(m) => joined(
                "Invalid status transition: ",
                m.as_str(),
            ),
            DomainError::BusinessRule(m) => m.clone(),
        }
    }
}

impl RepoError {
    /// The message that reports the error.
    pub open spec fn message_text(self) -> Seq<char> {
        match self {
            RepoError::Database(m) => "Database error: "@ + m@,
            RepoError::NotFound => "Entity not found"@,
        }
    }

    /// The message that reports the error.
    pub fn message(&self) -> (r: String)
        ensures
            r@ == self.message_text(),
    {
        match self {
            RepoError::Database(m) => joined("Database error: ", m.as_str()),
            RepoError::NotFound => String::from_str("Entity not found"),
        }
    }
}

} // verus!
