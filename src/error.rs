//! Errors that the library's operations report.
use vstd::prelude::*;

verus! {

/// The kind of record that a request referred to.
#[derive(Clone, Copy, Debug, PartialEq, Eq, Structural)]
pub enum Reference {
    Client,
    Membership,
}

/// Why a subscription cannot be used for attendance.
#[derive(Clone, Copy, Debug, PartialEq, Eq, Structural)]
pub enum InvalidReason {
    NotActive,
    NoRemainingClasses,
    Expired,
}

/// Errors of the subscription and catalog rules.
#[derive(Clone, Copy, Debug, PartialEq, Eq, Structural)]
pub enum ValidationError {
    /// The referenced client or membership plan is missing or inactive.
    InvalidReference(Reference),
    /// The requested record does not exist.
    NotFound,
    /// The subscription is inactive, exhausted or past its expiry.
    SubscriptionInvalid(InvalidReason),
    /// Attendance was already recorded for the subscription on this calendar day.
    DuplicateAttendance,
    /// A class count or an instant would leave its representable range.
    OutOfRange,
}

/// Errors of authentication and authorization.
#[derive(Clone, Copy, Debug, PartialEq, Eq, Structural)]
pub enum AuthError {
    /// No bearer credential was presented.
    MissingToken,
    /// The credential failed signature, expiry or format checks.
    InvalidToken,
    /// A token of the wrong kind was presented.
    InvalidTokenType,
    /// The authenticated role is not among the roles the route requires.
    Forbidden,
    /// The username is unknown or the password does not match.
    InvalidCredentials,
    /// The password could not be hashed.
    HashingFailed,
}

impl InvalidReason {
    /// A human-readable description of the reason.
    pub fn message(&self) -> (r: String)
        ensures
            r@ == invalid_reason_text(*self),
    {
        match self {
            InvalidReason::NotActive => String::from_str("Subscription is not active"),
            InvalidReason::NoRemainingClasses => String::from_str("No remaining classes"),
            InvalidReason::Expired => String::from_str("Subscription expired"),
        }
    }
}

/// The text that describes each reason.
pub open spec fn invalid_reason_text(r: InvalidReason) -> Seq<char> {
    match r {
        InvalidReason::NotActive => "Subscription is not active"@,
        InvalidReason::NoRemainingClasses => "No remaining classes"@,
        InvalidReason::Expired => "Subscription expired"@,
    }
}

} // verus!
