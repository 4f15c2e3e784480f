//! The kinds of rejection.

use vstd::prelude::*;

verus! {

/// Why a transaction was rejected.
#[derive(Clone, Copy, Debug, PartialEq, Eq, Structural)]
pub enum Error {
    /// The identity tag is wrong, empty or differs from the consumed one.
    InvalidArgument,
    /// The consumed side does not hold exactly one record.
    InvalidInput,
    /// The produced side does not hold exactly one record.
    InvalidOutput,
    /// A payload has the wrong length, counter range or self-check byte.
    MalformedRecord,
    /// The counter did not advance by the rule, or did not start at zero.
    InvalidTransition,
    /// A record that had to be present is absent.
    RecordNotFound,
}

impl Error {
    /// The failure code under which the host sees this kind of rejection.
    pub open spec fn spec_code(self) -> i8 {
        match self {
            Error::InvalidArgument => 5,
            Error::InvalidInput => 6,
            Error::InvalidOutput => 7,
            Error::InvalidTransition => 8,
            Error::MalformedRecord => 9,
            Error::RecordNotFound => 10,
        }
    }

    /// The failure code under which the host sees this kind of rejection.
    #[verifier::when_used_as_spec(spec_code)]
    pub fn code(self) -> (code: i8)
        ensures
            code == self.spec_code(),
    {
        match self {
            Error::InvalidArgument => 5,
            Error::InvalidInput => 6,
            Error::InvalidOutput => 7,
            Error::InvalidTransition => 8,
            Error::MalformedRecord => 9,
            Error::RecordNotFound => 10,
        }
    }

    /// No kind of rejection is reported as success, and two kinds never share
    /// a failure code.
    pub proof fn lemma_codes_distinguish(a: Error, b: Error)
        ensures
            a.spec_code() != 0,
            a.spec_code() == b.spec_code() ==> a == b,
    {
    }
}

/// Why the identity tag of a record was not accepted.
#[derive(Clone, Copy, Debug, PartialEq, Eq, Structural)]
pub enum IdentityError {
    /// The tag differs from the value it is bound to.
    IdentityMismatch,
    /// The tag is empty.
    EmptyIdentity,
    /// No consumed entry carries the record, or the one that does has no tag.
    RecordNotFound,
}

impl IdentityError {
    /// The kind of rejection that this failure leads to.
    pub open spec fn spec_kind(self) -> Error {
        match self {
            IdentityError::IdentityMismatch => Error::InvalidArgument,
            IdentityError::EmptyIdentity => Error::InvalidArgument,
            IdentityError::RecordNotFound => Error::RecordNotFound,
        }
    }

    /// The kind of rejection that this failure leads to.
    #[verifier::when_used_as_spec(spec_kind)]
    pub fn kind(self) -> (kind: Error)
        ensures
            kind == self.spec_kind(),
    {
        match self {
            IdentityError::IdentityMismatch => Error::InvalidArgument,
            IdentityError::EmptyIdentity => Error::InvalidArgument,
            IdentityError::RecordNotFound => Error::RecordNotFound,
        }
    }
}

} // verus!
