//! The failures that a ledger operation can report.

use vstd::prelude::*;
use vstd::std_specs::convert::FromSpecImpl;

verus! {

/// The error type of the redis client, carried through as it is.
#[verifier::external_type_specification]
#[verifier::external_body]
pub struct ExRedisError(redis::RedisError);

/// The redis client's own description of `err`.
///
/// Trusted: the body calls `to_string` on a `redis::RedisError`, which writes
/// the error through its `Display`. The text depends on what the error holds,
/// which cannot be seen from here, so nothing is claimed of it.
#[verifier::external_body]
fn describe(err: &redis::RedisError) -> String {
    err.to_string()
}

/// Which account of a request a failure names.
#[derive(Debug, Clone, Copy, PartialEq, Eq, Structural)]
pub enum Party {
    /// The one account of a get or alter request.
    User,
    /// The account that a transfer debits.
    FromUser,
    /// The account that a transfer credits.
    ToUser,
}

/// A failed ledger operation. The first three are definitive; a storage error or
/// a conflict says that the store, not the request, stood in the way.
#[derive(Debug, PartialEq, Eq)]
pub enum LedgerError {
    /// The named account does not exist.
    NotFound(Party),
    /// The operation would drive a balance below zero.
    InsufficientCredit,
    /// The request is malformed, unrecognised, or asks for what the ledger refuses.
    BadRequest,
    /// The store failed; the text is its own description of the failure.
    StorageError(String),
    /// Other writers kept changing the account until the retries ran out.
    Conflict,
}

/// Mathematical value of a `LedgerError`.
pub enum LedgerErrorView {
    NotFound(Party),
    InsufficientCredit,
    BadRequest,
    StorageError(Seq<char>),
    Conflict,
}

impl View for LedgerError {
    type V = LedgerErrorView;

    open spec fn view(&self) -> LedgerErrorView {
        match self {
            LedgerError::NotFound(party) => LedgerErrorView::NotFound(*party),
            LedgerError::InsufficientCredit => LedgerErrorView::InsufficientCredit,
            LedgerError::BadRequest => LedgerErrorView::BadRequest,
            LedgerError::StorageError(text) => LedgerErrorView::StorageError(text@),
            LedgerError::Conflict => LedgerErrorView::Conflict,
        }
    }
}

impl LedgerErrorView {
    /// The text that tells a human reader of this failure.
    pub open spec fn message_text(self) -> Seq<char> {
        match self {
            LedgerErrorView::NotFound(Party::User) => "user not found"@,
            LedgerErrorView::NotFound(Party::FromUser) => "from user not found"@,
            LedgerErrorView::NotFound(Party::ToUser) => "to user not found"@,
            LedgerErrorView::InsufficientCredit => "credit not enough"@,
            LedgerErrorView::BadRequest => "invalid message"@,
            LedgerErrorView::StorageError(text) => text,
            LedgerErrorView::Conflict => "too many concurrent updates"@,
        }
    }

    /// Whether trying the same request again can never help.
    pub open spec fn is_definitive(self) -> bool {
        self is NotFound || self is InsufficientCredit || self is BadRequest
    }
}

impl LedgerError {
    /// The text that tells a human reader of this failure.
    pub fn message(&self) -> (res: String)
        ensures
            res@ == self@.message_text(),
    {
        match self {
            LedgerError::NotFound(Party::User) => "user not found".to_owned(),
            LedgerError::NotFound(Party::FromUser) => "from user not found".to_owned(),
            LedgerError::NotFound(Party::ToUser) => "to user not found".to_owned(),
            LedgerError::InsufficientCredit => "credit not enough".to_owned(),
            LedgerError::BadRequest => "invalid message".to_owned(),
            LedgerError::StorageError(text) => text.clone(),
            LedgerError::Conflict => "too many concurrent updates".to_owned(),
        }
    }

    /// Whether trying the same request again can never help.
    pub fn is_definitive(&self) -> (res: bool)
        ensures
            res == self@.is_definitive(),
    {
        match self {
            LedgerError::NotFound(_) => true,
            LedgerError::InsufficientCredit => true,
            LedgerError::BadRequest => true,
            LedgerError::StorageError(_) => false,
            LedgerError::Conflict => false,
        }
    }
}

impl From<redis::RedisError> for LedgerError {
    /// A failure of the redis client is a storage error that carries the
    /// client's own description of it.
    fn from(err: redis::RedisError) -> (res: Self)
        ensures
            res is StorageError,
    {
        LedgerError::StorageError(describe(&err))
    }
}

/// The text of a redis failure is no function of anything that can be stated
/// here, so the conversion answers to its own contract and to no spec function.
impl FromSpecImpl<redis::RedisError> for LedgerError {
    open spec fn obeys_from_spec() -> bool {
        false
    }

    open spec fn from_spec(err: redis::RedisError) -> Self {
        arbitrary()
    }
}

} // verus!
