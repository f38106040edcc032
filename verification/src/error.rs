//! The ways in which an operation on the ledger is turned down.
use vstd::prelude::*;

verus! {

/// Why an operation on the ledger failed.
#[derive(Debug, PartialEq, Eq, Clone, Copy, Structural)]
pub enum LedgerError {
    /// A text does not name an asset, an action or a kind.
    ParseError,
    /// The operation refers to a user, an account or an asset that does not exist.
    ReferentialError,
    /// An insert would leave a reference to a row that does not exist.
    ForeignKeyViolation,
    /// A rule of the kind of account forbids the transaction.
    PolicyViolation,
    /// The principal does not own what it wants to change.
    AuthorizationDenied,
    /// The store turned the write down for another reason.
    StoreFailure,
}

impl LedgerError {
    /// Whether the failure is reported back to the user as the reason of a rejection.
    pub fn is_user_facing(self) -> (r: bool)
        ensures
            r == (self != LedgerError::StoreFailure),
    {
        match self {
            LedgerError::StoreFailure => false,
            _ => true,
        }
    }
}

/// A rejection with the words that are reported back.
#[derive(Debug, Clone, Copy)]
pub struct Rejection {
    /// The kind of failure.
    pub error: LedgerError,
    /// The reason in words; empty where nothing is said beyond the kind.
    pub reason: &'static str,
}

/// What a [`Rejection`] is, as a value of specifications.
pub struct RejectionView {
    pub error: LedgerError,
    pub reason: Seq<char>,
}

impl View for Rejection {
    type V = RejectionView;

    open spec fn view(&self) -> RejectionView {
        RejectionView { error: self.error, reason: self.reason@ }
    }
}

/// The rejection of the kind `error` that says no more than its kind.
pub open spec fn silent(error: LedgerError) -> RejectionView {
    RejectionView { error, reason: ""@ }
}

/// The rejection of a principal that may not do what it asked for.
pub open spec fn denied() -> RejectionView {
    silent(LedgerError::AuthorizationDenied)
}

/// The rejection of the kind `error` with the reason `reason`.
pub open spec fn rejected(error: LedgerError, reason: &str) -> RejectionView {
    RejectionView { error, reason: reason@ }
}

impl Rejection {
    /// The rejection of the kind `error` with the reason `reason`.
    pub fn new(error: LedgerError, reason: &'static str) -> (r: Rejection)
        ensures
            r@ == rejected(error, reason),
    {
        Rejection { error, reason }
    }

    /// The rejection of the kind `error` that says no more than its kind.
    pub fn silent(error: LedgerError) -> (r: Rejection)
        ensures
            r@ == silent(error),
    {
        Rejection { error, reason: "" }
    }

    /// The rejection of a principal that may not do what it asked for.
    pub fn denied() -> (r: Rejection)
        ensures
            r@ == denied(),
    {
        Rejection { error: LedgerError::AuthorizationDenied, reason: "" }
    }
}

} // verus!
