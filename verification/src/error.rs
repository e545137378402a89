//! What can go wrong while provisioning an account.

use vstd::prelude::*;

verus! {

/// The class of a failure that the storage backend reported.
#[derive(Clone, Copy, Debug, PartialEq, Eq, Structural)]
pub enum FailureKind {
    /// A primary key or another uniqueness constraint was violated.
    UniqueViolation,
    /// A row referred to a row that does not exist, or a row that others
    /// refer to was about to go.
    ForeignKeyViolation,
    /// Anything else: connectivity, decoding, a constraint not named above.
    Other,
}

/// A failure of the storage backend, handed on as it came.
#[derive(Debug)]
pub struct StorageFailure {
    pub kind: FailureKind,
    pub message: String,
}

/// [`StorageFailure`] as a mathematical value.
pub struct StorageFailureView {
    pub kind: FailureKind,
    pub message: Seq<char>,
}

impl View for StorageFailure {
    type V = StorageFailureView;

    open spec fn view(&self) -> StorageFailureView {
        StorageFailureView { kind: self.kind, message: self.message@ }
    }
}

/// The failure for a row whose key is already there.
pub open spec fn duplicate_key() -> StorageFailureView {
    StorageFailureView {
        kind: FailureKind::UniqueViolation,
        message: "duplicate key value violates unique constraint"@,
    }
}

/// The failure for a row that refers to a row that is not there.
pub open spec fn missing_reference() -> StorageFailureView {
    StorageFailureView {
        kind: FailureKind::ForeignKeyViolation,
        message: "insert or update violates foreign key constraint"@,
    }
}

/// The failure for deleting a row that others still refer to.
pub open spec fn still_referenced() -> StorageFailureView {
    StorageFailureView {
        kind: FailureKind::ForeignKeyViolation,
        message: "update or delete violates foreign key constraint"@,
    }
}

/// The failure for beginning a transaction while another one is open.
pub open spec fn transaction_open() -> StorageFailureView {
    StorageFailureView {
        kind: FailureKind::Other,
        message: "another transaction is in progress"@,
    }
}

/// The failure for committing where no transaction is open.
pub open spec fn no_transaction() -> StorageFailureView {
    StorageFailureView {
        kind: FailureKind::Other,
        message: "there is no transaction in progress"@,
    }
}

impl StorageFailure {
    /// The failure for beginning a transaction while another one is open.
    pub fn transaction_open() -> (failure: StorageFailure)
        ensures
            failure@ == transaction_open(),
    {
        StorageFailure {
            kind: FailureKind::Other,
            message: "another transaction is in progress".to_owned(),
        }
    }

    /// The failure for committing where no transaction is open.
    pub fn no_transaction() -> (failure: StorageFailure)
        ensures
            failure@ == no_transaction(),
    {
        StorageFailure {
            kind: FailureKind::Other,
            message: "there is no transaction in progress".to_owned(),
        }
    }

    /// The failure for a row whose key is already there.
    pub fn duplicate_key() -> (failure: StorageFailure)
        ensures
            failure@ == duplicate_key(),
    {
        StorageFailure {
            kind: FailureKind::UniqueViolation,
            message: "duplicate key value violates unique constraint".to_owned(),
        }
    }

    /// The failure for a row that refers to a row that is not there.
    pub fn missing_reference() -> (failure: StorageFailure)
        ensures
            failure@ == missing_reference(),
    {
        StorageFailure {
            kind: FailureKind::ForeignKeyViolation,
            message: "insert or update violates foreign key constraint".to_owned(),
        }
    }

    /// The failure for deleting a row that others still refer to.
    pub fn still_referenced() -> (failure: StorageFailure)
        ensures
            failure@ == still_referenced(),
    {
        StorageFailure {
            kind: FailureKind::ForeignKeyViolation,
            message: "update or delete violates foreign key constraint".to_owned(),
        }
    }
}

impl Clone for StorageFailure {
    fn clone(&self) -> (copy: Self)
        ensures
            copy == *self,
    {
        StorageFailure { kind: self.kind, message: self.message.clone() }
    }
}

/// An error of the provisioning operations.
#[derive(Debug)]
pub enum Error {
    /// A value that must be unique is already in use.
    AlreadyTaken {
        /// The field whose value is taken.
        what: String,
        /// A sentence for the person who asked.
        message: String,
    },
    /// The storage backend failed.
    Database(StorageFailure),
}

/// [`Error`] as a mathematical value.
pub enum ErrorView {
    AlreadyTaken { what: Seq<char>, message: Seq<char> },
    Database(StorageFailureView),
}

impl View for Error {
    type V = ErrorView;

    open spec fn view(&self) -> ErrorView {
        match *self {
            Error::AlreadyTaken { what, message } => ErrorView::AlreadyTaken {
                what: what@,
                message: message@,
            },
            Error::Database(failure) => ErrorView::Database(failure@),
        }
    }
}

/// The field named by the error for a taken username.
pub open spec fn username_field() -> Seq<char> {
    "username"@
}

/// The sentence carried by the error for a taken username.
pub open spec fn username_taken_message() -> Seq<char> {
    "Username is already taken"@
}

/// The error for a username that is already in use.
pub open spec fn username_taken() -> ErrorView {
    ErrorView::AlreadyTaken { what: username_field(), message: username_taken_message() }
}

impl Error {
    /// The error for a username that is already in use.
    pub fn username_taken() -> (error: Error)
        ensures
            error@ == username_taken(),
    {
        Error::AlreadyTaken {
            what: "username".to_owned(),
            message: "Username is already taken".to_owned(),
        }
    }

    /// Whether this is a conflict on a unique value, as opposed to a failure
    /// of the backend.
    pub fn is_conflict(&self) -> (conflict: bool)
        ensures
            conflict == (self@ is AlreadyTaken),
    {
        match self {
            Error::AlreadyTaken { .. } => true,
            Error::Database(_) => false,
        }
    }
}

} // verus!
