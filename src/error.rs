use vstd::prelude::*;

verus! {

/// What went wrong, in terms a caller can branch on.
#[derive(Clone, Copy, Debug, PartialEq, Eq, Structural)]
pub enum AuthError {
    /// The staff directory could not be fetched.
    DirectoryUnavailable,
    /// The staff directory was fetched but holds no staff table.
    DirectoryParseError,
    /// The identity service could not be reached.
    LookupUnreachable,
    /// The identity service gave no usable record for the identifier.
    LookupNotFound,
    /// A role that the configuration names does not exist on the server.
    RoleMissing,
    /// No pending verification matches this requester and code.
    NoPendingMatch,
    /// The requester already has a verification in progress.
    AlreadyPending,
    /// The requester has already been verified.
    AlreadyAuthenticated,
    /// No registration window is open.
    RegistrationClosed,
    /// The phrase differs from the one of the open window.
    WrongPhrase,
    /// The phrase is linked to no role.
    NoLinkedRoles,
}

/// The coarse class of an error, which decides how it is reported.
#[derive(Clone, Copy, Debug, PartialEq, Eq, Structural)]
pub enum ErrorKind {
    /// An outside service is down; reported as unreachable.
    ExternalUnavailable,
    /// Something the requester named does not exist.
    NotFound,
    /// The request conflicts with the current state; nothing was done.
    StateConflict,
}

pub open spec fn kind_of(e: AuthError) -> ErrorKind {
    match e {
        AuthError::DirectoryUnavailable => ErrorKind::ExternalUnavailable,
        AuthError::DirectoryParseError => ErrorKind::ExternalUnavailable,
        AuthError::LookupUnreachable => ErrorKind::ExternalUnavailable,
        AuthError::LookupNotFound => ErrorKind::NotFound,
        AuthError::RoleMissing => ErrorKind::NotFound,
        AuthError::NoPendingMatch => ErrorKind::NotFound,
        AuthError::AlreadyPending => ErrorKind::StateConflict,
        AuthError::AlreadyAuthenticated => ErrorKind::StateConflict,
        AuthError::RegistrationClosed => ErrorKind::StateConflict,
        AuthError::WrongPhrase => ErrorKind::NotFound,
        AuthError::NoLinkedRoles => ErrorKind::NotFound,
    }
}

impl AuthError {
    /// The class of this error.
    pub fn kind(&self) -> (r: ErrorKind)
        ensures
            r == kind_of(*self),
    {
        match self {
            AuthError::DirectoryUnavailable => ErrorKind::ExternalUnavailable,
            AuthError::DirectoryParseError => ErrorKind::ExternalUnavailable,
            AuthError::LookupUnreachable => ErrorKind::ExternalUnavailable,
            AuthError::LookupNotFound => ErrorKind::NotFound,
            AuthError::RoleMissing => ErrorKind::NotFound,
            AuthError::NoPendingMatch => ErrorKind::NotFound,
            AuthError::AlreadyPending => ErrorKind::StateConflict,
            AuthError::AlreadyAuthenticated => ErrorKind::StateConflict,
            AuthError::RegistrationClosed => ErrorKind::StateConflict,
            AuthError::WrongPhrase => ErrorKind::NotFound,
            AuthError::NoLinkedRoles => ErrorKind::NotFound,
        }
    }
}

} // verus!
