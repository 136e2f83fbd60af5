use vstd::prelude::*;

verus! {

/// Typed failures of the three operations.
///
/// `LoginFail` deliberately covers both "unknown email" and "wrong password",
/// so a caller cannot tell the two apart and enumerate accounts.
#[derive(Clone, Copy, Debug, PartialEq, Eq, Structural)]
pub enum MaaError {
    /// Client input was malformed; rejected before any collaborator is touched.
    Validation,
    /// Bad credentials: unknown email or wrong password.
    LoginFail,
    /// A persisted user record carries no identifier: an internal
    /// consistency fault, not a client error.
    NoneUserId,
    /// The account exists and the password is right, but the account is disabled.
    UserNotEnabled,
    /// The registration token was not issued for this email, or has lapsed.
    VerificationFailed,
    /// The email is already registered, so no verification code is sent.
    RegistrationUserExist,
    /// The store refused to persist the new record.
    PersistenceError,
    /// The mailer could not deliver the verification code.
    DeliveryError,
}

impl MaaError {
    /// A short stable name for each failure, for callers that log or display.
    pub fn message(&self) -> (r: &'static str)
        ensures
            r@ == match self {
                MaaError::Validation => "validation failed"@,
                MaaError::LoginFail => "login failed"@,
                MaaError::NoneUserId => "user id missing"@,
                MaaError::UserNotEnabled => "user not enabled"@,
                MaaError::VerificationFailed => "verification failed"@,
                MaaError::RegistrationUserExist => "email already registered"@,
                MaaError::PersistenceError => "persistence error"@,
                MaaError::DeliveryError => "delivery error"@,
            },
    {
        match self {
            MaaError::Validation => "validation failed",
            MaaError::LoginFail => "login failed",
            MaaError::NoneUserId => "user id missing",
            MaaError::UserNotEnabled => "user not enabled",
            MaaError::VerificationFailed => "verification failed",
            MaaError::RegistrationUserExist => "email already registered",
            MaaError::PersistenceError => "persistence error",
            MaaError::DeliveryError => "delivery error",
        }
    }
}

} // verus!
