use vstd::prelude::*;

verus! {

/// A user record as the store keeps it.
///
/// `status` doubles as the enabled flag (`0` means disabled) and as the
/// source of the authority list: each integer below `status` becomes one
/// claim string on the access token.
///
/// `refresh_jwt_ids` is the bounded FIFO of active session identifiers:
/// insertion-ordered, oldest first, never longer than the configured
/// session bound once every change goes through the service.
#[derive(Clone)]
pub struct MaaUser {
    /// Present once the store has persisted the record; a user without it
    /// cannot take part in any session operation.
    pub user_id: Option<String>,
    pub user_name: String,
    /// Unique login key.
    pub email: String,
    /// Output of the password encoder; never compared by equality,
    /// only handed back to the encoder for verification.
    pub password: String,
    /// `0` disabled; `n > 0` enabled with authorities `"0" .. n-1`.
    pub status: u32,
    /// Session identifiers of the refresh tokens that are still honoured.
    pub refresh_jwt_ids: Vec<String>,
}

impl MaaUser {
    /// The session list never outgrows the configured bound.
    pub open spec fn sessions_bounded(&self, max: nat) -> bool {
        self.refresh_jwt_ids@.len() <= max
    }

    /// The public projection of this record: everything but the password
    /// hash and the session list.
    pub fn to_user_info(&self) -> (r: MaaUserInfo)
        ensures
            r.user_id == self.user_id,
            r.user_name == self.user_name,
            r.email == self.email,
            r.status == self.status,
    {
        MaaUserInfo {
            user_id: clone_id(&self.user_id),
            user_name: self.user_name.clone(),
            email: self.email.clone(),
            status: self.status,
        }
    }
}

/// Clones an optional identifier, keeping its value.
fn clone_id(id: &Option<String>) -> (r: Option<String>)
    ensures
        r == id,
{
    match id {
        Some(s) => Some(s.clone()),
        None => None,
    }
}

/// What a caller may learn about a user: never the password hash.
#[derive(Clone)]
pub struct MaaUserInfo {
    pub user_id: Option<String>,
    pub user_name: String,
    pub email: String,
    pub status: u32,
}

/// A signed token as the issuer returns it, with its validity window.
pub struct Token {
    pub token: String,
    pub expires_at: i64,
    pub not_before: i64,
}

/// Login input: credentials only.
pub struct LoginRequest {
    pub email: String,
    pub password: String,
}

/// Registration input; `registration_token` is the emailed one-time code.
pub struct RegisterRequest {
    pub user_name: String,
    pub email: String,
    pub password: String,
    pub registration_token: String,
}

/// Verification-code dispatch input.
pub struct SendRegistrationTokenRequest {
    pub email: String,
}

/// Everything a successful login returns.
pub struct MaaLoginResponse {
    pub token: String,
    pub valid_before: i64,
    pub valid_after: i64,
    pub refresh_token: String,
    pub refresh_token_valid_before: i64,
    pub refresh_token_valid_after: i64,
    pub user_info: MaaUserInfo,
}

} // verus!
