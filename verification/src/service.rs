use vstd::prelude::*;

use crate::digits::dec_str;
use crate::digits::u32_to_string;
use crate::error::MaaError;
use crate::model::LoginRequest;
use crate::model::MaaLoginResponse;
use crate::model::MaaUser;
use crate::model::MaaUserInfo;
use crate::model::RegisterRequest;
use crate::model::SendRegistrationTokenRequest;
use crate::model::Token;
use crate::outside::email_is_valid;
use crate::outside::new_session_id;
use crate::outside::valid_email;
use crate::sessions::fifo_push;
use crate::sessions::register_session;

verus! {

/// The authentication service. It owns no user state: the store, the
/// password encoder, the token issuer and the mailer live outside, and the
/// surrounding program carries their answers into the decision functions
/// below in the order each operation prescribes.
///
/// Login runs: `validate_login` (before any lookup), the store lookup,
/// `require_user`, the password encoder, `login_finish`, the token issuer,
/// `build_login_response`; the updated record is handed back to the store.
/// Register runs: `validate_register`, the mailer's code check,
/// `check_verification`, the password encoder, `make_new_user`, the store's
/// save, `complete_register`. Verification-code dispatch runs:
/// `validate_send_registration_token`, the store lookup,
/// `check_email_available`, then the mailer.
pub struct UserService {
    /// How many sessions a user may hold at once; the oldest is evicted
    /// first when a login would exceed it.
    pub max_login: usize,
}

/// A login request is well-shaped: well-formed email, non-empty password.
pub open spec fn login_request_valid(req: &LoginRequest) -> bool {
    valid_email(req.email@) && req.password@.len() > 0
}

/// A registration request is well-shaped: well-formed email and no empty field.
pub open spec fn register_request_valid(req: &RegisterRequest) -> bool {
    &&& valid_email(req.email@)
    &&& req.user_name@.len() > 0
    &&& req.password@.len() > 0
    &&& req.registration_token@.len() > 0
}

/// A verification-code request is well-shaped: well-formed email.
pub open spec fn send_request_valid(req: &SendRegistrationTokenRequest) -> bool {
    valid_email(req.email@)
}

/// What the lookup step decides: an absent record fails exactly like bad
/// credentials, and a persisted record without an identifier is an
/// internal fault.
pub open spec fn lookup_decision(found: Option<MaaUser>) -> Result<MaaUser, MaaError> {
    match found {
        Option::None => Err(MaaError::LoginFail),
        Option::Some(u) => if u.user_id is None {
            Err(MaaError::NoneUserId)
        } else {
            Ok(u)
        },
    }
}

/// What the credential step decides, once a record with an identifier is at
/// hand: a wrong password fails first, then a disabled account.
pub open spec fn credential_decision(user: &MaaUser, password_matches: bool) -> Result<(), MaaError> {
    if !password_matches {
        Err(MaaError::LoginFail)
    } else if user.status == 0 {
        Err(MaaError::UserNotEnabled)
    } else {
        Ok(())
    }
}

/// How a login attempt fails, or `None` when it succeeds, given what the
/// store found and whether the encoder accepted the password.
pub open spec fn login_failure(found: Option<MaaUser>, password_matches: bool) -> Option<MaaError> {
    match lookup_decision(found) {
        Err(e) => Some(e),
        Ok(u) => match credential_decision(&u, password_matches) {
            Err(e) => Some(e),
            Ok(_) => Option::None,
        },
    }
}

/// Everything a successful credential check yields: the record with its
/// session list already updated, the subject for both tokens, the fresh
/// session identifier for the refresh token, and the claim list for the
/// access token.
pub struct LoginGrant {
    pub user: MaaUser,
    pub user_id: String,
    pub jwt_id: String,
    pub authorities: Vec<String>,
}

impl UserService {
    /// A service with the configured session bound, or the default bound
    /// of one session when none is configured.
    pub fn new(max_login: Option<usize>) -> (s: Self)
        ensures
            s.max_login == match max_login {
                Option::Some(n) => n,
                Option::None => 1usize,
            },
    {
        match max_login {
            Some(n) => UserService { max_login: n },
            None => UserService { max_login: 1 },
        }
    }

    /// The guard stage of login: accepts exactly the well-shaped requests,
    /// before any collaborator is touched.
    pub fn validate_login(&self, req: &LoginRequest) -> (r: Result<(), MaaError>)
        ensures
            r is Ok <==> login_request_valid(req),
            r is Err ==> r == Err::<(), MaaError>(MaaError::Validation),
    {
        if email_is_valid(req.email.as_str()) && !req.password.as_str().is_empty() {
            Ok(())
        } else {
            Err(MaaError::Validation)
        }
    }

    /// The lookup step of login: decides exactly as `lookup_decision` says.
    pub fn require_user(&self, found: Option<MaaUser>) -> (r: Result<MaaUser, MaaError>)
        ensures
            r == lookup_decision(found),
    {
        match found {
            None => Err(MaaError::LoginFail),
            Some(u) => {
                if u.user_id.is_some() {
                    Ok(u)
                } else {
                    Err(MaaError::NoneUserId)
                }
            },
        }
    }

    /// The credential step of login. Fails exactly as `login_failure` says
    /// of a found record. On success: a fresh session identifier is minted
    /// and registered (evicting the oldest entries past the bound), the
    /// claim list `"0" .. status-1` is derived, and nothing else of the
    /// record changes.
    pub fn login_finish(&self, user: MaaUser, password_matches: bool) -> (r: Result<LoginGrant, MaaError>)
        requires
            user.user_id is Some,
        ensures
            r is Err <==> credential_decision(&user, password_matches) is Err,
            r matches Err(e) ==> Some(e) == login_failure(Some(user), password_matches),
            r matches Ok(g) ==> {
                &&& g.user_id == user.user_id->0
                &&& g.user.user_id == user.user_id
                &&& g.user.user_name == user.user_name
                &&& g.user.email == user.email
                &&& g.user.password == user.password
                &&& g.user.status == user.status
                &&& g.user.refresh_jwt_ids@ == fifo_push(
                    user.refresh_jwt_ids@,
                    g.jwt_id,
                    self.max_login as nat,
                )
                &&& g.user.sessions_bounded(self.max_login as nat)
                &&& g.jwt_id@.len() == 36
                &&& g.authorities@.len() == user.status as nat
                &&& forall|i: int|
                    0 <= i < user.status as int ==> g.authorities@[i]@ == dec_str(i as nat)
            },
    {
        if !password_matches {
            return Err(MaaError::LoginFail);
        }
        if user.status == 0 {
            return Err(MaaError::UserNotEnabled);
        }
        let MaaUser { user_id, user_name, email, password, status, refresh_jwt_ids } = user;
        let uid: String = match &user_id {
            Some(s) => s.clone(),
            None => String::new(),
        };
        let jwt_id = new_session_id();
        let mut ids = refresh_jwt_ids;
        register_session(&mut ids, jwt_id.clone(), self.max_login);
        let authorities = authorities_of(status);
        Ok(
            LoginGrant {
                user: MaaUser {
                    user_id,
                    user_name,
                    email,
                    password,
                    status,
                    refresh_jwt_ids: ids,
                },
                user_id: uid,
                jwt_id,
                authorities,
            },
        )
    }

    /// Assembles the login response from the two issued tokens and the
    /// updated record: each token is reported with its own validity window.
    pub fn build_login_response(&self, auth_token: Token, refresh_token: Token, user: &MaaUser) -> (r:
        MaaLoginResponse)
        ensures
            r.token == auth_token.token,
            r.valid_before == auth_token.expires_at,
            r.valid_after == auth_token.not_before,
            r.refresh_token == refresh_token.token,
            r.refresh_token_valid_before == refresh_token.expires_at,
            r.refresh_token_valid_after == refresh_token.not_before,
            r.user_info.user_id == user.user_id,
            r.user_info.user_name == user.user_name,
            r.user_info.email == user.email,
            r.user_info.status == user.status,
    {
        let user_info = user.to_user_info();
        MaaLoginResponse {
            token: auth_token.token,
            valid_before: auth_token.expires_at,
            valid_after: auth_token.not_before,
            refresh_token_valid_before: refresh_token.expires_at,
            refresh_token_valid_after: refresh_token.not_before,
            refresh_token: refresh_token.token,
            user_info,
        }
    }

    /// The guard stage of registration: accepts exactly the well-shaped
    /// requests, before any collaborator is touched.
    pub fn validate_register(&self, req: &RegisterRequest) -> (r: Result<(), MaaError>)
        ensures
            r is Ok <==> register_request_valid(req),
            r is Err ==> r == Err::<(), MaaError>(MaaError::Validation),
    {
        if email_is_valid(req.email.as_str()) && !req.user_name.as_str().is_empty()
            && !req.password.as_str().is_empty() && !req.registration_token.as_str().is_empty() {
            Ok(())
        } else {
            Err(MaaError::Validation)
        }
    }

    /// The verification step of registration: the mailer's verdict on the
    /// emailed code decides, a refused code fails with `VerificationFailed`.
    pub fn check_verification(&self, code_accepted: bool) -> (r: Result<(), MaaError>)
        ensures
            r is Ok <==> code_accepted,
            !code_accepted ==> r == Err::<(), MaaError>(MaaError::VerificationFailed),
    {
        if code_accepted {
            Ok(())
        } else {
            Err(MaaError::VerificationFailed)
        }
    }

    /// The record a registration creates: not yet persisted (no identifier),
    /// enabled with status `1`, no active session, and the encoder's hash in
    /// place of the password.
    pub fn make_new_user(&self, user_name: String, email: String, password_hash: String) -> (u:
        MaaUser)
        ensures
            u.user_id is None,
            u.user_name == user_name,
            u.email == email,
            u.password == password_hash,
            u.status == 1,
            u.refresh_jwt_ids@ =~= Seq::<String>::empty(),
    {
        MaaUser {
            user_id: None,
            user_name,
            email,
            password: password_hash,
            status: 1,
            refresh_jwt_ids: Vec::new(),
        }
    }

    /// The last step of registration: a refused save (the store's
    /// uniqueness key on the email, among else) surfaces as
    /// `PersistenceError`, never as a silent overwrite; a successful save
    /// returns the public projection of the new record.
    pub fn complete_register(&self, user: &MaaUser, save_ok: bool) -> (r: Result<
        MaaUserInfo,
        MaaError,
    >)
        ensures
            r is Ok <==> save_ok,
            !save_ok ==> r == Err::<MaaUserInfo, MaaError>(MaaError::PersistenceError),
            r matches Ok(info) ==> {
                &&& info.user_id == user.user_id
                &&& info.user_name == user.user_name
                &&& info.email == user.email
                &&& info.status == user.status
            },
    {
        if save_ok {
            Ok(user.to_user_info())
        } else {
            Err(MaaError::PersistenceError)
        }
    }

    /// The guard stage of verification-code dispatch.
    pub fn validate_send_registration_token(&self, req: &SendRegistrationTokenRequest) -> (r: Result<
        (),
        MaaError,
    >)
        ensures
            r is Ok <==> send_request_valid(req),
            r is Err ==> r == Err::<(), MaaError>(MaaError::Validation),
    {
        if email_is_valid(req.email.as_str()) {
            Ok(())
        } else {
            Err(MaaError::Validation)
        }
    }

    /// The availability step of verification-code dispatch: an already
    /// registered email always fails with `RegistrationUserExist`, so the
    /// caller never reaches the mailer for it.
    pub fn check_email_available(&self, found: &Option<MaaUser>) -> (r: Result<(), MaaError>)
        ensures
            r is Ok <==> found is None,
            found is Some ==> r == Err::<(), MaaError>(MaaError::RegistrationUserExist),
    {
        match found {
            None => Ok(()),
            Some(_) => Err(MaaError::RegistrationUserExist),
        }
    }
}

/// The claim list a user's status earns: the decimal renderings of
/// `0, 1, .., status - 1`, in that order.
pub fn authorities_of(status: u32) -> (r: Vec<String>)
    ensures
        r@.len() == status as nat,
        forall|i: int| 0 <= i < status as int ==> r@[i]@ == dec_str(i as nat),
{
    let mut r: Vec<String> = Vec::new();
    let mut i: u32 = 0;
    while i < status
        invariant
            i <= status,
            r@.len() == i as nat,
            forall|j: int| 0 <= j < i as int ==> r@[j]@ == dec_str(j as nat),
        decreases status - i,
    {
        r.push(u32_to_string(i));
        i = i + 1;
    }
    r
}

/// A disabled account is refused: whenever the store holds a record with an
/// identifier, the password verifies, and `status == 0`, login fails with
/// `UserNotEnabled`. (With a password that does not verify, login has
/// already failed with `LoginFail` at the credential step.)
pub proof fn lemma_disabled_account_rejected(user: MaaUser)
    requires
        user.user_id is Some,
        user.status == 0,
    ensures
        login_failure(Some(user), true) == Some(MaaError::UserNotEnabled),
{
}

/// Unknown email and wrong password are observably identical: an absent
/// record fails with `LoginFail` whatever the password step would say, a
/// present record with a wrong password fails with `LoginFail` whatever its
/// status, and the two failures are the very same value.
pub proof fn lemma_unknown_email_like_wrong_password(user: MaaUser, password_matches: bool)
    requires
        user.user_id is Some,
    ensures
        login_failure(Option::None, password_matches) == Some(MaaError::LoginFail),
        login_failure(Some(user), false) == Some(MaaError::LoginFail),
        login_failure(Option::None, password_matches) == login_failure(Some(user), false),
{
}

} // verus!
