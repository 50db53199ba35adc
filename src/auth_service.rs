use vstd::prelude::*;
use crate::config::Config;
use crate::entities::{Login, LoginResponse, UserCompleteData};
use crate::errors::{is_unauthorized, kind_name_of, message_of, status_of, AppError, StorageError};
use crate::password::{password_verdict, Argon2PasswordEncryptor, PasswordEncryptorPort};
use crate::token::{
    claims_issued_at,
    issue_token_at,
    jwt_hs256_token,
    token_verdict,
    unix_seconds_now,
    TOKEN_LIFETIME_SECS,
};

verus! {

/// The message of every failed login, whatever the cause.
pub const INVALID_CREDENTIALS: &'static str = "Invalid credentials";

/// The stored record whose password `data` matches, if the lookup found one
/// and it does.
pub open spec fn matching_record(lookup: Result<UserCompleteData, StorageError>, data: Login) -> Option<
    UserCompleteData,
> {
    match lookup {
        Ok(user) => if password_verdict(user.password@, data.password@) == Some(true) {
            Some(user)
        } else {
            None
        },
        Err(_) => None,
    }
}

/// Whether `r` is the refusal of a login that matches no record: an unknown
/// email and a wrong password both give `Unauthorized("Invalid credentials")`;
/// a storage fault or a malformed stored hash is an internal error.
pub open spec fn login_refusal(
    lookup: Result<UserCompleteData, StorageError>,
    data: Login,
    r: Result<LoginResponse, AppError>,
) -> bool {
    match lookup {
        Err(StorageError::RowNotFound) => r is Err && is_unauthorized(r->Err_0, INVALID_CREDENTIALS@),
        Err(StorageError::Other(_)) => r is Err && r->Err_0 is InternalServerError,
        Ok(user) => if password_verdict(user.password@, data.password@) is None {
            r is Err && r->Err_0 is InternalServerError
        } else {
            r is Err && is_unauthorized(r->Err_0, INVALID_CREDENTIALS@)
        },
    }
}

/// Whether `r` is the response for the matched record `user` at clock reading
/// `now`: the token issued for its id, name and email, and those three fields;
/// an internal error only when the expiry would not fit.
pub open spec fn issued_response(
    user: UserCompleteData,
    secret: Seq<char>,
    now: u64,
    r: Result<LoginResponse, AppError>,
) -> bool {
    if now + TOKEN_LIFETIME_SECS > u64::MAX {
        r is Err && r->Err_0 is InternalServerError
    } else {
        &&& r is Ok
        &&& r->Ok_0.token@ == jwt_hs256_token(
            claims_issued_at(user.id@, user.full_name@, user.email@, now),
            secret,
        )
        &&& token_verdict(r->Ok_0.token@, secret, now) == Some(
            claims_issued_at(user.id@, user.full_name@, user.email@, now),
        )
        &&& r->Ok_0.id@ == user.id@
        &&& r->Ok_0.full_name@ == user.full_name@
        &&& r->Ok_0.email@ == user.email@
    }
}

/// Whether `r` is the outcome of a login with `data`, given the storage
/// collaborator's answer `lookup` to the lookup by `data.email`, the signing
/// secret, and the clock reading `now`.
pub open spec fn login_outcome(
    lookup: Result<UserCompleteData, StorageError>,
    data: Login,
    secret: Seq<char>,
    now: u64,
    r: Result<LoginResponse, AppError>,
) -> bool {
    match matching_record(lookup, data) {
        Some(user) => issued_response(user, secret, now, r),
        None => login_refusal(lookup, data, r),
    }
}

/// Whether `r` is the outcome of a login against an unknown clock: refusals
/// exactly as at any clock reading; for a match, the response at some reading,
/// or an internal error when the clock cannot be read.
pub open spec fn login_outcome_any_clock(
    lookup: Result<UserCompleteData, StorageError>,
    data: Login,
    secret: Seq<char>,
    r: Result<LoginResponse, AppError>,
) -> bool {
    match matching_record(lookup, data) {
        Some(user) => (exists|now: u64| issued_response(user, secret, now, r)) || (r is Err
            && r->Err_0 is InternalServerError),
        None => login_refusal(lookup, data, r),
    }
}

/// An unknown email and a wrong password for a known one are refused with the
/// same status, kind and message, so a caller cannot tell them apart.
pub proof fn lemma_failed_logins_alike(
    unknown: Login,
    known: Login,
    user: UserCompleteData,
    secret: Seq<char>,
    r1: Result<LoginResponse, AppError>,
    r2: Result<LoginResponse, AppError>,
)
    requires
        login_outcome_any_clock(Err(StorageError::RowNotFound), unknown, secret, r1),
        login_outcome_any_clock(Ok(user), known, secret, r2),
        password_verdict(user.password@, known.password@) == Some(false),
    ensures
        r1 is Err && r2 is Err,
        status_of(r1->Err_0) == status_of(r2->Err_0) == 401,
        kind_name_of(r1->Err_0) == kind_name_of(r2->Err_0),
        message_of(r1->Err_0) == message_of(r2->Err_0),
{
}

/// A successful login's response depends on the record's id, name and email
/// only: two records that differ in their stored hash alone give the same
/// response, so the hash is never handed out.
pub proof fn lemma_response_hides_hash(
    data: Login,
    u1: UserCompleteData,
    u2: UserCompleteData,
    secret: Seq<char>,
    now: u64,
    r1: Result<LoginResponse, AppError>,
    r2: Result<LoginResponse, AppError>,
)
    requires
        login_outcome(Ok(u1), data, secret, now, r1),
        login_outcome(Ok(u2), data, secret, now, r2),
        password_verdict(u1.password@, data.password@) == Some(true),
        password_verdict(u2.password@, data.password@) == Some(true),
        u1.id@ == u2.id@,
        u1.full_name@ == u2.full_name@,
        u1.email@ == u2.email@,
    ensures
        r1 is Ok <==> r2 is Ok,
        r1 is Ok ==> r1->Ok_0.token@ == r2->Ok_0.token@ && r1->Ok_0.id@ == r2->Ok_0.id@
            && r1->Ok_0.full_name@ == r2->Ok_0.full_name@ && r1->Ok_0.email@ == r2->Ok_0.email@,
{
}

/// The login use case: credential check, then token issuance.
pub struct AuthService {
    config: Config,
    password_encryptor: Argon2PasswordEncryptor,
}

impl AuthService {
    pub fn new(config: Config, password_encryptor: Argon2PasswordEncryptor) -> (r: Self)
        ensures
            r.secret() == config.jwt_secret@,
    {
        AuthService { config, password_encryptor }
    }

    /// The secret that tokens are signed with.
    pub closed spec fn secret(&self) -> Seq<char> {
        self.config.jwt_secret@
    }

    /// Checks `data` against the storage answer `lookup`: the matched record,
    /// or the refusal.
    fn authenticate(&self, lookup: Result<UserCompleteData, StorageError>, data: &Login) -> (r:
        Result<UserCompleteData, AppError>)
        ensures
            match matching_record(lookup, *data) {
                Some(user) => r == Ok::<UserCompleteData, AppError>(user),
                None => r is Err && login_refusal(lookup, *data, Err(r->Err_0)),
            },
    {
        let user = match lookup {
            Ok(user) => user,
            Err(StorageError::RowNotFound) => {
                return Err(AppError::Unauthorized(String::from_str(INVALID_CREDENTIALS)));
            },
            Err(StorageError::Other(_)) => {
                return Err(AppError::InternalServerError);
            },
        };
        let matches = match self.password_encryptor.verify_password(
            user.password.as_str(),
            data.password.as_str(),
        ) {
            Ok(m) => m,
            Err(_) => {
                return Err(AppError::InternalServerError);
            },
        };
        if !matches {
            return Err(AppError::Unauthorized(String::from_str(INVALID_CREDENTIALS)));
        }
        Ok(user)
    }

    /// The response for the matched record `user` at clock reading `now`.
    fn respond_with_token(&self, user: UserCompleteData, now: u64) -> (r: Result<
        LoginResponse,
        AppError,
    >)
        ensures
            issued_response(user, self.secret(), now, r),
    {
        let token = match issue_token_at(
            user.id.clone(),
            user.full_name.clone(),
            user.email.clone(),
            self.config.jwt_secret.as_str(),
            now,
        ) {
            Ok(t) => t,
            Err(_) => {
                return Err(AppError::InternalServerError);
            },
        };
        assert(token_verdict(token@, self.secret(), now) == Some(
            claims_issued_at(user.id@, user.full_name@, user.email@, now),
        ));
        Ok(LoginResponse { token, id: user.id, full_name: user.full_name, email: user.email })
    }

    /// Logs in with `data`, where `lookup` is the storage answer to the lookup
    /// by `data.email`, at clock reading `now`. An unknown email and a wrong
    /// password fail alike; a malformed stored hash or a storage fault is an
    /// internal error.
    pub fn login_at(
        &self,
        lookup: Result<UserCompleteData, StorageError>,
        data: Login,
        now: u64,
    ) -> (r: Result<LoginResponse, AppError>)
        ensures
            login_outcome(lookup, data, self.secret(), now, r),
    {
        match self.authenticate(lookup, &data) {
            Ok(user) => self.respond_with_token(user, now),
            Err(e) => Err(e),
        }
    }

    /// Logs in against the current clock. The clock is read only once the
    /// password has matched, so every refusal is as in `login_at`; a match
    /// gives the response at the reading taken, or an internal error when the
    /// clock reads before the epoch.
    pub fn login(&self, lookup: Result<UserCompleteData, StorageError>, data: Login) -> (r: Result<
        LoginResponse,
        AppError,
    >)
        ensures
            login_outcome_any_clock(lookup, data, self.secret(), r),
    {
        let user = match self.authenticate(lookup, &data) {
            Ok(user) => user,
            Err(e) => {
                return Err(e);
            },
        };
        match unix_seconds_now() {
            Some(now) => self.respond_with_token(user, now),
            None => Err(AppError::InternalServerError),
        }
    }
}

} // verus!
