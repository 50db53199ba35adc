use vstd::prelude::*;
use crate::entities::{CreateUser, UpdateUser};
use crate::errors::{is_bad_request, is_not_found, maps_storage_error, AppError, StorageError};
use crate::password::{
    password_verdict,
    Argon2PasswordEncryptor,
    PasswordEncryptorPort,
    MAX_PASSWORD_CHARS,
};
use crate::validations::{empty_field_message, is_email_shaped, is_valid_email, validate_required_fields};

verus! {

/// The complaint about a malformed email, after a lead such as `Error adding user: '`.
pub open spec fn invalid_email_message(lead: Seq<char>, email: Seq<char>) -> Seq<char> {
    lead + email + "' is not a valid email"@
}

/// The first failure among the registration checks, if any: required fields
/// in the order full name, email, password, then the email's shape.
pub open spec fn new_user_problem(data: CreateUser) -> Option<Seq<char>> {
    if data.full_name@.len() == 0 {
        Some(empty_field_message("Error adding user"@, "full_name"@))
    } else if data.email@.len() == 0 {
        Some(empty_field_message("Error adding user"@, "email"@))
    } else if data.password@.len() == 0 {
        Some(empty_field_message("Error adding user"@, "password"@))
    } else if !is_email_shaped(data.email@) {
        Some(invalid_email_message("Error adding user: '"@, data.email@))
    } else {
        None
    }
}

/// The first failure among the profile-update checks, if any: the user must
/// exist, then required fields (full name, email), then the email's shape.
pub open spec fn update_problem(data: UpdateUser, id: Seq<char>, user_exists: bool) -> Option<Seq<char>> {
    if !user_exists {
        Some("Error updating user: id '"@ + id + "' not found"@)
    } else if data.full_name@.len() == 0 {
        Some(empty_field_message("Error updating user"@, "full_name"@))
    } else if data.email@.len() == 0 {
        Some(empty_field_message("Error updating user"@, "email"@))
    } else if !is_email_shaped(data.email@) {
        Some(invalid_email_message("Error updating user: '"@, data.email@))
    } else {
        None
    }
}

/// Whether `r` is the outcome of a check whose first failure is `problem`.
pub open spec fn check_outcome(problem: Option<Seq<char>>, r: Result<(), AppError>) -> bool {
    match problem {
        None => r is Ok,
        Some(m) => r is Err && is_bad_request(r->Err_0, m),
    }
}

/// User management decisions; the storage round trips between them are the
/// caller's.
pub struct UserService {
    password_encryptor: Argon2PasswordEncryptor,
}

impl UserService {
    pub fn new(password_encryptor: Argon2PasswordEncryptor) -> (r: Self) {
        UserService { password_encryptor }
    }

    /// Checks a registration before storage is consulted.
    pub fn validate_new_user(&self, data: &CreateUser) -> (r: Result<(), AppError>)
        ensures
            check_outcome(new_user_problem(*data), r),
    {
        let fields = [
            ("full_name", data.full_name.as_str().unicode_len() == 0),
            ("email", data.email.as_str().unicode_len() == 0),
            ("password", data.password.as_str().unicode_len() == 0),
        ];
        proof {
            reveal_strlit("full_name");
            reveal_strlit("email");
            reveal_strlit("password");
        }
        match validate_required_fields(fields.as_slice(), "Error adding user") {
            Ok(()) => {},
            Err(e) => {
                assert(fields@[0].0@ == "full_name"@);
                assert(fields@[1].0@ == "email"@);
                assert(fields@[2].0@ == "password"@);
                return Err(e);
            },
        }
        assert(!fields@[0].1 && !fields@[1].1 && !fields@[2].1);
        if !is_valid_email(data.email.as_str()) {
            let msg = String::from_str("Error adding user: '").concat(data.email.as_str()).concat(
                "' is not a valid email",
            );
            return Err(AppError::BadRequest(msg));
        }
        Ok(())
    }

    /// Given whether the email is already registered, refuses a duplicate or
    /// replaces the password with its hash.
    pub fn prepare_new_user(&self, data: CreateUser, email_taken: bool) -> (r: Result<
        CreateUser,
        AppError,
    >)
        ensures
            email_taken ==> r is Err && is_bad_request(
                r->Err_0,
                "Error adding user: email '"@ + data.email@ + "' already exists"@,
            ),
            !email_taken ==> (r is Err ==> r->Err_0 is InternalServerError),
            !email_taken && data.password@.len() <= MAX_PASSWORD_CHARS ==> r is Ok,
            r is Ok ==> {
                &&& r->Ok_0.full_name == data.full_name
                &&& r->Ok_0.email == data.email
                &&& password_verdict(r->Ok_0.password@, data.password@) == Some(true)
            },
    {
        if email_taken {
            let msg = String::from_str("Error adding user: email '").concat(data.email.as_str()).concat(
                "' already exists",
            );
            return Err(AppError::BadRequest(msg));
        }
        match self.password_encryptor.hash_password(data.password.as_str()) {
            Ok(hash) => Ok(CreateUser { full_name: data.full_name, email: data.email, password: hash }),
            Err(_) => Err(AppError::InternalServerError),
        }
    }

    /// Checks a profile update, given whether user `id` exists.
    pub fn validate_update(&self, data: &UpdateUser, id: &str, user_exists: bool) -> (r: Result<
        (),
        AppError,
    >)
        ensures
            check_outcome(update_problem(*data, id@, user_exists), r),
    {
        if !user_exists {
            let msg = String::from_str("Error updating user: id '").concat(id).concat("' not found");
            return Err(AppError::BadRequest(msg));
        }
        let fields = [
            ("full_name", data.full_name.as_str().unicode_len() == 0),
            ("email", data.email.as_str().unicode_len() == 0),
        ];
        proof {
            reveal_strlit("full_name");
            reveal_strlit("email");
        }
        match validate_required_fields(fields.as_slice(), "Error updating user") {
            Ok(()) => {},
            Err(e) => {
                assert(fields@[0].0@ == "full_name"@);
                assert(fields@[1].0@ == "email"@);
                return Err(e);
            },
        }
        assert(!fields@[0].1 && !fields@[1].1);
        if !is_valid_email(data.email.as_str()) {
            let msg = String::from_str("Error updating user: '").concat(data.email.as_str()).concat(
                "' is not a valid email",
            );
            return Err(AppError::BadRequest(msg));
        }
        Ok(())
    }

    /// Given storage's answer to whether another user holds the new email,
    /// refuses the update when one does.
    pub fn check_email_free(&self, data: &UpdateUser, in_use: Result<bool, StorageError>) -> (r:
        Result<(), AppError>)
        ensures
            match in_use {
                Ok(false) => r is Ok,
                Ok(true) => r is Err && is_bad_request(
                    r->Err_0,
                    "Email '"@ + data.email@ + "' is already in use by another user"@,
                ),
                Err(e) => r is Err && maps_storage_error(e, r->Err_0),
            },
    {
        match in_use {
            Ok(false) => Ok(()),
            Ok(true) => {
                let msg = String::from_str("Email '").concat(data.email.as_str()).concat(
                    "' is already in use by another user",
                );
                Err(AppError::BadRequest(msg))
            },
            Err(e) => Err(AppError::from_storage(e)),
        }
    }

    /// The outcome of a lookup by id: a missing user is `NotFound`, any other
    /// storage fault an internal error.
    pub fn found_user<T>(&self, found: Result<T, StorageError>, id: &str) -> (r: Result<T, AppError>)
        ensures
            match found {
                Ok(u) => r == Ok::<T, AppError>(u),
                Err(StorageError::RowNotFound) => r is Err && is_not_found(
                    r->Err_0,
                    "User with id '"@ + id@ + "' not found"@,
                ),
                Err(StorageError::Other(_)) => r is Err && r->Err_0 is InternalServerError,
            },
    {
        match found {
            Ok(u) => Ok(u),
            Err(StorageError::RowNotFound) => {
                let msg = String::from_str("User with id '").concat(id).concat("' not found");
                Err(AppError::NotFound(msg))
            },
            Err(StorageError::Other(_)) => Err(AppError::InternalServerError),
        }
    }

    /// The outcome of a write or a listing: any storage fault is an internal
    /// error.
    pub fn stored<T>(&self, result: Result<T, StorageError>) -> (r: Result<T, AppError>)
        ensures
            match result {
                Ok(u) => r == Ok::<T, AppError>(u),
                Err(_) => r is Err && r->Err_0 is InternalServerError,
            },
    {
        match result {
            Ok(u) => Ok(u),
            Err(_) => Err(AppError::InternalServerError),
        }
    }

    /// Refuses to delete user `id` unless it exists.
    pub fn check_delete_target(&self, id: &str, user_exists: bool) -> (r: Result<(), AppError>)
        ensures
            user_exists ==> r is Ok,
            !user_exists ==> r is Err && is_bad_request(
                r->Err_0,
                "Error deleting user: id '"@ + id@ + "' not found"@,
            ),
    {
        if user_exists {
            Ok(())
        } else {
            let msg = String::from_str("Error deleting user: id '").concat(id).concat("' not found");
            Err(AppError::BadRequest(msg))
        }
    }

    /// The outcome of a deletion, given whether storage removed a row.
    pub fn deleted(&self, removed: Result<bool, StorageError>, id: &str) -> (r: Result<(), AppError>)
        ensures
            match removed {
                Ok(true) => r is Ok,
                Ok(false) => r is Err && is_not_found(r->Err_0, "User '"@ + id@ + "' not found"@),
                Err(_) => r is Err && r->Err_0 is InternalServerError,
            },
    {
        match removed {
            Ok(true) => Ok(()),
            Ok(false) => {
                let msg = String::from_str("User '").concat(id).concat("' not found");
                Err(AppError::NotFound(msg))
            },
            Err(_) => Err(AppError::InternalServerError),
        }
    }
}

} // verus!
