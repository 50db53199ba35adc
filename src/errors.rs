use vstd::prelude::*;

verus! {

/// The error taxonomy of the service layer.
#[derive(Debug, Clone)]
pub enum AppError {
    InternalServerError,
    BadRequest(String),
    Unauthorized(String),
    Forbidden(String),
    NotFound(String),
    DatabaseError(String),
    InvalidMethodError(String),
}

/// A storage failure, as the storage collaborator reports it.
#[derive(Debug, Clone)]
pub enum StorageError {
    /// The queried row does not exist.
    RowNotFound,
    /// Any other failure, with its description.
    Other(String),
}

/// The HTTP status that an error is rendered with.
pub open spec fn status_of(e: AppError) -> u16 {
    match e {
        AppError::InternalServerError => 500,
        AppError::BadRequest(_) => 400,
        AppError::Unauthorized(_) => 401,
        AppError::Forbidden(_) => 403,
        AppError::NotFound(_) => 404,
        AppError::DatabaseError(_) => 500,
        AppError::InvalidMethodError(_) => 405,
    }
}

/// The short name of an error's kind, as the error envelope shows it.
pub open spec fn kind_name_of(e: AppError) -> Seq<char> {
    match e {
        AppError::InternalServerError => "Internal Server Error"@,
        AppError::BadRequest(_) => "Bad Request"@,
        AppError::Unauthorized(_) => "Unauthorized"@,
        AppError::Forbidden(_) => "Forbidden"@,
        AppError::NotFound(_) => "Not Found"@,
        AppError::DatabaseError(_) => "Database Error"@,
        AppError::InvalidMethodError(_) => "Invalid Method Error"@,
    }
}

/// The human-readable message of an error: its kind, then its detail.
pub open spec fn message_of(e: AppError) -> Seq<char> {
    match e {
        AppError::InternalServerError => "Internal Server Error"@,
        AppError::BadRequest(m) => "Bad Request: "@ + m@,
        AppError::Unauthorized(m) => "Unauthorized: "@ + m@,
        AppError::Forbidden(m) => "Forbidden: "@ + m@,
        AppError::NotFound(m) => "Not Found: "@ + m@,
        AppError::DatabaseError(m) => "Database Error: "@ + m@,
        AppError::InvalidMethodError(m) => "Invalid Method Error: "@ + m@,
    }
}

/// Whether `e` is a `BadRequest` with message `msg`.
pub open spec fn is_bad_request(e: AppError, msg: Seq<char>) -> bool {
    e matches AppError::BadRequest(m) && m@ == msg
}

/// Whether `e` is an `Unauthorized` with message `msg`.
pub open spec fn is_unauthorized(e: AppError, msg: Seq<char>) -> bool {
    e matches AppError::Unauthorized(m) && m@ == msg
}

/// Whether `e` is a `NotFound` with message `msg`.
pub open spec fn is_not_found(e: AppError, msg: Seq<char>) -> bool {
    e matches AppError::NotFound(m) && m@ == msg
}

/// Whether `r` is the error that the storage failure `e` maps to.
pub open spec fn maps_storage_error(e: StorageError, r: AppError) -> bool {
    match e {
        StorageError::RowNotFound => is_not_found(r, "Resource not found"@),
        StorageError::Other(m) => r == AppError::DatabaseError(m),
    }
}

impl AppError {
    /// The HTTP status code of this error.
    pub fn status_code(&self) -> (r: u16)
        ensures
            r == status_of(*self),
    {
        match self {
            AppError::InternalServerError => 500,
            AppError::BadRequest(_) => 400,
            AppError::Unauthorized(_) => 401,
            AppError::Forbidden(_) => 403,
            AppError::NotFound(_) => 404,
            AppError::DatabaseError(_) => 500,
            AppError::InvalidMethodError(_) => 405,
        }
    }

    /// The name of this error's kind.
    pub fn error_type(&self) -> (r: String)
        ensures
            r@ == kind_name_of(*self),
    {
        match self {
            AppError::InternalServerError => String::from_str("Internal Server Error"),
            AppError::BadRequest(_) => String::from_str("Bad Request"),
            AppError::Unauthorized(_) => String::from_str("Unauthorized"),
            AppError::Forbidden(_) => String::from_str("Forbidden"),
            AppError::NotFound(_) => String::from_str("Not Found"),
            AppError::DatabaseError(_) => String::from_str("Database Error"),
            AppError::InvalidMethodError(_) => String::from_str("Invalid Method Error"),
        }
    }

    /// The full message of this error.
    pub fn message(&self) -> (r: String)
        ensures
            r@ == message_of(*self),
    {
        match self {
            AppError::InternalServerError => String::from_str("Internal Server Error"),
            AppError::BadRequest(m) => String::from_str("Bad Request: ").concat(m.as_str()),
            AppError::Unauthorized(m) => String::from_str("Unauthorized: ").concat(m.as_str()),
            AppError::Forbidden(m) => String::from_str("Forbidden: ").concat(m.as_str()),
            AppError::NotFound(m) => String::from_str("Not Found: ").concat(m.as_str()),
            AppError::DatabaseError(m) => String::from_str("Database Error: ").concat(m.as_str()),
            AppError::InvalidMethodError(m) => String::from_str("Invalid Method Error: ").concat(
                m.as_str(),
            ),
        }
    }

    /// Maps a storage failure into the taxonomy: a missing row is `NotFound`,
    /// anything else a `DatabaseError` carrying its description.
    pub fn from_storage(e: StorageError) -> (r: AppError)
        ensures
            maps_storage_error(e, r),
    {
        match e {
            StorageError::RowNotFound => AppError::NotFound(String::from_str("Resource not found")),
            StorageError::Other(m) => AppError::DatabaseError(m),
        }
    }
}

} // verus!
