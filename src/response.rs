use vstd::prelude::*;

verus! {

/// A success envelope: message, HTTP status and optional payload.
#[derive(Debug)]
pub struct ApiResponse<T> {
    message: String,
    status_code: u16,
    data: Option<T>,
}

impl<T> ApiResponse<T> {
    pub closed spec fn spec_message(&self) -> Seq<char> {
        self.message@
    }

    pub closed spec fn spec_status(&self) -> u16 {
        self.status_code
    }

    pub closed spec fn spec_data(&self) -> Option<T> {
        self.data
    }

    pub fn new(message: String, status_code: u16, data: Option<T>) -> (r: Self)
        ensures
            r.spec_message() == message@,
            r.spec_status() == status_code,
            r.spec_data() == data,
    {
        ApiResponse { message, status_code, data }
    }

    pub fn success(data: T) -> (r: Self)
        ensures
            r.spec_message() == "Operation successful"@,
            r.spec_status() == 200,
            r.spec_data() == Some(data),
    {
        ApiResponse { message: String::from_str("Operation successful"), status_code: 200, data: Some(data) }
    }

    pub fn not_found() -> (r: Self)
        ensures
            r.spec_message() == "Not found"@,
            r.spec_status() == 404,
            r.spec_data() is None,
    {
        ApiResponse { message: String::from_str("Not found"), status_code: 404, data: None }
    }

    pub fn created(data: T) -> (r: Self)
        ensures
            r.spec_message() == "Resource created successfully"@,
            r.spec_status() == 201,
            r.spec_data() == Some(data),
    {
        ApiResponse {
            message: String::from_str("Resource created successfully"),
            status_code: 201,
            data: Some(data),
        }
    }

    pub fn updated(data: T) -> (r: Self)
        ensures
            r.spec_message() == "Resource updated successfully"@,
            r.spec_status() == 200,
            r.spec_data() == Some(data),
    {
        ApiResponse {
            message: String::from_str("Resource updated successfully"),
            status_code: 200,
            data: Some(data),
        }
    }

    pub fn updated_password() -> (r: Self)
        ensures
            r.spec_message() == "Resource updated successfully"@,
            r.spec_status() == 200,
            r.spec_data() is None,
    {
        ApiResponse {
            message: String::from_str("Resource updated successfully"),
            status_code: 200,
            data: None,
        }
    }

    pub fn deleted() -> (r: Self)
        ensures
            r.spec_message() == "Resource deleted successfully"@,
            r.spec_status() == 200,
            r.spec_data() is None,
    {
        ApiResponse {
            message: String::from_str("Resource deleted successfully"),
            status_code: 200,
            data: None,
        }
    }

    pub fn message(&self) -> (r: &str)
        ensures
            r@ == self.spec_message(),
    {
        self.message.as_str()
    }

    pub fn status_code(&self) -> (r: u16)
        ensures
            r == self.spec_status(),
    {
        self.status_code
    }

    /// Hands the envelope's parts over: message, status, payload.
    pub fn into_parts(self) -> (r: (String, u16, Option<T>))
        ensures
            r.0@ == self.spec_message(),
            r.1 == self.spec_status(),
            r.2 == self.spec_data(),
    {
        (self.message, self.status_code, self.data)
    }
}

} // verus!
