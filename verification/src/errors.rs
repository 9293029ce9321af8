//! The error handling lesson: a custom error type, its mapping to HTTP
//! answers, and handlers that fail or succeed through it.
use vstd::prelude::*;
use crate::text::{join2, decimal, decimal_text};

verus! {

/// The errors of the error handling lesson.
#[derive(Debug, Clone, PartialEq, Eq)]
pub enum AppError {
    UserNotFound(u64),
    InvalidInput(String),
    DatabaseError(String),
    Unauthorized,
    Internal,
}

/// The JSON body of an error answer.
#[derive(Debug, Clone, PartialEq, Eq)]
pub struct ErrorResponse {
    pub error: String,
    pub code: u16,
}

/// A user of the lesson.
#[derive(Debug, Clone, PartialEq, Eq)]
pub struct User {
    pub id: u64,
    pub name: String,
}

impl AppError {
    /// The text of the error, as its `Display` writes it.
    pub open spec fn spec_message(&self) -> Seq<char> {
        match self {
            AppError::UserNotFound(id) => "User not found: "@ + decimal(*id as nat),
            AppError::InvalidInput(detail) => "Invalid input: "@ + detail@,
            AppError::DatabaseError(detail) => "Database error: "@ + detail@,
            AppError::Unauthorized => "Unauthorized"@,
            AppError::Internal => "Internal server error"@,
        }
    }

    /// The HTTP status that answers the error.
    pub open spec fn spec_status(&self) -> u16 {
        match self {
            AppError::UserNotFound(_) => 404,
            AppError::InvalidInput(_) => 400,
            AppError::DatabaseError(_) => 500,
            AppError::Unauthorized => 401,
            AppError::Internal => 500,
        }
    }

    /// The text of the error.
    pub fn message(&self) -> (r: String)
        ensures
            r@ == self.spec_message(),
    {
        match self {
            AppError::UserNotFound(id) => {
                let digits = decimal_text(*id);
                join2("User not found: ", digits.as_str())
            },
            AppError::InvalidInput(detail) => join2("Invalid input: ", detail.as_str()),
            AppError::DatabaseError(detail) => join2("Database error: ", detail.as_str()),
            AppError::Unauthorized => String::from_str("Unauthorized"),
            AppError::Internal => String::from_str("Internal server error"),
        }
    }

    /// The HTTP status of the error.
    pub fn status_code(&self) -> (r: u16)
        ensures
            r == self.spec_status(),
    {
        match self {
            AppError::UserNotFound(_) => 404,
            AppError::InvalidInput(_) => 400,
            AppError::DatabaseError(_) => 500,
            AppError::Unauthorized => 401,
            AppError::Internal => 500,
        }
    }

    /// The answer to the error: its status, and a body with the message and the code.
    pub fn into_response(self) -> (r: (u16, ErrorResponse))
        ensures
            r.0 == self.spec_status(),
            r.1.code == self.spec_status(),
            r.1.error@ == self.spec_message(),
    {
        let status = self.status_code();
        let error = self.message();
        (status, ErrorResponse { error, code: status })
    }
}

/// Looks up one of the two known users.
pub fn get_user(id: u64) -> (r: Result<User, AppError>)
    ensures
        id == 1 ==> (r matches Ok(u) && u.id == 1 && u.name@ == "Alice"@),
        id == 2 ==> (r matches Ok(u) && u.id == 2 && u.name@ == "Bob"@),
        id != 1 && id != 2 ==> (r matches Err(AppError::UserNotFound(x)) && x == id),
{
    if id == 1 {
        Ok(User { id: 1, name: String::from_str("Alice") })
    } else if id == 2 {
        Ok(User { id: 2, name: String::from_str("Bob") })
    } else {
        Err(AppError::UserNotFound(id))
    }
}

/// Accepts a value of at least three bytes.
pub fn validate_input(value: &str) -> (r: Result<String, AppError>)
    ensures
        value.len() < 3 ==> (r matches Err(AppError::InvalidInput(d)) && d@
            == "Value must be at least 3 characters"@),
        value.len() >= 3 ==> (r matches Ok(t) && t@ == "Valid input: "@ + value@),
{
    if value.len() < 3 {
        return Err(AppError::InvalidInput(String::from_str("Value must be at least 3 characters")));
    }
    Ok(join2("Valid input: ", value))
}

/// A resource whose authentication check never passes.
pub fn protected_resource() -> (r: Result<String, AppError>)
    ensures
        r matches Err(e) && e is Unauthorized,
{
    let is_authenticated = false;
    if !is_authenticated {
        return Err(AppError::Unauthorized);
    }
    Ok(String::from_str("Secret data!"))
}

/// An operation whose database always times out.
pub fn database_operation() -> (r: Result<String, AppError>)
    ensures
        r matches Err(AppError::DatabaseError(d)) && d@ == "Connection timeout"@,
{
    Err(AppError::DatabaseError(String::from_str("Connection timeout")))
}

/// Finds the user with the given id: ids from 1 to 100 exist.
pub fn find_user(id: u64) -> (r: Result<User, AppError>)
    ensures
        id == 0 ==> (r matches Err(AppError::InvalidInput(d)) && d@ == "ID cannot be zero"@),
        id > 100 ==> (r matches Err(AppError::UserNotFound(x)) && x == id),
        1 <= id <= 100 ==> (r matches Ok(u) && u.id == id && u.name@ == "User"@ + decimal(
            id as nat,
        )),
{
    if id == 0 {
        Err(AppError::InvalidInput(String::from_str("ID cannot be zero")))
    } else if id > 100 {
        Err(AppError::UserNotFound(id))
    } else {
        let digits = decimal_text(id);
        Ok(User { id, name: join2("User", digits.as_str()) })
    }
}

/// Refuses a user without a name.
pub fn validate_user(user: &User) -> (r: Result<(), AppError>)
    ensures
        user.name@.len() == 0 ==> (r matches Err(AppError::InvalidInput(d)) && d@
            == "Name cannot be empty"@),
        user.name@.len() != 0 ==> r is Ok,
{
    if user.name.as_str().is_empty() {
        Err(AppError::InvalidInput(String::from_str("Name cannot be empty")))
    } else {
        Ok(())
    }
}

/// Finds the user, then validates it; the first failure is the answer.
pub fn complex_operation(id: u64) -> (r: Result<User, AppError>)
    ensures
        id == 0 ==> (r matches Err(AppError::InvalidInput(d)) && d@ == "ID cannot be zero"@),
        id > 100 ==> (r matches Err(AppError::UserNotFound(x)) && x == id),
        1 <= id <= 100 ==> (r matches Ok(u) && u.id == id && u.name@ == "User"@ + decimal(
            id as nat,
        )),
{
    let user = find_user(id)?;
    validate_user(&user)?;
    Ok(user)
}

} // verus!
