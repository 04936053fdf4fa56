use vstd::prelude::*;

verus! {

/// What can go wrong while serving a request.
#[derive(Debug, Clone, PartialEq, Eq)]
pub enum AppError {
    /// The storage layer failed; holds its message.
    Database(String),
    /// A task was created with empty text.
    InvalidTask,
    /// A delete named an empty id.
    InvalidId,
    /// An update supplied no field to change.
    InvalidUpdate,
    /// Catch-all, not produced by any request today.
    Internal,
}

impl AppError {
    /// HTTP status the error is reported with.
    pub open spec fn status_spec(&self) -> u16 {
        match self {
            AppError::Database(_) => 500,
            AppError::InvalidTask => 400,
            AppError::InvalidId => 400,
            AppError::InvalidUpdate => 400,
            AppError::Internal => 500,
        }
    }

    /// Text reported to the client under `"error"`.
    pub open spec fn message_spec(&self) -> Seq<char> {
        match self {
            AppError::Database(m) => m@,
            AppError::InvalidTask => "Invalid task description"@,
            AppError::InvalidId => "Invalid task id"@,
            AppError::InvalidUpdate => "Invalid update fields"@,
            AppError::Internal => "Internal server error"@,
        }
    }

    pub fn status(&self) -> (r: u16)
        ensures
            r == self.status_spec(),
    {
        match self {
            AppError::Database(_) => 500,
            AppError::InvalidTask => 400,
            AppError::InvalidId => 400,
            AppError::InvalidUpdate => 400,
            AppError::Internal => 500,
        }
    }

    pub fn message(&self) -> (r: String)
        ensures
            r@ == self.message_spec(),
    {
        match self {
            AppError::Database(m) => m.clone(),
            AppError::InvalidTask => String::from_str("Invalid task description"),
            AppError::InvalidId => String::from_str("Invalid task id"),
            AppError::InvalidUpdate => String::from_str("Invalid update fields"),
            AppError::Internal => String::from_str("Internal server error"),
        }
    }

    /// The status and the message together, as an error response carries them.
    pub fn into_response(&self) -> (r: (u16, String))
        ensures
            r.0 == self.status_spec(),
            r.1@ == self.message_spec(),
    {
        (self.status(), self.message())
    }
}

} // verus!
