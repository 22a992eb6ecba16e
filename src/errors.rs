use vstd::prelude::*;

verus! {

/// Why a path parameter was not accepted as a record identifier.
#[derive(Clone, Copy, Debug, PartialEq, Eq, Structural)]
pub enum ValidationError {
    /// The parameter is not a decimal integer.
    NotInteger,
    /// The parameter is an integer outside the identifier range.
    OutOfRange,
}

/// Why the pool did not lend a connection.
#[derive(Clone, Copy, Debug, PartialEq, Eq, Structural)]
pub enum PoolError {
    /// Every connection stayed in use until the pool's own timeout ran out.
    Exhausted,
    /// The store could not be reached to open a connection.
    Unavailable,
}

/// The closed set of failures that a request can end in.
#[derive(Clone, Copy, Debug, PartialEq, Eq, Structural)]
pub enum HandlerError {
    /// The path parameter is not an accepted identifier.
    InvalidInput(ValidationError),
    /// No connection could be obtained from the pool.
    PoolUnavailable,
    /// The store answered the query with an unexpected error.
    QueryFailed,
    /// The identifier is valid but no record has it.
    NotFound,
}

/// The HTTP status that each failure is answered with.
pub open spec fn status_of(e: HandlerError) -> u16 {
    match e {
        HandlerError::InvalidInput(_) => 400,
        HandlerError::PoolUnavailable => 500,
        HandlerError::QueryFailed => 500,
        HandlerError::NotFound => 404,
    }
}

/// The machine-readable code that each failure carries in a response body.
pub open spec fn code_of(e: HandlerError) -> Seq<char> {
    match e {
        HandlerError::InvalidInput(_) => "invalid_input"@,
        HandlerError::PoolUnavailable => "pool_unavailable"@,
        HandlerError::QueryFailed => "query_failed"@,
        HandlerError::NotFound => "not_found"@,
    }
}

impl HandlerError {
    pub fn status(&self) -> (r: u16)
        ensures
            r == status_of(*self),
    {
        match self {
            HandlerError::InvalidInput(_) => 400,
            HandlerError::PoolUnavailable => 500,
            HandlerError::QueryFailed => 500,
            HandlerError::NotFound => 404,
        }
    }

    pub fn code(&self) -> (r: &'static str)
        ensures
            r@ == code_of(*self),
    {
        match self {
            HandlerError::InvalidInput(_) => "invalid_input",
            HandlerError::PoolUnavailable => "pool_unavailable",
            HandlerError::QueryFailed => "query_failed",
            HandlerError::NotFound => "not_found",
        }
    }
}

} // verus!
