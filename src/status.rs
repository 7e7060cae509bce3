//! Translation of the window server's integer status codes into a closed
//! error type.
use vstd::prelude::*;

verus! {

/// A result code of the window server's procedures.
#[derive(Debug, Clone, Copy, PartialEq, Eq, Structural)]
pub enum CGError {
    /// The operation is inappropriate for the parameters or the system state.
    CannotComplete,
    /// A general failure occurred.
    Failure,
    /// One or more parameters are invalid.
    IllegalArgument,
    /// The connection to the window server is invalid.
    InvalidConnection,
    /// The context identifier is invalid.
    InvalidContext,
    /// The operation is not valid for the parameters or the system state.
    InvalidOperation,
    /// The resources the operation needs were not found.
    NoneAvailable,
    /// The procedure is an obsolete stub.
    NotImplemented,
    /// A parameter has a value that maps to no useful operation.
    RangeCheck,
    /// The operation completed successfully.
    Success,
    /// A value did not have the expected type.
    TypeCheck,
}

/// The raw code the window server uses for each status.
pub open spec fn code_of(e: CGError) -> i32 {
    match e {
        CGError::CannotComplete => 1004,
        CGError::Failure => 1000,
        CGError::IllegalArgument => 1001,
        CGError::InvalidConnection => 1002,
        CGError::InvalidContext => 1003,
        CGError::InvalidOperation => 1010,
        CGError::NoneAvailable => 1011,
        CGError::NotImplemented => 1006,
        CGError::RangeCheck => 1007,
        CGError::Success => 0,
        CGError::TypeCheck => 1008,
    }
}

/// The window server's code space is closed: these are all the codes it returns.
pub open spec fn is_known_code(value: i32) -> bool {
    ||| value == 0
    ||| 1000 <= value <= 1004
    ||| 1006 <= value <= 1008
    ||| value == 1010
    ||| value == 1011
}

/// What a raw status means to a caller: success, or the error it names.
pub open spec fn result_of_code(value: i32) -> Result<(), CGError> {
    if value == 0 {
        Ok(())
    } else {
        Err(CGError::from_code_spec(value))
    }
}

/// Distinct statuses have distinct codes.
pub proof fn lemma_code_injective(a: CGError, b: CGError)
    ensures
        code_of(a) == code_of(b) <==> a == b,
{
}

/// Every status has a known code, and reading that code back gives the
/// status; every known code is the code of the status it is read as.
pub proof fn lemma_code_round_trip(e: CGError, value: i32)
    ensures
        is_known_code(code_of(e)),
        CGError::from_code_spec(code_of(e)) == e,
        is_known_code(value) ==> code_of(CGError::from_code_spec(value)) == value,
{
}

impl CGError {
    /// The status a known raw code names.
    pub open spec fn from_code_spec(value: i32) -> CGError {
        if value == 1004 {
            CGError::CannotComplete
        } else if value == 1000 {
            CGError::Failure
        } else if value == 1001 {
            CGError::IllegalArgument
        } else if value == 1002 {
            CGError::InvalidConnection
        } else if value == 1003 {
            CGError::InvalidContext
        } else if value == 1010 {
            CGError::InvalidOperation
        } else if value == 1011 {
            CGError::NoneAvailable
        } else if value == 1006 {
            CGError::NotImplemented
        } else if value == 1007 {
            CGError::RangeCheck
        } else if value == 0 {
            CGError::Success
        } else {
            CGError::TypeCheck
        }
    }

    /// Whether the window server defines `value` as a status code.
    pub fn is_known(value: i32) -> (r: bool)
        ensures
            r == is_known_code(value),
    {
        value == 0 || (1000 <= value && value <= 1004) || (1006 <= value && value <= 1008)
            || value == 1010 || value == 1011
    }

    /// The status a raw code names. An unknown code means the window server
    /// broke its contract, so it is left out here: check it with `is_known`.
    pub fn from_code(value: i32) -> (r: CGError)
        requires
            is_known_code(value),
        ensures
            code_of(r) == value,
            r == CGError::from_code_spec(value),
    {
        let r = match value {
            1004 => CGError::CannotComplete,
            1000 => CGError::Failure,
            1001 => CGError::IllegalArgument,
            1002 => CGError::InvalidConnection,
            1003 => CGError::InvalidContext,
            1010 => CGError::InvalidOperation,
            1011 => CGError::NoneAvailable,
            1006 => CGError::NotImplemented,
            1007 => CGError::RangeCheck,
            0 => CGError::Success,
            _ => CGError::TypeCheck,
        };
        r
    }

    /// The raw code of this status.
    pub fn code(self) -> (r: i32)
        ensures
            r == code_of(self),
    {
        match self {
            CGError::CannotComplete => 1004,
            CGError::Failure => 1000,
            CGError::IllegalArgument => 1001,
            CGError::InvalidConnection => 1002,
            CGError::InvalidContext => 1003,
            CGError::InvalidOperation => 1010,
            CGError::NoneAvailable => 1011,
            CGError::NotImplemented => 1006,
            CGError::RangeCheck => 1007,
            CGError::Success => 0,
            CGError::TypeCheck => 1008,
        }
    }

    /// `Ok(())` for the success code, otherwise the error the code names.
    pub fn result_from(value: i32) -> (r: Result<(), CGError>)
        requires
            is_known_code(value),
        ensures
            r == result_of_code(value),
            r is Ok <==> value == 0,
            r matches Err(e) ==> code_of(e) == value && e != CGError::Success,
    {
        let err = CGError::from_code(value);
        if let CGError::Success = err {
            Ok(())
        } else {
            Err(err)
        }
    }
}

/// The error of the drawing layer: a status that the window server reported.
#[derive(Debug, Clone, PartialEq, Eq, Structural)]
pub enum Error {
    CgError(CGError),
}

impl From<CGError> for Error {
    fn from(e: CGError) -> (r: Error)
        ensures
            r == Error::CgError(e),
    {
        Error::CgError(e)
    }
}

impl vstd::std_specs::convert::FromSpecImpl<CGError> for Error {
    open spec fn obeys_from_spec() -> bool {
        true
    }

    open spec fn from_spec(e: CGError) -> Error {
        Error::CgError(e)
    }
}

} // verus!
