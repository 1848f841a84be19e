//! Status codes returned by many C APIs: negative values are errors,
//! small non-negative values are successes.
use vstd::prelude::*;
use vstd::std_specs::convert::TryFromSpecImpl;

verus! {

/// Success; also "false" for boolean queries.
pub const S_SUCCESS: i8 = 0;
/// "true" for boolean queries.
pub const S_TRUE: i8 = 1;
/// End of list, no more items.
pub const S_NO_MORE_ITEMS: i8 = 2;
/// The system took no action.
pub const S_NO_ACTION_REQUIRED: i8 = 3;
/// Other error.
pub const E_ERROR: i8 = -1;
/// Unknown error.
pub const E_UNKNOWN: i8 = -2;
/// Internal error.
pub const E_INTERNAL: i8 = -3;
/// Invalid argument.
pub const E_INVALID_ARGUMENT: i8 = -4;
/// Out of memory.
pub const E_OUT_OF_MEMORY: i8 = -5;
/// Out of permanent storage.
pub const E_OUT_OF_STORAGE: i8 = -6;
/// Out of resources.
pub const E_OUT_OF_RESOURCES: i8 = -7;
/// Value out of range.
pub const E_RANGE: i8 = -8;
/// Requested resource does not exist.
pub const E_DOES_NOT_EXIST: i8 = -9;
/// Invalid operation.
pub const E_INVALID_OPERATION: i8 = -10;
/// System is busy.
pub const E_BUSY: i8 = -11;
/// Try operation again.
pub const E_AGAIN: i8 = -12;

/// An error returned by some C APIs.
#[derive(Copy, Clone, Debug, Hash, PartialEq, Eq, Structural)]
pub enum StatusError {
    /// Try operation again.
    Again,
    /// System is busy.
    Busy,
    /// Requested resource does not exist.
    DoesNotExist,
    /// Other error.
    Error,
    /// Internal error.
    Internal,
    /// Invalid argument.
    InvalidArgument,
    /// Invalid operation.
    InvalidOperation,
    /// Out of memory.
    OutOfMemory,
    /// Out of resources.
    OutOfResources,
    /// Out of permanent storage.
    OutOfStorage,
    /// Value out of range.
    Range,
    /// Unknown.
    Unknown,
}

/// A success code returned by some C APIs.
#[derive(Copy, Clone, Debug, Hash, PartialEq, Eq, Structural)]
pub enum StatusSuccess {
    /// Success; sometimes `false`.
    SuccessOrFalse,
    /// `true`
    True,
    /// No action was taken by the system.
    NoActionRequired,
    /// End of list, no more items.
    NoMoreItems,
}

impl StatusError {
    /// The C status code of this error.
    pub open spec fn spec_code(self) -> i8 {
        match self {
            StatusError::Again => E_AGAIN,
            StatusError::Busy => E_BUSY,
            StatusError::DoesNotExist => E_DOES_NOT_EXIST,
            StatusError::Error => E_ERROR,
            StatusError::Internal => E_INTERNAL,
            StatusError::InvalidArgument => E_INVALID_ARGUMENT,
            StatusError::InvalidOperation => E_INVALID_OPERATION,
            StatusError::OutOfMemory => E_OUT_OF_MEMORY,
            StatusError::OutOfResources => E_OUT_OF_RESOURCES,
            StatusError::OutOfStorage => E_OUT_OF_STORAGE,
            StatusError::Range => E_RANGE,
            StatusError::Unknown => E_UNKNOWN,
        }
    }

    /// The error that a C status code names, for the codes that the typed
    /// conversion recognizes (all error codes but `E_UNKNOWN`).
    pub open spec fn spec_from_code(code: i8) -> Option<StatusError> {
        if code == E_AGAIN {
            Some(StatusError::Again)
        } else if code == E_BUSY {
            Some(StatusError::Busy)
        } else if code == E_DOES_NOT_EXIST {
            Some(StatusError::DoesNotExist)
        } else if code == E_ERROR {
            Some(StatusError::Error)
        } else if code == E_INTERNAL {
            Some(StatusError::Internal)
        } else if code == E_INVALID_ARGUMENT {
            Some(StatusError::InvalidArgument)
        } else if code == E_INVALID_OPERATION {
            Some(StatusError::InvalidOperation)
        } else if code == E_OUT_OF_MEMORY {
            Some(StatusError::OutOfMemory)
        } else if code == E_OUT_OF_RESOURCES {
            Some(StatusError::OutOfResources)
        } else if code == E_OUT_OF_STORAGE {
            Some(StatusError::OutOfStorage)
        } else if code == E_RANGE {
            Some(StatusError::Range)
        } else {
            None
        }
    }

    /// The C status code of this error.
    pub fn code(&self) -> (r: i8)
        ensures
            r == self.spec_code(),
    {
        match self {
            StatusError::Again => E_AGAIN,
            StatusError::Busy => E_BUSY,
            StatusError::DoesNotExist => E_DOES_NOT_EXIST,
            StatusError::Error => E_ERROR,
            StatusError::Internal => E_INTERNAL,
            StatusError::InvalidArgument => E_INVALID_ARGUMENT,
            StatusError::InvalidOperation => E_INVALID_OPERATION,
            StatusError::OutOfMemory => E_OUT_OF_MEMORY,
            StatusError::OutOfResources => E_OUT_OF_RESOURCES,
            StatusError::OutOfStorage => E_OUT_OF_STORAGE,
            StatusError::Range => E_RANGE,
            StatusError::Unknown => E_UNKNOWN,
        }
    }

    /// Parses a known error from a C status code of type `StatusCode`;
    /// any other code, `E_UNKNOWN` among them, is handed back as the error.
    pub fn from_status_code(value: i8) -> (r: Result<StatusError, i8>)
        ensures
            match StatusError::spec_from_code(value) {
                Some(e) => r == Ok::<StatusError, i8>(e),
                None => r == Err::<StatusError, i8>(value),
            },
    {
        match value {
            E_AGAIN => Ok(StatusError::Again),
            E_BUSY => Ok(StatusError::Busy),
            E_DOES_NOT_EXIST => Ok(StatusError::DoesNotExist),
            E_ERROR => Ok(StatusError::Error),
            E_INTERNAL => Ok(StatusError::Internal),
            E_INVALID_ARGUMENT => Ok(StatusError::InvalidArgument),
            E_INVALID_OPERATION => Ok(StatusError::InvalidOperation),
            E_OUT_OF_MEMORY => Ok(StatusError::OutOfMemory),
            E_OUT_OF_RESOURCES => Ok(StatusError::OutOfResources),
            E_OUT_OF_STORAGE => Ok(StatusError::OutOfStorage),
            E_RANGE => Ok(StatusError::Range),
            _ => Err(value),
        }
    }

    /// Parses a known error from a C return code of type `int`; any value
    /// outside `i8`, or not a known error, is handed back as the error.
    pub fn from_return_code(value: i32) -> (r: Result<StatusError, i32>)
        ensures
            (i8::MIN <= value <= i8::MAX && StatusError::spec_from_code(value as i8) is Some)
                ==> r == Ok::<StatusError, i32>(
                StatusError::spec_from_code(value as i8).unwrap(),
            ),
            !(i8::MIN <= value <= i8::MAX && StatusError::spec_from_code(value as i8) is Some)
                ==> r == Err::<StatusError, i32>(value),
    {
        if value < -128 || value > 127 {
            return Err(value);
        }
        let byte = value as i8;
        match StatusError::from_status_code(byte) {
            Ok(e) => Ok(e),
            Err(_) => Err(value),
        }
    }
}

impl TryFrom<i8> for StatusError {
    type Error = i8;

    /// Attempts to parse only known errors from the C return code.
    fn try_from(value: i8) -> (r: Result<Self, i8>) {
        StatusError::from_status_code(value)
    }
}

impl TryFromSpecImpl<i8> for StatusError {
    open spec fn obeys_try_from_spec() -> bool {
        true
    }

    open spec fn try_from_spec(v: i8) -> Result<Self, i8> {
        match StatusError::spec_from_code(v) {
            Some(e) => Ok(e),
            None => Err(v),
        }
    }
}

impl TryFrom<i32> for StatusError {
    type Error = i32;

    /// Attempts to parse only known errors from the C return code.
    fn try_from(value: i32) -> (r: Result<Self, i32>) {
        StatusError::from_return_code(value)
    }
}

impl TryFromSpecImpl<i32> for StatusError {
    open spec fn obeys_try_from_spec() -> bool {
        true
    }

    open spec fn try_from_spec(v: i32) -> Result<Self, i32> {
        if i8::MIN <= v <= i8::MAX && StatusError::spec_from_code(v as i8) is Some {
            Ok(StatusError::spec_from_code(v as i8).unwrap())
        } else {
            Err(v)
        }
    }
}

impl StatusSuccess {
    /// The C status code of this success.
    pub open spec fn spec_code(self) -> i8 {
        match self {
            StatusSuccess::SuccessOrFalse => S_SUCCESS,
            StatusSuccess::True => S_TRUE,
            StatusSuccess::NoActionRequired => S_NO_ACTION_REQUIRED,
            StatusSuccess::NoMoreItems => S_NO_MORE_ITEMS,
        }
    }
}

/// What a C return value means: a known error, one of the four successes,
/// or `Unknown` for every other value (`E_UNKNOWN`, unknown codes, and values
/// outside `i8`).
pub open spec fn spec_parse_status_result(value: i32) -> Result<StatusSuccess, StatusError> {
    if !(i8::MIN <= value <= i8::MAX) {
        Err(StatusError::Unknown)
    } else if StatusError::spec_from_code(value as i8) is Some {
        Err(StatusError::spec_from_code(value as i8).unwrap())
    } else if value == S_NO_ACTION_REQUIRED {
        Ok(StatusSuccess::NoActionRequired)
    } else if value == S_NO_MORE_ITEMS {
        Ok(StatusSuccess::NoMoreItems)
    } else if value == S_SUCCESS {
        Ok(StatusSuccess::SuccessOrFalse)
    } else if value == S_TRUE {
        Ok(StatusSuccess::True)
    } else {
        Err(StatusError::Unknown)
    }
}

/// Parses the return value of C functions that return a negative error code
/// or a non-negative success code. Values that are no known code, and values
/// outside `i8`, yield [`StatusError::Unknown`].
///
/// If the C function returns no success codes, call this with
/// `result_code.min(0)`, as unknown positive values yield an unknown error.
pub fn parse_status_result(value: i32) -> (r: Result<StatusSuccess, StatusError>)
    ensures
        r == spec_parse_status_result(value),
{
    if value < -128 || value > 127 {
        return Err(StatusError::Unknown);
    }
    let byte_value = value as i8;
    match StatusError::from_status_code(byte_value) {
        Ok(error) => Err(error),
        Err(_) => match byte_value {
            S_NO_ACTION_REQUIRED => Ok(StatusSuccess::NoActionRequired),
            S_NO_MORE_ITEMS => Ok(StatusSuccess::NoMoreItems),
            S_SUCCESS => Ok(StatusSuccess::SuccessOrFalse),
            S_TRUE => Ok(StatusSuccess::True),
            _ => Err(StatusError::Unknown),
        },
    }
}

/// Every error but `Unknown` is recognized from its own code, and every
/// success is parsed from its own code.
pub proof fn lemma_status_code_roundtrip(e: StatusError, s: StatusSuccess)
    ensures
        e != StatusError::Unknown ==> StatusError::spec_from_code(e.spec_code()) == Some(e),
        e != StatusError::Unknown ==> spec_parse_status_result(e.spec_code() as i32) == Err::<
            StatusSuccess,
            StatusError,
        >(e),
        spec_parse_status_result(s.spec_code() as i32) == Ok::<StatusSuccess, StatusError>(s),
        spec_parse_status_result(E_UNKNOWN as i32) == Err::<StatusSuccess, StatusError>(
            StatusError::Unknown,
        ),
{
}

/// A recognized code names the error whose code it is.
pub proof fn lemma_status_from_code_inverse(code: i8)
    ensures
        StatusError::spec_from_code(code) matches Some(e) ==> e.spec_code() == code,
{
}

/// Non-negative values never parse to an error other than `Unknown`, and
/// negative ones never parse to a success.
pub proof fn lemma_status_sign(value: i32)
    ensures
        value >= 0 ==> (spec_parse_status_result(value) is Ok || spec_parse_status_result(value)
            == Err::<StatusSuccess, StatusError>(StatusError::Unknown)),
        value < 0 ==> spec_parse_status_result(value) is Err,
        value <= 0 ==> (spec_parse_status_result(value) is Ok <==> value == 0),
{
}

/// Each error stands for the C status constant of its own name, in both
/// directions: `Error` is -1, `Unknown` -2, `Internal` -3, `InvalidArgument`
/// -4, `OutOfMemory` -5, `OutOfStorage` -6, `OutOfResources` -7, `Range` -8,
/// `DoesNotExist` -9, `InvalidOperation` -10, `Busy` -11 and `Again` -12;
/// parsing a C return value of -12 to -1 gives the error of that code (with
/// `Unknown` for -2), and the typed conversion of each code but -2 gives it.
pub proof fn lemma_status_error_names_its_code(e: StatusError)
    ensures
        e == StatusError::Error <==> e.spec_code() == -1,
        e == StatusError::Unknown <==> e.spec_code() == -2,
        e == StatusError::Internal <==> e.spec_code() == -3,
        e == StatusError::InvalidArgument <==> e.spec_code() == -4,
        e == StatusError::OutOfMemory <==> e.spec_code() == -5,
        e == StatusError::OutOfStorage <==> e.spec_code() == -6,
        e == StatusError::OutOfResources <==> e.spec_code() == -7,
        e == StatusError::Range <==> e.spec_code() == -8,
        e == StatusError::DoesNotExist <==> e.spec_code() == -9,
        e == StatusError::InvalidOperation <==> e.spec_code() == -10,
        e == StatusError::Busy <==> e.spec_code() == -11,
        e == StatusError::Again <==> e.spec_code() == -12,
        -12 <= e.spec_code() <= -1,
        spec_parse_status_result(e.spec_code() as i32) == Err::<StatusSuccess, StatusError>(e),
        e != StatusError::Unknown ==> StatusError::spec_from_code(e.spec_code()) == Some(e),
        StatusError::spec_from_code(-2i8) is None,
{
}

} // verus!
