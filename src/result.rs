//! Native result codes and the error taxonomy they map to.
use vstd::prelude::*;
use vstd::string::StringExecFns;

verus! {

/// `SLANG_OK`: success.
pub const S_OK: i32 = 0;

/// `SLANG_FAIL` (HRESULT `0x80004005`): generic failure.
pub const E_FAIL: i32 = -2147467259;

/// HRESULT `0x80004001`: functionality is not implemented.
pub const E_NOT_IMPLEMENTED: i32 = -2147467263;

/// HRESULT `0x80004002`: interface not found.
pub const E_NO_INTERFACE: i32 = -2147467262;

/// HRESULT `0x80004004`: operation was aborted.
pub const E_ABORT: i32 = -2147467260;

/// HRESULT `0x80070006`: a handle passed as a parameter is invalid.
pub const E_INVALID_HANDLE: i32 = -2147024890;

/// HRESULT `0x80070057`: an argument passed as a parameter is invalid.
pub const E_INVALID_ARG: i32 = -2147024809;

/// HRESULT `0x8007000e`: the operation ran out of memory.
pub const E_OUT_OF_MEMORY: i32 = -2147024882;

/// `0x82000001`: a supplied buffer is too small.
pub const SLANG_E_BUFFER_TOO_SMALL: i32 = -2113929215;

/// `0x82000002`: a result that has yet to be initialized.
pub const SLANG_E_UNINITIALIZED: i32 = -2113929214;

/// `0x82000003`: the result of an asynchronous request is still pending.
pub const SLANG_E_PENDING: i32 = -2113929213;

/// `0x82000004`: a file or resource could not be opened.
pub const SLANG_E_CANNOT_OPEN: i32 = -2113929212;

/// `0x82000005`: a file or resource could not be found.
pub const SLANG_E_NOT_FOUND: i32 = -2113929211;

/// `0x82000006`: an unhandled internal failure.
pub const SLANG_E_INTERNAL_FAIL: i32 = -2113929210;

/// A failing native result code, by name.
#[derive(Debug, Clone, Copy, PartialEq, Eq, Structural)]
pub enum Error {
    Fail,
    NotImplemented,
    NoInterface,
    Abort,
    InvalidHandle,
    InvalidArg,
    OutOfMemory,
    SlangErrorBufferTooSmall,
    SlangErrorUninitialized,
    SlangErrorPending,
    SlangErrorCannotOpen,
    SlangErrorNotFound,
    SlangErrorInternalFail,
    /// Any other non-zero code, carried unchanged.
    Unknown(i32),
}

/// Whether `code` is one of the named failure codes.
pub open spec fn is_known_code(code: i32) -> bool {
    ||| code == E_FAIL
    ||| code == E_NOT_IMPLEMENTED
    ||| code == E_NO_INTERFACE
    ||| code == E_ABORT
    ||| code == E_INVALID_HANDLE
    ||| code == E_INVALID_ARG
    ||| code == E_OUT_OF_MEMORY
    ||| code == SLANG_E_BUFFER_TOO_SMALL
    ||| code == SLANG_E_UNINITIALIZED
    ||| code == SLANG_E_PENDING
    ||| code == SLANG_E_CANNOT_OPEN
    ||| code == SLANG_E_NOT_FOUND
    ||| code == SLANG_E_INTERNAL_FAIL
}

/// The error that a non-zero `code` stands for.
pub open spec fn error_of(code: i32) -> Error {
    if code == E_FAIL {
        Error::Fail
    } else if code == E_NOT_IMPLEMENTED {
        Error::NotImplemented
    } else if code == E_NO_INTERFACE {
        Error::NoInterface
    } else if code == E_ABORT {
        Error::Abort
    } else if code == E_INVALID_HANDLE {
        Error::InvalidHandle
    } else if code == E_INVALID_ARG {
        Error::InvalidArg
    } else if code == E_OUT_OF_MEMORY {
        Error::OutOfMemory
    } else if code == SLANG_E_BUFFER_TOO_SMALL {
        Error::SlangErrorBufferTooSmall
    } else if code == SLANG_E_UNINITIALIZED {
        Error::SlangErrorUninitialized
    } else if code == SLANG_E_PENDING {
        Error::SlangErrorPending
    } else if code == SLANG_E_CANNOT_OPEN {
        Error::SlangErrorCannotOpen
    } else if code == SLANG_E_NOT_FOUND {
        Error::SlangErrorNotFound
    } else if code == SLANG_E_INTERNAL_FAIL {
        Error::SlangErrorInternalFail
    } else {
        Error::Unknown(code)
    }
}

/// Success for the zero code, the named error for any other.
pub open spec fn result_of(code: i32) -> Result<(), Error> {
    if code == S_OK {
        Ok(())
    } else {
        Err(error_of(code))
    }
}

/// Translates a native result code: zero is success, a named failure code
/// gives its variant, and any other code gives `Unknown` with the code.
pub fn into_result(slang_result: i32) -> (r: Result<(), Error>)
    ensures
        r == result_of(slang_result),
{
    if slang_result == S_OK {
        Ok(())
    } else if slang_result == E_FAIL {
        Err(Error::Fail)
    } else if slang_result == E_NOT_IMPLEMENTED {
        Err(Error::NotImplemented)
    } else if slang_result == E_NO_INTERFACE {
        Err(Error::NoInterface)
    } else if slang_result == E_ABORT {
        Err(Error::Abort)
    } else if slang_result == E_INVALID_HANDLE {
        Err(Error::InvalidHandle)
    } else if slang_result == E_INVALID_ARG {
        Err(Error::InvalidArg)
    } else if slang_result == E_OUT_OF_MEMORY {
        Err(Error::OutOfMemory)
    } else if slang_result == SLANG_E_BUFFER_TOO_SMALL {
        Err(Error::SlangErrorBufferTooSmall)
    } else if slang_result == SLANG_E_UNINITIALIZED {
        Err(Error::SlangErrorUninitialized)
    } else if slang_result == SLANG_E_PENDING {
        Err(Error::SlangErrorPending)
    } else if slang_result == SLANG_E_CANNOT_OPEN {
        Err(Error::SlangErrorCannotOpen)
    } else if slang_result == SLANG_E_NOT_FOUND {
        Err(Error::SlangErrorNotFound)
    } else if slang_result == SLANG_E_INTERNAL_FAIL {
        Err(Error::SlangErrorInternalFail)
    } else {
        Err(Error::Unknown(slang_result))
    }
}

impl Error {
    /// The native code that this error stands for.
    pub open spec fn spec_code(self) -> i32 {
        match self {
            Error::Fail => E_FAIL,
            Error::NotImplemented => E_NOT_IMPLEMENTED,
            Error::NoInterface => E_NO_INTERFACE,
            Error::Abort => E_ABORT,
            Error::InvalidHandle => E_INVALID_HANDLE,
            Error::InvalidArg => E_INVALID_ARG,
            Error::OutOfMemory => E_OUT_OF_MEMORY,
            Error::SlangErrorBufferTooSmall => SLANG_E_BUFFER_TOO_SMALL,
            Error::SlangErrorUninitialized => SLANG_E_UNINITIALIZED,
            Error::SlangErrorPending => SLANG_E_PENDING,
            Error::SlangErrorCannotOpen => SLANG_E_CANNOT_OPEN,
            Error::SlangErrorNotFound => SLANG_E_NOT_FOUND,
            Error::SlangErrorInternalFail => SLANG_E_INTERNAL_FAIL,
            Error::Unknown(code) => code,
        }
    }

    /// The native code that this error stands for.
    pub fn code(&self) -> (r: i32)
        ensures
            r == self.spec_code(),
    {
        match self {
            Error::Fail => E_FAIL,
            Error::NotImplemented => E_NOT_IMPLEMENTED,
            Error::NoInterface => E_NO_INTERFACE,
            Error::Abort => E_ABORT,
            Error::InvalidHandle => E_INVALID_HANDLE,
            Error::InvalidArg => E_INVALID_ARG,
            Error::OutOfMemory => E_OUT_OF_MEMORY,
            Error::SlangErrorBufferTooSmall => SLANG_E_BUFFER_TOO_SMALL,
            Error::SlangErrorUninitialized => SLANG_E_UNINITIALIZED,
            Error::SlangErrorPending => SLANG_E_PENDING,
            Error::SlangErrorCannotOpen => SLANG_E_CANNOT_OPEN,
            Error::SlangErrorNotFound => SLANG_E_NOT_FOUND,
            Error::SlangErrorInternalFail => SLANG_E_INTERNAL_FAIL,
            Error::Unknown(code) => *code,
        }
    }

    /// The text that describes this error: the name of the native constant,
    /// or, for a code without a name, the code in decimal.
    pub open spec fn spec_message(self) -> Seq<char> {
        match self {
            Error::Fail => "E_FAIL"@,
            Error::NotImplemented => "E_NOT_IMPLEMENTED"@,
            Error::NoInterface => "E_NO_INTERFACE"@,
            Error::Abort => "E_ABORT"@,
            Error::InvalidHandle => "E_INVALID_HANDLE"@,
            Error::InvalidArg => "E_INVALID_ARG"@,
            Error::OutOfMemory => "E_OUT_OF_MEMORY"@,
            Error::SlangErrorBufferTooSmall => "SLANG_E_BUFFER_TOO_SMALL"@,
            Error::SlangErrorUninitialized => "SLANG_E_UNINITIALIZED"@,
            Error::SlangErrorPending => "SLANG_E_PENDING"@,
            Error::SlangErrorCannotOpen => "SLANG_E_CANNOT_OPEN"@,
            Error::SlangErrorNotFound => "SLANG_E_NOT_FOUND"@,
            Error::SlangErrorInternalFail => "SLANG_E_INTERNAL_FAIL"@,
            Error::Unknown(code) => "Unknown HResult: "@ + decimal_text(code as int),
        }
    }

    /// The text that describes this error (see `spec_message`).
    pub fn message(&self) -> (r: String)
        ensures
            r@ == self.spec_message(),
    {
        match self {
            Error::Fail => String::from_str("E_FAIL"),
            Error::NotImplemented => String::from_str("E_NOT_IMPLEMENTED"),
            Error::NoInterface => String::from_str("E_NO_INTERFACE"),
            Error::Abort => String::from_str("E_ABORT"),
            Error::InvalidHandle => String::from_str("E_INVALID_HANDLE"),
            Error::InvalidArg => String::from_str("E_INVALID_ARG"),
            Error::OutOfMemory => String::from_str("E_OUT_OF_MEMORY"),
            Error::SlangErrorBufferTooSmall => String::from_str("SLANG_E_BUFFER_TOO_SMALL"),
            Error::SlangErrorUninitialized => String::from_str("SLANG_E_UNINITIALIZED"),
            Error::SlangErrorPending => String::from_str("SLANG_E_PENDING"),
            Error::SlangErrorCannotOpen => String::from_str("SLANG_E_CANNOT_OPEN"),
            Error::SlangErrorNotFound => String::from_str("SLANG_E_NOT_FOUND"),
            Error::SlangErrorInternalFail => String::from_str("SLANG_E_INTERNAL_FAIL"),
            Error::Unknown(code) => {
                let prefix = String::from_str("Unknown HResult: ");
                let number = decimal_string(*code);
                prefix.concat(number.as_str())
            },
        }
    }
}

/// The character of a decimal digit.
pub open spec fn digit_char(d: nat) -> char {
    if d == 0 {
        '0'
    } else if d == 1 {
        '1'
    } else if d == 2 {
        '2'
    } else if d == 3 {
        '3'
    } else if d == 4 {
        '4'
    } else if d == 5 {
        '5'
    } else if d == 6 {
        '6'
    } else if d == 7 {
        '7'
    } else if d == 8 {
        '8'
    } else {
        '9'
    }
}

/// The decimal digits of `n`, most significant first, without leading zeros.
pub open spec fn decimal_digits(n: nat) -> Seq<char>
    decreases n,
{
    if n < 10 {
        seq![digit_char(n)]
    } else {
        decimal_digits(n / 10) + seq![digit_char(n % 10)]
    }
}

/// `v` in decimal, with a leading `-` when it is negative.
pub open spec fn decimal_text(v: int) -> Seq<char> {
    if v < 0 {
        seq!['-'] + decimal_digits((-v) as nat)
    } else {
        decimal_digits(v as nat)
    }
}

fn digit_str(d: u32) -> (r: &'static str)
    requires
        d < 10,
    ensures
        r@ == seq![digit_char(d as nat)],
{
    proof {
        reveal_strlit("0");
        reveal_strlit("1");
        reveal_strlit("2");
        reveal_strlit("3");
        reveal_strlit("4");
        reveal_strlit("5");
        reveal_strlit("6");
        reveal_strlit("7");
        reveal_strlit("8");
        reveal_strlit("9");
    }
    if d == 0 {
        "0"
    } else if d == 1 {
        "1"
    } else if d == 2 {
        "2"
    } else if d == 3 {
        "3"
    } else if d == 4 {
        "4"
    } else if d == 5 {
        "5"
    } else if d == 6 {
        "6"
    } else if d == 7 {
        "7"
    } else if d == 8 {
        "8"
    } else {
        "9"
    }
}

fn digits_string(n: u32) -> (r: String)
    ensures
        r@ == decimal_digits(n as nat),
    decreases n,
{
    if n < 10 {
        String::from_str(digit_str(n))
    } else {
        let mut s = digits_string(n / 10);
        s.append(digit_str(n % 10));
        s
    }
}

/// Writes `v` in decimal.
pub fn decimal_string(v: i32) -> (r: String)
    ensures
        r@ == decimal_text(v as int),
{
    if v < 0 {
        let wide: i64 = v as i64;
        let magnitude: u32 = (0 - wide) as u32;
        let sign = String::from_str("-");
        proof {
            reveal_strlit("-");
        }
        let digits = digits_string(magnitude);
        sign.concat(digits.as_str())
    } else {
        digits_string(v as u32)
    }
}

/// Every non-zero code maps to an error that gives the same code back.
pub proof fn lemma_code_round_trip(code: i32)
    requires
        code != S_OK,
    ensures
        result_of(code) matches Err(e) && e.spec_code() == code,
{
}

/// An error maps to its code and back to itself, unless it is an `Unknown`
/// that carries zero or one of the named codes.
pub proof fn lemma_error_round_trip(e: Error)
    requires
        e matches Error::Unknown(c) ==> c != S_OK && !is_known_code(c),
    ensures
        result_of(e.spec_code()) == Err::<(), Error>(e),
{
}

} // verus!
