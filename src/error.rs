use crate::text::{debug_str, debug_str_of, decimal, is_plain_char, push_decimal};
use vstd::prelude::*;
use vstd::string::StringExecFns;

verus! {

/// The call succeeded.
pub const FT_OK: u32 = 0;
/// The handle given to the driver is not that of an open device.
pub const FT_INVALID_HANDLE: u32 = 1;
/// No device matches the index, serial number or description asked for.
pub const FT_DEVICE_NOT_FOUND: u32 = 2;
/// The device could not be opened.
pub const FT_DEVICE_NOT_OPENED: u32 = 3;
/// A transfer failed.
pub const FT_IO_ERROR: u32 = 4;
/// The driver ran out of resources.
pub const FT_INSUFFICIENT_RESOURCES: u32 = 5;
/// A parameter was refused.
pub const FT_INVALID_PARAMETER: u32 = 6;
/// The baud rate was refused.
pub const FT_INVALID_BAUD_RATE: u32 = 7;
/// The device is not open for erasing.
pub const FT_DEVICE_NOT_OPENED_FOR_ERASE: u32 = 8;
/// The device is not open for writing.
pub const FT_DEVICE_NOT_OPENED_FOR_WRITE: u32 = 9;
/// Writing to the device failed.
pub const FT_FAILED_TO_WRITE_DEVICE: u32 = 10;
/// Reading the EEPROM failed.
pub const FT_EEPROM_READ_FAILED: u32 = 11;
/// Writing the EEPROM failed.
pub const FT_EEPROM_WRITE_FAILED: u32 = 12;
/// Erasing the EEPROM failed.
pub const FT_EEPROM_ERASE_FAILED: u32 = 13;
/// There is no EEPROM.
pub const FT_EEPROM_NOT_PRESENT: u32 = 14;
/// The EEPROM is blank.
pub const FT_EEPROM_NOT_PROGRAMMED: u32 = 15;
/// The arguments were refused.
pub const FT_INVALID_ARGS: u32 = 16;
/// The operation is not supported.
pub const FT_NOT_SUPPORTED: u32 = 17;
/// There are no more items.
pub const FT_NO_MORE_ITEMS: u32 = 18;
/// The operation timed out.
pub const FT_TIMEOUT: u32 = 19;
/// The operation was aborted.
pub const FT_OPERATION_ABORTED: u32 = 20;
/// The pipe is reserved.
pub const FT_RESERVED_PIPE: u32 = 21;
/// The direction of a control request was refused.
pub const FT_INVALID_CONTROL_REQUEST_DIRECTION: u32 = 22;
/// The type of a control request was refused.
pub const FT_INVALID_CONTROL_REQUEST_TYPE: u32 = 23;
/// An overlapped transfer was started and has not completed yet.
pub const FT_IO_PENDING: u32 = 24;
/// An overlapped transfer is still incomplete.
pub const FT_IO_INCOMPLETE: u32 = 25;
/// End of file on the handle.
pub const FT_HANDLE_EOF: u32 = 26;
/// The device is busy.
pub const FT_BUSY: u32 = 27;
/// The system ran out of resources.
pub const FT_NO_SYSTEM_RESOURCES: u32 = 28;
/// The device list is not ready.
pub const FT_DEVICE_LIST_NOT_READY: u32 = 29;
/// The device is not connected.
pub const FT_DEVICE_NOT_CONNECTED: u32 = 30;
/// The device path is wrong.
pub const FT_INCORRECT_DEVICE_PATH: u32 = 31;
/// Any other failure; the largest status code that the driver defines.
pub const FT_OTHER_ERROR: u32 = 32;

/// Errors of this library.
#[derive(Debug)]
pub enum Error {
    /// The driver reported this status code.
    APIError(u32),
    /// A failure that the driver cannot report: an argument refused before
    /// the call, or an answer of the driver that makes no sense.
    CriticalAPIError(String),
}

/// Result of the operations of this library.
pub type Result<T> = core::result::Result<T, Error>;

/// Whether `status` is one of the codes that the driver defines.
pub open spec fn is_known_status(status: u32) -> bool {
    status <= FT_OTHER_ERROR
}

/// The text of the error for a status code that the driver does not define.
pub open spec fn unknown_status_text(status: u32) -> Seq<char> {
    seq!['u', 'n', 'k', 'n', 'o', 'w', 'n', ' ', 's', 't', 'a', 't', 'u', 's', ' '] + decimal(
        status as nat,
    )
}

/// Whether `e` is the error for the failed status `status`: the status code
/// itself where the driver defines it, otherwise a critical error naming it.
pub open spec fn is_status_error(status: u32, e: Error) -> bool {
    if is_known_status(status) {
        e == Error::APIError(status)
    } else {
        e matches Error::CriticalAPIError(m) && m@ == unknown_status_text(status)
    }
}

/// The start of the text of a critical error: `Critical API Error: `.
pub open spec fn critical_prefix() -> Seq<char> {
    seq!['C', 'r', 'i', 't', 'i', 'c', 'a', 'l', ' ', 'A', 'P', 'I', ' ', 'E', 'r', 'r', 'o', 'r', ':', ' ']
}

/// The text of an error: `API Error: ` and the status code, or
/// `Critical API Error: ` and the description as Rust's `Debug` renders a
/// string: in double quotes, with its escapes.
pub open spec fn error_text(e: Error) -> Seq<char> {
    match e {
        Error::APIError(status) => seq!['A', 'P', 'I', ' ', 'E', 'r', 'r', 'o', 'r', ':', ' ']
            + decimal(status as nat),
        Error::CriticalAPIError(m) => critical_prefix() + debug_str_of(m@),
    }
}

impl Error {
    /// The number that stands for this error: the status code of a driver
    /// error, -1 for a critical error.
    pub fn code(&self) -> (r: i64)
        ensures
            r == match *self {
                Error::APIError(status) => status as int,
                Error::CriticalAPIError(_) => -1,
            },
    {
        match self {
            Error::APIError(status) => *status as i64,
            Error::CriticalAPIError(_) => -1,
        }
    }

    /// The error as text.
    pub fn message(&self) -> (r: String)
        ensures
            r@ == error_text(*self),
            self matches Error::CriticalAPIError(m) ==> (forall|i: int|
                0 <= i < m@.len() ==> is_plain_char(#[trigger] m@[i])) ==> r@ == critical_prefix()
                + seq!['"'] + m@ + seq!['"'],
    {
        match self {
            Error::APIError(status) => {
                proof {
                    reveal_strlit("API Error: ");
                }
                let mut s = String::from_str("API Error: ");
                push_decimal(&mut s, *status);
                s
            },
            Error::CriticalAPIError(m) => {
                proof {
                    reveal_strlit("Critical API Error: ");
                }
                let quoted = debug_str(m.as_str());
                String::from_str("Critical API Error: ").concat(quoted.as_str())
            },
        }
    }
}

impl PartialEq for Error {
    fn eq(&self, other: &Error) -> (r: bool) {
        match (self, other) {
            (Error::APIError(a), Error::APIError(b)) => *a == *b,
            (Error::CriticalAPIError(a), Error::CriticalAPIError(b)) => *a == *b,
            _ => false,
        }
    }
}

impl vstd::std_specs::cmp::PartialEqSpecImpl for Error {
    open spec fn obeys_eq_spec() -> bool {
        true
    }

    open spec fn eq_spec(&self, other: &Error) -> bool {
        match (*self, *other) {
            (Error::APIError(a), Error::APIError(b)) => a == b,
            (Error::CriticalAPIError(a), Error::CriticalAPIError(b)) => a@ == b@,
            _ => false,
        }
    }
}

impl Eq for Error {

}

/// Turns a driver status into a result: `Ok(())` for `FT_OK`, the status
/// code as an error where the driver defines it, and a critical error for a
/// code that it does not define.
pub fn check_status(status: u32) -> (r: Result<()>)
    ensures
        status == FT_OK <==> r is Ok,
        r matches Err(e) ==> is_status_error(status, e),
{
    if status == FT_OK {
        Ok(())
    } else if status <= FT_OTHER_ERROR {
        Err(Error::APIError(status))
    } else {
        proof {
            reveal_strlit("unknown status ");
        }
        let mut m = String::from_str("unknown status ");
        push_decimal(&mut m, status);
        assert(m@ =~= unknown_status_text(status));
        Err(Error::CriticalAPIError(m))
    }
}

/// The value that a driver call handed back, provided that its status is
/// `FT_OK`; otherwise the error for the status.
pub fn with_status<T>(status: u32, value: T) -> (r: Result<T>)
    ensures
        status == FT_OK ==> r == Ok::<T, Error>(value),
        status != FT_OK ==> (r matches Err(e) && is_status_error(status, e)),
{
    match check_status(status) {
        Ok(()) => Ok(value),
        Err(e) => Err(e),
    }
}

} // verus!
