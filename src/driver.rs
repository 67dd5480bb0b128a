//! What the library decides around each call into the driver: what it hands
//! the driver, and what it makes of the status and the values that come back.
use crate::error::{
    is_status_error, Error, Result, FT_DEVICE_NOT_FOUND, FT_INVALID_HANDLE, FT_OK,
};
use crate::version::{unpacked, Version};
use vstd::prelude::*;
use vstd::string::{StrSliceExecFns, StringExecFns, StringSliceAdditionalSpecFns};

verus! {

/// `bytes` with a terminating zero byte, unless its last byte already is one.
pub open spec fn nul_terminated(bytes: Seq<u8>) -> Seq<u8> {
    if bytes.len() > 0 && bytes.last() == 0 {
        bytes
    } else {
        bytes.push(0)
    }
}

/// The version that a version query of the driver reports, from the status
/// of the query and the packed word it filled in.
pub fn version_result(status: u32, raw: u32) -> (r: Result<Version>)
    ensures
        status == FT_OK ==> r == Ok::<Version, Error>(unpacked(raw)),
        status != FT_OK ==> (r matches Err(e) && is_status_error(status, e)),
        status == FT_INVALID_HANDLE ==> r == Err::<Version, Error>(
            Error::APIError(FT_INVALID_HANDLE),
        ),
{
    match crate::error::check_status(status) {
        Ok(()) => Ok(Version::with_raw(raw)),
        Err(e) => Err(e),
    }
}

/// The handle of a device that the driver was asked to open, from the status
/// of the call and the handle it filled in (`None` where it left it null).
///
/// A handle is handed out only where the driver reports success and the
/// handle is not null.
pub fn handle_result<H>(status: u32, handle: Option<H>) -> (r: Result<H>)
    ensures
        r is Ok <==> status == FT_OK && handle is Some,
        r is Ok ==> handle == Some(r->Ok_0),
        status != FT_OK ==> (r matches Err(e) && is_status_error(status, e)),
        status == FT_OK && handle is None ==> (r matches Err(Error::CriticalAPIError(m)) && m@
            == null_handle_text()),
        status == FT_DEVICE_NOT_FOUND ==> r == Err::<H, Error>(
            Error::APIError(FT_DEVICE_NOT_FOUND),
        ),
{
    match crate::error::check_status(status) {
        Ok(()) => match handle {
            Some(h) => Ok(h),
            None => {
                proof {
                    reveal_strlit("the driver reported success with a null handle");
                }
                Err(
                    Error::CriticalAPIError(
                        String::from_str("the driver reported success with a null handle"),
                    ),
                )
            },
        },
        Err(e) => Err(e),
    }
}

/// The text of the error for a handle left null by a successful call.
pub open spec fn null_handle_text() -> Seq<char> {
    "the driver reported success with a null handle"@
}

/// The length of a transfer buffer as the driver takes it: a buffer longer
/// than the driver can be told is refused before the call.
pub fn transfer_length(len: usize) -> (r: Result<u32>)
    ensures
        len <= u32::MAX ==> r == Ok::<u32, Error>(len as u32),
        len > u32::MAX ==> (r matches Err(Error::CriticalAPIError(m)) && m@
            == buffer_too_long_text()),
{
    if len <= u32::MAX as usize {
        Ok(len as u32)
    } else {
        proof {
            reveal_strlit("the buffer is longer than one transfer can be");
        }
        Err(Error::CriticalAPIError(String::from_str("the buffer is longer than one transfer can be")))
    }
}

/// The text of the error for a buffer too long for one transfer.
pub open spec fn buffer_too_long_text() -> Seq<char> {
    "the buffer is longer than one transfer can be"@
}

/// The bytes of a serial number or a description as the driver takes them
/// when it opens a device: the name in UTF-8, ending with a zero byte.
pub fn name_buffer(name: &str) -> (r: Vec<u8>)
    ensures
        r@ == nul_terminated(name.spec_bytes()),
{
    let mut buffer = name.as_bytes_vec();
    let n = buffer.len();
    if n == 0 || buffer[n - 1] != 0 {
        buffer.push(0);
    }
    buffer
}

} // verus!
