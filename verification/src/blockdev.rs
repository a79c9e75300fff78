//! Interpretation of raw block-device geometry query results.
//!
//! A block-device size or physical-block-size query is a single
//! device-control call issued by the caller against an open descriptor.
//! The kernel call itself happens outside this crate; these functions take
//! its raw outcome (the call's return value, the reported error code, and
//! the filled output buffer) and turn it into a typed result, so that a
//! failed call can never be mistaken for a value.

use vstd::prelude::*;

verus! {

/// A failed device-control call, carrying the operating system's error code
/// for the caller to interpret.
#[derive(Debug, Clone, Copy, PartialEq, Eq)]
pub struct OsError {
    pub code: i32,
}

/// Interprets the raw outcome of a "get device size in bytes" query.
///
/// `ret` is the device-control call's return value and `errno` the error
/// code the operating system reported; `size` is the 64-bit output buffer
/// the call was asked to fill. The call signals failure by returning `-1`,
/// in which case the buffer contents are meaningless and are discarded.
pub fn block_device_size_from_raw(ret: i32, errno: i32, size: u64) -> (r: Result<u64, OsError>)
    ensures
        r is Ok <==> ret != -1,
        r matches Ok(v) ==> v == size,
        r matches Err(e) ==> ret == -1 && e.code == errno,
{
    if ret == -1 {
        Err(OsError { code: errno })
    } else {
        Ok(size)
    }
}

/// Interprets the raw outcome of a "get physical block size" query.
///
/// This query carries no output buffer: on success the device-control
/// call's return value is itself the physical block size, and `-1` signals
/// failure with `errno` holding the reported error code.
pub fn physical_block_size_from_raw(ret: i32, errno: i32) -> (r: Result<i32, OsError>)
    ensures
        r is Ok <==> ret != -1,
        r matches Ok(v) ==> v == ret,
        r matches Err(e) ==> ret == -1 && e.code == errno,
{
    if ret == -1 {
        Err(OsError { code: errno })
    } else {
        Ok(ret)
    }
}

} // verus!
