use vstd::prelude::*;

verus! {

/// Win32 `ERROR_PROC_NOT_FOUND`: the module exports no usable entry point.
pub const ERROR_PROC_NOT_FOUND: u16 = 127;

/// Win32 `ERROR_NOINTERFACE`: a call succeeded but handed back no interface.
pub const ERROR_NOINTERFACE: u16 = 632;

/// Win32 `ERROR_INVALID_LIBRARY`: the module failed to load for an unreported reason.
pub const ERROR_INVALID_LIBRARY: u16 = 4301;

/// Relies on `winresult::HResultError::from_win32` (`HRESULT_FROM_WIN32` for error codes),
/// whose source computes `0x80070000 | code`.
#[verifier::external_body]
pub(crate) fn hresult_from_win32(code: u16) -> (r: u32)
    ensures
        r == 0x8007_0000u32 | code as u32,
{
    winresult::HResultError::from_win32(winresult::ErrorCode::from(code)).to_u32()
}

/// Relies on `winresult::HResult::is_error`, whose source tests the severity bit.
#[verifier::external_body]
pub(crate) fn hresult_is_error(hr: u32) -> (r: bool)
    ensures
        r == (hr & 0x8000_0000u32 != 0),
{
    winresult::HResult::from(hr).is_error()
}

} // verus!
