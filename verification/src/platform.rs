//! The constants of the Windows API on which the library decides.
//!
//! Contracts speak of the values stated here; executable code takes them from
//! the `windows_sys` crate, through the functions below, whose contracts are
//! trusted: Verus does not read an outside crate.

use vstd::prelude::*;

verus! {

/// The `HRESULT` of a call that succeeded.
pub const HRESULT_OK: i32 = 0;

/// Startup flag: the standard handles named in the startup information are
/// to be used, also where they are null.
pub const USE_STD_HANDLES: u32 = 0x0000_0100;

/// Creation flag: the startup information is the extended one, which carries
/// an attribute list.
pub const EXTENDED_STARTUP_INFO: u32 = 0x0008_0000;

/// The attribute that associates a pseudo-console with a process.
pub const PSEUDOCONSOLE_ATTRIBUTE: u32 = 0x0002_0016;

/// `windows_sys::Win32::Foundation::S_OK`. Trusted: the constant is 0.
#[verifier::external_body]
pub(crate) fn s_ok() -> (code: i32)
    ensures
        code == HRESULT_OK,
{
    windows_sys::Win32::Foundation::S_OK
}

/// `windows_sys::Win32::System::Threading::STARTF_USESTDHANDLES`. Trusted:
/// the constant is 256.
#[verifier::external_body]
pub(crate) fn startf_usestdhandles() -> (flag: u32)
    ensures
        flag == USE_STD_HANDLES,
{
    windows_sys::Win32::System::Threading::STARTF_USESTDHANDLES
}

/// `windows_sys::Win32::System::Threading::EXTENDED_STARTUPINFO_PRESENT`.
/// Trusted: the constant is 524288.
#[verifier::external_body]
pub(crate) fn extended_startupinfo_present() -> (flag: u32)
    ensures
        flag == EXTENDED_STARTUP_INFO,
{
    windows_sys::Win32::System::Threading::EXTENDED_STARTUPINFO_PRESENT
}

/// `windows_sys::Win32::System::Threading::PROC_THREAD_ATTRIBUTE_PSEUDOCONSOLE`.
/// Trusted: the constant is 131094.
#[verifier::external_body]
pub(crate) fn proc_thread_attribute_pseudoconsole() -> (attribute: u32)
    ensures
        attribute == PSEUDOCONSOLE_ATTRIBUTE,
{
    windows_sys::Win32::System::Threading::PROC_THREAD_ATTRIBUTE_PSEUDOCONSOLE
}

} // verus!
