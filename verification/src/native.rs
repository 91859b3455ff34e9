//! Native platform constants.
//!
//! The values the logic compares against come from `windows_sys` at run time;
//! each trusted wrapper pins the value that crate's source declares, so the
//! verified logic and the platform agree on the meaning of each code.

use vstd::prelude::*;

verus! {

/// Attribute bit marking a directory in a file attribute word.
pub const FILE_ATTRIBUTE_DIRECTORY_BIT: u32 = 0x10;

/// Open flag asking the native open call to open a reparse point itself
/// rather than traversing it.
pub const FILE_FLAG_OPEN_REPARSE_POINT_BIT: u32 = 0x0020_0000;

/// OS error code: the file itself does not exist.
pub const ERROR_FILE_NOT_FOUND_CODE: u32 = 2;

/// OS error code: an intermediate path component does not exist.
pub const ERROR_PATH_NOT_FOUND_CODE: u32 = 3;

/// OS error code: the directory name is invalid; used to report a
/// directory-required violation.
pub const ERROR_DIRECTORY_CODE: u32 = 267;

/// OS error code: path resolution stopped on a symlink.
pub const ERROR_STOPPED_ON_SYMLINK_CODE: u32 = 681;

/// Relies on windows_sys's FILE_ATTRIBUTE_DIRECTORY constant: the directory
/// attribute bit.
#[verifier::external_body]
pub(crate) fn file_attribute_directory() -> (r: u32)
    ensures
        r == FILE_ATTRIBUTE_DIRECTORY_BIT,
{
    windows_sys::Win32::Storage::FileSystem::FILE_ATTRIBUTE_DIRECTORY
}

/// Relies on windows_sys's FILE_FLAG_OPEN_REPARSE_POINT constant: the
/// open-the-reparse-point-itself flag.
#[verifier::external_body]
pub(crate) fn file_flag_open_reparse_point() -> (r: u32)
    ensures
        r == FILE_FLAG_OPEN_REPARSE_POINT_BIT,
{
    windows_sys::Win32::Storage::FileSystem::FILE_FLAG_OPEN_REPARSE_POINT
}

/// Relies on windows_sys's ERROR_FILE_NOT_FOUND constant.
#[verifier::external_body]
pub(crate) fn error_file_not_found() -> (r: u32)
    ensures
        r == ERROR_FILE_NOT_FOUND_CODE,
{
    windows_sys::Win32::Foundation::ERROR_FILE_NOT_FOUND
}

/// Relies on windows_sys's ERROR_PATH_NOT_FOUND constant.
#[verifier::external_body]
pub(crate) fn error_path_not_found() -> (r: u32)
    ensures
        r == ERROR_PATH_NOT_FOUND_CODE,
{
    windows_sys::Win32::Foundation::ERROR_PATH_NOT_FOUND
}

/// Relies on windows_sys's ERROR_DIRECTORY constant.
#[verifier::external_body]
pub(crate) fn error_directory() -> (r: u32)
    ensures
        r == ERROR_DIRECTORY_CODE,
{
    windows_sys::Win32::Foundation::ERROR_DIRECTORY
}

/// Relies on windows_sys's ERROR_STOPPED_ON_SYMLINK constant.
#[verifier::external_body]
pub(crate) fn error_stopped_on_symlink() -> (r: u32)
    ensures
        r == ERROR_STOPPED_ON_SYMLINK_CODE,
{
    windows_sys::Win32::Foundation::ERROR_STOPPED_ON_SYMLINK
}

} // verus!
