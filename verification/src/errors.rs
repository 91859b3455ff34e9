//! Error model and the classification of native open failures.
//!
//! The logic reads exactly two things of a native error: whether its generic
//! kind is "not found", and its raw OS code, if it carries one. `OsErrorCode`
//! holds those two as plain values; the driver extracts them from the real OS
//! error and keeps the original alongside for diagnostics.

use vstd::prelude::*;
use crate::native;

verus! {

/// What the classification logic reads of a native OS error.
#[derive(Clone, Copy, Debug, PartialEq, Eq, Structural)]
pub struct OsErrorCode {
    /// The error's generic kind is "not found".
    pub not_found_kind: bool,
    /// The raw OS error code, when the error came from the OS.
    pub raw: Option<i32>,
}

/// Classifies a rejected symlink by whether its reparse-point attributes
/// indicate a directory-like or a file-like target. Diagnostic only.
#[derive(Clone, Copy, Debug, PartialEq, Eq, Structural)]
pub enum SymlinkKind {
    /// The reparse point carries the directory attribute.
    Dir,
    /// The reparse point does not carry the directory attribute.
    File,
}

/// The outcome of a failed open: exactly one variant per failing call.
#[derive(Clone, Copy, Debug, PartialEq, Eq, Structural)]
pub enum OpenUncheckedError {
    /// The target, or an intermediate component, does not exist.
    NotFound(OsErrorCode),
    /// The target is a symlink and the caller forbade following one.
    Symlink(OsErrorCode, SymlinkKind),
    /// Any other failure, the original OS error preserved.
    Other(OsErrorCode),
}

/// A native open failure counts as "not found" when its generic kind says so,
/// or when its raw OS code is one of the platform's two missing-file /
/// missing-path codes. Some failures of the second sort arrive under a
/// different generic kind, so both tiers must normalize to the same variant.
pub open spec fn is_not_found_error(e: OsErrorCode) -> bool {
    ||| e.not_found_kind
    ||| (e.raw matches Some(c) && (c as u32 == native::ERROR_FILE_NOT_FOUND_CODE
            || c as u32 == native::ERROR_PATH_NOT_FOUND_CODE))
}

/// How a native open failure is classified: `NotFound` for either tier of the
/// missing-file test, `Other` for everything else, the error preserved
/// unmodified either way. A failed open never classifies as `Symlink`.
pub open spec fn classify_failure_spec(e: OsErrorCode) -> OpenUncheckedError {
    if is_not_found_error(e) {
        OpenUncheckedError::NotFound(e)
    } else {
        OpenUncheckedError::Other(e)
    }
}

/// Classify a native open failure into its error variant.
pub fn classify_failure(e: OsErrorCode) -> (r: OpenUncheckedError)
    ensures
        r == classify_failure_spec(e),
{
    if e.not_found_kind {
        return OpenUncheckedError::NotFound(e);
    }
    match e.raw {
        Some(c) => {
            let file_nf = native::error_file_not_found();
            let path_nf = native::error_path_not_found();
            if c as u32 == file_nf || c as u32 == path_nf {
                OpenUncheckedError::NotFound(e)
            } else {
                OpenUncheckedError::Other(e)
            }
        }
        None => OpenUncheckedError::Other(e),
    }
}

/// The synthesized error for a directory-required violation: the platform's
/// invalid-directory code.
pub open spec fn not_a_directory_error_spec() -> OsErrorCode {
    OsErrorCode { not_found_kind: false, raw: Some(native::ERROR_DIRECTORY_CODE as i32) }
}

/// Build the directory-required violation error.
pub fn not_a_directory_error() -> (r: OsErrorCode)
    ensures
        r == not_a_directory_error_spec(),
{
    let code = native::error_directory();
    OsErrorCode { not_found_kind: false, raw: Some(code as i32) }
}

/// The synthesized error for a rejected symlink: the platform's
/// stopped-on-symlink code. Synthesized because the native open call follows
/// reparse points transparently and reports no error of its own for this.
pub open spec fn stopped_on_symlink_error_spec() -> OsErrorCode {
    OsErrorCode { not_found_kind: false, raw: Some(native::ERROR_STOPPED_ON_SYMLINK_CODE as i32) }
}

/// Build the rejected-symlink error.
pub fn stopped_on_symlink_error() -> (r: OsErrorCode)
    ensures
        r == stopped_on_symlink_error_spec(),
{
    let code = native::error_stopped_on_symlink();
    OsErrorCode { not_found_kind: false, raw: Some(code as i32) }
}

/// Classification is exhaustive and exclusive: every failed native open maps
/// to exactly one of `NotFound` / `Other`, never to `Symlink`, and the
/// original error rides along unmodified.
pub proof fn lemma_classification_exhaustive(e: OsErrorCode)
    ensures
        classify_failure_spec(e) is NotFound <==> is_not_found_error(e),
        classify_failure_spec(e) is Other <==> !is_not_found_error(e),
        !(classify_failure_spec(e) is Symlink),
        classify_failure_spec(e) is NotFound ==> classify_failure_spec(e)->NotFound_0 == e,
        classify_failure_spec(e) is Other ==> classify_failure_spec(e)->Other_0 == e,
{
}

} // verus!
