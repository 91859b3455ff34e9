//! Translation of portable open options into native open flags.
//!
//! Native truncate-on-open is unsafe when symlink traversal must be refused:
//! the native call would truncate *through* a symlink before the post-open
//! symlink check can run. So when the caller asks for both truncation and
//! no-follow, the translation switches native truncation off and reports that
//! truncation must be re-issued manually, after verification.

use vstd::prelude::*;
use crate::options::{FollowSymlinks, OpenOptions};

verus! {

/// The flags handed to the native open call.
#[derive(Clone, Copy, Debug, PartialEq, Eq, Structural)]
pub struct NativeOpenFlags {
    /// Open for reading.
    pub read: bool,
    /// Open for writing.
    pub write: bool,
    /// Open in append mode.
    pub append: bool,
    /// Truncate natively on open.
    pub truncate: bool,
    /// Create the file if it does not exist.
    pub create: bool,
    /// Create the file, failing if it already exists.
    pub create_new: bool,
    /// Extra native open flags, handed through from the caller.
    pub custom_flags: u32,
}

/// Truncation must be deferred to the manual, post-verification path exactly
/// when the caller asked for truncation while forbidding symlink traversal.
pub open spec fn manually_trunc_spec(o: OpenOptions) -> bool {
    o.truncate && o.follow is No
}

/// What translation yields: every intent copied through, except that native
/// truncation is suppressed whenever it must happen manually instead.
pub open spec fn translate_spec(o: OpenOptions) -> NativeOpenFlags {
    NativeOpenFlags {
        read: o.read,
        write: o.write,
        append: o.append,
        truncate: o.truncate && !manually_trunc_spec(o),
        create: o.create,
        create_new: o.create_new,
        custom_flags: o.ext.custom_flags,
    }
}

/// Translate portable options into native open flags, and report whether
/// truncation was deferred to the manual path.
pub fn translate(o: &OpenOptions) -> (r: (NativeOpenFlags, bool))
    ensures
        r.0 == translate_spec(*o),
        r.1 == manually_trunc_spec(*o),
{
    let manually_trunc = o.truncate && matches!(o.follow, FollowSymlinks::No);
    let flags = NativeOpenFlags {
        read: o.read,
        write: o.write,
        append: o.append,
        truncate: o.truncate && !manually_trunc,
        create: o.create,
        create_new: o.create_new,
        custom_flags: o.ext.custom_flags,
    };
    (flags, manually_trunc)
}

/// Translation is a pure function of the options: translating equal options
/// yields identical native flags and the identical deferred-truncation
/// decision, so translating the same options twice cannot disagree.
pub proof fn lemma_translation_deterministic(a: OpenOptions, b: OpenOptions)
    requires
        a == b,
    ensures
        translate_spec(a) == translate_spec(b),
        manually_trunc_spec(a) == manually_trunc_spec(b),
{
}

/// The caller's truncation intent is honored exactly once: either natively on
/// open or deferred to the manual path, never both, and never dropped.
pub proof fn lemma_truncation_exactly_once(o: OpenOptions)
    ensures
        !(translate_spec(o).truncate && manually_trunc_spec(o)),
        (translate_spec(o).truncate || manually_trunc_spec(o)) <==> o.truncate,
{
}

} // verus!
