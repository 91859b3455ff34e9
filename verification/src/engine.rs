//! The open-and-verify engine.
//!
//! The engine owns every decision of the open primitive; the native calls it
//! decides on — open, metadata query, truncate — are performed by an
//! unverified driver. The driver starts an engine, performs each action the
//! engine asks for, and feeds the outcome back as an event, until the engine
//! answers `Succeed` or `Fail`.
//!
//! Verification metadata is always taken from the already-open handle, never
//! re-derived from the path: the `Metadata` event carries a snapshot the
//! driver read through the handle, so a concurrent filesystem mutation after
//! the open call cannot change what is being verified.
//!
//! A failed manual truncate has no event: by construction it only runs on a
//! handle just opened for writing, so a failure there is a programming
//! invariant violation, and the driver must abort loudly rather than map it
//! to an error variant.

use vstd::prelude::*;
use crate::errors::{
    classify_failure, classify_failure_spec, not_a_directory_error, not_a_directory_error_spec,
    stopped_on_symlink_error, stopped_on_symlink_error_spec, OpenUncheckedError, OsErrorCode,
    SymlinkKind,
};
use crate::native;
use crate::options::{AmbientAuthority, FollowSymlinks, OpenOptions};
use crate::translate::{manually_trunc_spec, translate, translate_spec, NativeOpenFlags};

verus! {

/// The directory attribute bit is set in a native file attribute word. The
/// attribute word is consulted rather than the resolved file type, since the
/// latter reports a directory symlink as not-a-directory.
pub open spec fn has_dir_attribute(attrs: u32) -> bool {
    attrs & native::FILE_ATTRIBUTE_DIRECTORY_BIT != 0
}

/// The caller's custom flags ask the native open call to open a reparse
/// point itself rather than traverse it.
pub open spec fn opens_reparse_point(custom_flags: u32) -> bool {
    custom_flags & native::FILE_FLAG_OPEN_REPARSE_POINT_BIT != 0
}

/// What verification reads of the open handle's metadata: the native file
/// attribute word, and whether the file type reports a symlink / reparse
/// point.
#[derive(Clone, Copy, Debug, PartialEq, Eq, Structural)]
pub struct HandleMetadata {
    /// The native file attribute word.
    pub file_attributes: u32,
    /// The file type reports a symlink / reparse point.
    pub is_symlink: bool,
}

/// How a rejected symlink is classified for diagnostics: by the directory
/// attribute on the reparse point itself.
pub open spec fn symlink_kind_of(m: HandleMetadata) -> SymlinkKind {
    if has_dir_attribute(m.file_attributes) {
        SymlinkKind::Dir
    } else {
        SymlinkKind::File
    }
}

/// The outcome of one native call, reported back to the engine by the driver.
#[derive(Clone, Copy, Debug, PartialEq, Eq, Structural)]
pub enum OpenEvent {
    /// The native open succeeded; the driver now holds the handle.
    Opened,
    /// The native open failed with this error.
    OpenFailed(OsErrorCode),
    /// Metadata was read through the open handle.
    Metadata(HandleMetadata),
    /// The metadata query on the open handle failed.
    MetadataFailed(OsErrorCode),
    /// The manual truncate of the open handle succeeded.
    Truncated,
}

/// What the driver must do next.
#[derive(Clone, Copy, Debug, PartialEq, Eq, Structural)]
pub enum OpenAction {
    /// Issue the native open call with these flags.
    Open(NativeOpenFlags),
    /// Read metadata through the open handle.
    Stat,
    /// Truncate the open handle to zero length.
    Truncate,
    /// Verification is complete: hand the open handle to the caller.
    Succeed,
    /// Return this error to the caller, closing any open handle.
    Fail(OpenUncheckedError),
}

/// Which event the engine is waiting for.
#[derive(Clone, Copy, Debug, PartialEq, Eq, Structural)]
pub enum Phase {
    /// The native open was issued.
    Opening,
    /// The metadata query was issued.
    Checking,
    /// The manual truncate was issued.
    Truncating,
    /// A `Succeed` or `Fail` action was returned; no further events.
    Done,
}

/// The verified decision core of one open operation. Built from the caller's
/// options, stepped by the driver with one event per native call.
#[derive(Clone, Copy, Debug, PartialEq, Eq, Structural)]
pub struct OpenEngine {
    /// The opened object must be a directory.
    pub enforce_dir: bool,
    /// A symlink at the opened object must be rejected: the caller forbade
    /// following, and did not ask to open the reparse point itself.
    pub enforce_nofollow: bool,
    /// Truncation was deferred to the manual, post-verification path.
    pub manually_trunc: bool,
    /// Which event is expected next.
    pub phase: Phase,
}

impl OpenEngine {
    /// The engine a given set of options starts.
    pub open spec fn start_spec(options: OpenOptions) -> OpenEngine {
        OpenEngine {
            enforce_dir: options.dir_required,
            enforce_nofollow: options.follow is No
                && !opens_reparse_point(options.ext.custom_flags),
            manually_trunc: manually_trunc_spec(options),
            phase: Phase::Opening,
        }
    }

    /// The metadata snapshot passes every check the options require.
    pub open spec fn metadata_passes(self, m: HandleMetadata) -> bool {
        &&& self.enforce_dir ==> has_dir_attribute(m.file_attributes)
        &&& self.enforce_nofollow ==> !m.is_symlink
    }

    /// The event answers the action the engine last issued.
    pub open spec fn accepts(self, event: OpenEvent) -> bool {
        match event {
            OpenEvent::Opened => self.phase is Opening,
            OpenEvent::OpenFailed(_) => self.phase is Opening,
            OpenEvent::Metadata(_) => self.phase is Checking,
            OpenEvent::MetadataFailed(_) => self.phase is Checking,
            OpenEvent::Truncated => self.phase is Truncating,
        }
    }

    /// The transition relation: the engine after the event, and the action
    /// the driver must take next.
    pub open spec fn step_spec(self, event: OpenEvent) -> (OpenEngine, OpenAction) {
        match event {
            OpenEvent::Opened => {
                if self.enforce_dir || self.enforce_nofollow {
                    (OpenEngine { phase: Phase::Checking, ..self }, OpenAction::Stat)
                } else if self.manually_trunc {
                    (OpenEngine { phase: Phase::Truncating, ..self }, OpenAction::Truncate)
                } else {
                    (OpenEngine { phase: Phase::Done, ..self }, OpenAction::Succeed)
                }
            }
            OpenEvent::OpenFailed(e) => (
                OpenEngine { phase: Phase::Done, ..self },
                OpenAction::Fail(classify_failure_spec(e)),
            ),
            OpenEvent::Metadata(m) => {
                if self.enforce_dir && !has_dir_attribute(m.file_attributes) {
                    (
                        OpenEngine { phase: Phase::Done, ..self },
                        OpenAction::Fail(
                            OpenUncheckedError::Other(not_a_directory_error_spec()),
                        ),
                    )
                } else if self.enforce_nofollow && m.is_symlink {
                    (
                        OpenEngine { phase: Phase::Done, ..self },
                        OpenAction::Fail(
                            OpenUncheckedError::Symlink(
                                stopped_on_symlink_error_spec(),
                                symlink_kind_of(m),
                            ),
                        ),
                    )
                } else if self.manually_trunc {
                    (OpenEngine { phase: Phase::Truncating, ..self }, OpenAction::Truncate)
                } else {
                    (OpenEngine { phase: Phase::Done, ..self }, OpenAction::Succeed)
                }
            }
            OpenEvent::MetadataFailed(e) => (
                OpenEngine { phase: Phase::Done, ..self },
                OpenAction::Fail(OpenUncheckedError::Other(e)),
            ),
            OpenEvent::Truncated => (
                OpenEngine { phase: Phase::Done, ..self },
                OpenAction::Succeed,
            ),
        }
    }

    /// Begin an open operation: translate the options and ask the driver to
    /// issue the native open with the translated flags.
    ///
    /// The authority marker is required but never inspected: it marks the
    /// call site as deliberately unsandboxed.
    pub fn start(options: &OpenOptions, authority: AmbientAuthority) -> (r: (OpenEngine, OpenAction))
        ensures
            r.0 == OpenEngine::start_spec(*options),
            r.1 == OpenAction::Open(translate_spec(*options)),
    {
        let (flags, manually_trunc) = translate(options);
        let reparse = native::file_flag_open_reparse_point();
        let enforce_nofollow = matches!(options.follow, FollowSymlinks::No)
            && options.ext.custom_flags & reparse == 0;
        let engine = OpenEngine {
            enforce_dir: options.dir_required,
            enforce_nofollow,
            manually_trunc,
            phase: Phase::Opening,
        };
        (engine, OpenAction::Open(flags))
    }

    /// Feed the outcome of the last native call to the engine and obtain the
    /// next action.
    pub fn step(&mut self, event: OpenEvent) -> (action: OpenAction)
        requires
            old(self).accepts(event),
        ensures
            (*final(self), action) == old(self).step_spec(event),
    {
        match event {
            OpenEvent::Opened => {
                if self.enforce_dir || self.enforce_nofollow {
                    self.phase = Phase::Checking;
                    OpenAction::Stat
                } else if self.manually_trunc {
                    self.phase = Phase::Truncating;
                    OpenAction::Truncate
                } else {
                    self.phase = Phase::Done;
                    OpenAction::Succeed
                }
            }
            OpenEvent::OpenFailed(e) => {
                self.phase = Phase::Done;
                OpenAction::Fail(classify_failure(e))
            }
            OpenEvent::Metadata(m) => {
                let dir_bit = native::file_attribute_directory();
                let is_dir = m.file_attributes & dir_bit != 0;
                if self.enforce_dir && !is_dir {
                    self.phase = Phase::Done;
                    OpenAction::Fail(OpenUncheckedError::Other(not_a_directory_error()))
                } else if self.enforce_nofollow && m.is_symlink {
                    self.phase = Phase::Done;
                    let kind = if is_dir {
                        SymlinkKind::Dir
                    } else {
                        SymlinkKind::File
                    };
                    OpenAction::Fail(
                        OpenUncheckedError::Symlink(stopped_on_symlink_error(), kind),
                    )
                } else if self.manually_trunc {
                    self.phase = Phase::Truncating;
                    OpenAction::Truncate
                } else {
                    self.phase = Phase::Done;
                    OpenAction::Succeed
                }
            }
            OpenEvent::MetadataFailed(e) => {
                self.phase = Phase::Done;
                OpenAction::Fail(OpenUncheckedError::Other(e))
            }
            OpenEvent::Truncated => {
                self.phase = Phase::Done;
                OpenAction::Succeed
            }
        }
    }
}

/// For a successful native open, the engine produces exactly one outcome per
/// metadata snapshot — a directory violation, a symlink rejection, or an
/// accepted handle (truncated first when deferred truncation is pending) —
/// each under a stated, mutually exclusive condition.
pub proof fn lemma_verification_exclusive(s: OpenEngine, m: HandleMetadata)
    ensures
        (s.step_spec(OpenEvent::Metadata(m)).1 is Fail) <==> !s.metadata_passes(m),
        (s.step_spec(OpenEvent::Metadata(m)).1 is Truncate) <==> (s.metadata_passes(m)
            && s.manually_trunc),
        (s.step_spec(OpenEvent::Metadata(m)).1 is Succeed) <==> (s.metadata_passes(m)
            && !s.manually_trunc),
        s.step_spec(OpenEvent::Metadata(m)).1 is Fail ==> (s.step_spec(OpenEvent::Metadata(m)).1
            == OpenAction::Fail(OpenUncheckedError::Other(not_a_directory_error_spec()))
            || s.step_spec(OpenEvent::Metadata(m)).1 == OpenAction::Fail(
            OpenUncheckedError::Symlink(stopped_on_symlink_error_spec(), symlink_kind_of(m)),
        )),
{
}

/// Directory-type enforcement takes priority: a snapshot that is both
/// "not a directory" and "a symlink", under both checks, is reported as the
/// not-a-directory failure, never as the symlink failure. This tie-break is a
/// fixed design choice.
pub proof fn lemma_dir_check_takes_priority(s: OpenEngine, m: HandleMetadata)
    requires
        s.enforce_dir,
        s.enforce_nofollow,
        !has_dir_attribute(m.file_attributes),
        m.is_symlink,
    ensures
        s.step_spec(OpenEvent::Metadata(m)).1 == OpenAction::Fail(
            OpenUncheckedError::Other(not_a_directory_error_spec()),
        ),
        !(s.step_spec(OpenEvent::Metadata(m)).1 matches OpenAction::Fail(e) && e is Symlink),
{
}

/// The verdict is handle-sourced: it is a function of the engine's
/// options-derived fields and the metadata snapshot read through the open
/// handle alone. The path never re-enters the decision, so equal snapshots
/// give equal verdicts whatever the filesystem did after the open call.
pub proof fn lemma_verdict_handle_sourced(
    s1: OpenEngine,
    s2: OpenEngine,
    m1: HandleMetadata,
    m2: HandleMetadata,
)
    requires
        s1 == s2,
        m1 == m2,
    ensures
        s1.step_spec(OpenEvent::Metadata(m1)) == s2.step_spec(OpenEvent::Metadata(m2)),
{
}

/// Truncation never precedes verification: the engine issues the manual
/// truncate only when truncation was deferred, and then only on metadata
/// that passed every required check, or straight after the open when no
/// check was required at all.
pub proof fn lemma_truncation_after_verification(s: OpenEngine, event: OpenEvent)
    ensures
        s.step_spec(event).1 is Truncate ==> s.manually_trunc && (match event {
            OpenEvent::Opened => !s.enforce_dir && !s.enforce_nofollow,
            OpenEvent::Metadata(m) => s.metadata_passes(m),
            _ => false,
        }),
{
}

/// A forbidden symlink is never truncated: under the no-follow check, a
/// symlink snapshot always fails, so the deferred truncate is never reached.
pub proof fn lemma_forbidden_symlink_never_truncated(s: OpenEngine, m: HandleMetadata)
    requires
        s.enforce_nofollow,
        m.is_symlink,
    ensures
        s.step_spec(OpenEvent::Metadata(m)).1 is Fail,
        !(s.step_spec(OpenEvent::Metadata(m)).1 is Truncate),
{
}

} // verus!
