use open_verify::engine::{HandleMetadata, OpenAction, OpenEngine, OpenEvent, Phase};
use open_verify::errors::{OpenUncheckedError, OsErrorCode, SymlinkKind};
use open_verify::options::{ambient_authority, FollowSymlinks, OpenOptions};

const DIR_ATTR: u32 = 0x10;
const REPARSE_FLAG: u32 = 0x0020_0000;

fn options(
    truncate: bool,
    dir_required: bool,
    follow: FollowSymlinks,
    custom_flags: u32,
) -> OpenOptions {
    let mut o = OpenOptions::new();
    o.read(true);
    if truncate {
        o.write(true);
        o.truncate(true);
    }
    o.dir_required(dir_required);
    o.follow(follow);
    o.custom_flags(custom_flags);
    o
}

#[test]
fn scenario_nonexistent_path_is_not_found() {
    // Default options; the native open reports a missing file.
    let o = options(false, false, FollowSymlinks::Yes, 0);
    let (mut engine, action) = OpenEngine::start(&o, ambient_authority());
    assert!(matches!(action, OpenAction::Open(_)));
    let err = OsErrorCode { not_found_kind: true, raw: Some(2) };
    let action = engine.step(OpenEvent::OpenFailed(err));
    assert_eq!(action, OpenAction::Fail(OpenUncheckedError::NotFound(err)));
    assert_eq!(engine.phase, Phase::Done);
}

#[test]
fn scenario_regular_file_with_dir_required_is_other() {
    let o = options(false, true, FollowSymlinks::Yes, 0);
    let (mut engine, _) = OpenEngine::start(&o, ambient_authority());
    assert!(engine.enforce_dir);
    let action = engine.step(OpenEvent::Opened);
    assert_eq!(action, OpenAction::Stat);
    let meta = HandleMetadata { file_attributes: 0x20, is_symlink: false };
    let action = engine.step(OpenEvent::Metadata(meta));
    match action {
        OpenAction::Fail(OpenUncheckedError::Other(e)) => assert_eq!(e.raw, Some(267)),
        other => panic!("expected a not-a-directory failure, got {:?}", other),
    }
}

#[test]
fn scenario_directory_symlink_under_nofollow_is_symlink_dir() {
    let o = options(false, false, FollowSymlinks::No, 0);
    let (mut engine, _) = OpenEngine::start(&o, ambient_authority());
    assert!(engine.enforce_nofollow);
    let action = engine.step(OpenEvent::Opened);
    assert_eq!(action, OpenAction::Stat);
    let meta = HandleMetadata { file_attributes: DIR_ATTR, is_symlink: true };
    let action = engine.step(OpenEvent::Metadata(meta));
    match action {
        OpenAction::Fail(OpenUncheckedError::Symlink(e, kind)) => {
            assert_eq!(e.raw, Some(681));
            assert_eq!(kind, SymlinkKind::Dir);
        }
        other => panic!("expected a symlink rejection, got {:?}", other),
    }
}

#[test]
fn file_symlink_under_nofollow_is_symlink_file() {
    let o = options(false, false, FollowSymlinks::No, 0);
    let (mut engine, _) = OpenEngine::start(&o, ambient_authority());
    let _ = engine.step(OpenEvent::Opened);
    let meta = HandleMetadata { file_attributes: 0x20, is_symlink: true };
    let action = engine.step(OpenEvent::Metadata(meta));
    match action {
        OpenAction::Fail(OpenUncheckedError::Symlink(_, kind)) => {
            assert_eq!(kind, SymlinkKind::File)
        }
        other => panic!("expected a symlink rejection, got {:?}", other),
    }
}

#[test]
fn scenario_reparse_point_open_skips_nofollow_check() {
    // follow=No together with the reparse-point-open flag: redundant but
    // compatible; the engine must not double-reject.
    let o = options(false, false, FollowSymlinks::No, REPARSE_FLAG);
    let (mut engine, _) = OpenEngine::start(&o, ambient_authority());
    assert!(!engine.enforce_nofollow);
    let action = engine.step(OpenEvent::Opened);
    assert_eq!(action, OpenAction::Succeed);
    assert_eq!(engine.phase, Phase::Done);
}

#[test]
fn scenario_deferred_truncation_runs_after_verification() {
    let o = options(true, false, FollowSymlinks::No, 0);
    let (mut engine, action) = OpenEngine::start(&o, ambient_authority());
    // Native truncation must be off; truncation deferred.
    match action {
        OpenAction::Open(flags) => {
            assert!(!flags.truncate);
            assert!(flags.write);
        }
        other => panic!("expected an open action, got {:?}", other),
    }
    assert!(engine.manually_trunc);
    let action = engine.step(OpenEvent::Opened);
    assert_eq!(action, OpenAction::Stat);
    let meta = HandleMetadata { file_attributes: 0x20, is_symlink: false };
    let action = engine.step(OpenEvent::Metadata(meta));
    assert_eq!(action, OpenAction::Truncate);
    let action = engine.step(OpenEvent::Truncated);
    assert_eq!(action, OpenAction::Succeed);
}

#[test]
fn forbidden_symlink_is_never_truncated() {
    // Deferred truncation pending, but the target is a forbidden symlink:
    // the engine fails without ever issuing the truncate.
    let o = options(true, false, FollowSymlinks::No, 0);
    let (mut engine, _) = OpenEngine::start(&o, ambient_authority());
    assert!(engine.manually_trunc);
    let _ = engine.step(OpenEvent::Opened);
    let meta = HandleMetadata { file_attributes: 0x20, is_symlink: true };
    let action = engine.step(OpenEvent::Metadata(meta));
    assert!(matches!(
        action,
        OpenAction::Fail(OpenUncheckedError::Symlink(_, _))
    ));
    assert_eq!(engine.phase, Phase::Done);
}

#[test]
fn dir_check_wins_over_symlink_check() {
    // A snapshot that is both not-a-directory and a symlink, under both
    // checks: reported as not-a-directory, never as a symlink.
    let o = options(false, true, FollowSymlinks::No, 0);
    let (mut engine, _) = OpenEngine::start(&o, ambient_authority());
    assert!(engine.enforce_dir && engine.enforce_nofollow);
    let _ = engine.step(OpenEvent::Opened);
    let meta = HandleMetadata { file_attributes: 0, is_symlink: true };
    let action = engine.step(OpenEvent::Metadata(meta));
    match action {
        OpenAction::Fail(OpenUncheckedError::Other(e)) => assert_eq!(e.raw, Some(267)),
        other => panic!("expected the not-a-directory failure, got {:?}", other),
    }
}

#[test]
fn directory_symlink_passes_dir_check_when_following() {
    // dir_required with follow=Yes: a directory symlink's attribute word
    // carries the directory bit, so it passes.
    let o = options(false, true, FollowSymlinks::Yes, 0);
    let (mut engine, _) = OpenEngine::start(&o, ambient_authority());
    let _ = engine.step(OpenEvent::Opened);
    let meta = HandleMetadata { file_attributes: DIR_ATTR, is_symlink: true };
    let action = engine.step(OpenEvent::Metadata(meta));
    assert_eq!(action, OpenAction::Succeed);
}

#[test]
fn metadata_failure_is_other() {
    let o = options(false, true, FollowSymlinks::Yes, 0);
    let (mut engine, _) = OpenEngine::start(&o, ambient_authority());
    let _ = engine.step(OpenEvent::Opened);
    let err = OsErrorCode { not_found_kind: false, raw: Some(5) };
    let action = engine.step(OpenEvent::MetadataFailed(err));
    assert_eq!(action, OpenAction::Fail(OpenUncheckedError::Other(err)));
}

#[test]
fn no_verification_means_no_stat() {
    // Neither dir_required nor nofollow: the handle is accepted without a
    // metadata query.
    let o = options(false, false, FollowSymlinks::Yes, 0);
    let (mut engine, _) = OpenEngine::start(&o, ambient_authority());
    let action = engine.step(OpenEvent::Opened);
    assert_eq!(action, OpenAction::Succeed);
}

#[test]
fn verdict_reflects_open_time_snapshot() {
    // Two engines from the same options, fed the same snapshot, decide the
    // same way; the path never re-enters the decision.
    let o = options(false, false, FollowSymlinks::No, 0);
    let meta = HandleMetadata { file_attributes: 0x20, is_symlink: true };
    let (mut e1, _) = OpenEngine::start(&o, ambient_authority());
    let (mut e2, _) = OpenEngine::start(&o, ambient_authority());
    let _ = e1.step(OpenEvent::Opened);
    let _ = e2.step(OpenEvent::Opened);
    assert_eq!(
        e1.step(OpenEvent::Metadata(meta)),
        e2.step(OpenEvent::Metadata(meta))
    );
}
