use open_verify::options::{ambient_authority, FollowSymlinks, OpenOptions};

#[test]
fn new_options_have_everything_off() {
    let o = OpenOptions::new();
    assert!(!o.read);
    assert!(!o.write);
    assert!(!o.append);
    assert!(!o.truncate);
    assert!(!o.create);
    assert!(!o.create_new);
    assert!(!o.dir_required);
    assert_eq!(o.follow, FollowSymlinks::Yes);
    assert_eq!(o.ext.custom_flags, 0);
}

#[test]
fn setters_change_only_their_field() {
    let mut o = OpenOptions::new();
    o.read(true);
    assert!(o.read && !o.write);
    o.write(true);
    o.append(true);
    o.truncate(true);
    o.create(true);
    o.create_new(true);
    o.dir_required(true);
    o.follow(FollowSymlinks::No);
    o.custom_flags(7);
    assert!(o.read && o.write && o.append && o.truncate && o.create && o.create_new);
    assert!(o.dir_required);
    assert_eq!(o.follow, FollowSymlinks::No);
    assert_eq!(o.ext.custom_flags, 7);
}

#[test]
fn ambient_authority_is_obtainable() {
    // The marker exists only to make unsandboxed call sites visible; it
    // carries nothing.
    let a = ambient_authority();
    let _b = a;
}
