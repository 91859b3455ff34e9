//! Portable open options and the ambient-authority capability marker.

use vstd::prelude::*;

verus! {

/// Whether the open operation may traverse a symlink at the final path
/// component.
#[derive(Clone, Copy, Debug, PartialEq, Eq, Structural)]
pub enum FollowSymlinks {
    /// Traverse the symlink and open its target.
    Yes,
    /// Refuse to open through a symlink.
    No,
}

/// Platform-specific extension options: extra flags handed through to the
/// native open call unchanged.
#[derive(Clone, Copy, Debug, PartialEq, Eq, Structural)]
pub struct OpenOptionsExt {
    /// Extra native open flags requested by the caller.
    pub custom_flags: u32,
}

/// The portable open options a caller hands to the open primitive.
#[derive(Clone, Copy, Debug, PartialEq, Eq, Structural)]
pub struct OpenOptions {
    /// Open for reading.
    pub read: bool,
    /// Open for writing.
    pub write: bool,
    /// Open in append mode.
    pub append: bool,
    /// Truncate the file to zero length on open.
    pub truncate: bool,
    /// Create the file if it does not exist.
    pub create: bool,
    /// Create the file, failing if it already exists.
    pub create_new: bool,
    /// Require the opened object to be a directory.
    pub dir_required: bool,
    /// Whether a symlink at the final component may be traversed.
    pub follow: FollowSymlinks,
    /// Platform-specific extras.
    pub ext: OpenOptionsExt,
}

impl OpenOptions {
    /// The default options: nothing requested, symlinks followed.
    pub open spec fn default_spec() -> OpenOptions {
        OpenOptions {
            read: false,
            write: false,
            append: false,
            truncate: false,
            create: false,
            create_new: false,
            dir_required: false,
            follow: FollowSymlinks::Yes,
            ext: OpenOptionsExt { custom_flags: 0 },
        }
    }

    /// A fresh set of options with every intent off.
    pub fn new() -> (r: OpenOptions)
        ensures
            r == OpenOptions::default_spec(),
    {
        OpenOptions {
            read: false,
            write: false,
            append: false,
            truncate: false,
            create: false,
            create_new: false,
            dir_required: false,
            follow: FollowSymlinks::Yes,
            ext: OpenOptionsExt { custom_flags: 0 },
        }
    }

    /// Set the read intent.
    pub fn read(&mut self, read: bool)
        ensures
            *final(self) == (OpenOptions { read: read, ..*old(self) }),
    {
        self.read = read;
    }

    /// Set the write intent.
    pub fn write(&mut self, write: bool)
        ensures
            *final(self) == (OpenOptions { write: write, ..*old(self) }),
    {
        self.write = write;
    }

    /// Set append mode.
    pub fn append(&mut self, append: bool)
        ensures
            *final(self) == (OpenOptions { append: append, ..*old(self) }),
    {
        self.append = append;
    }

    /// Set truncate-on-open.
    pub fn truncate(&mut self, truncate: bool)
        ensures
            *final(self) == (OpenOptions { truncate: truncate, ..*old(self) }),
    {
        self.truncate = truncate;
    }

    /// Set create-if-missing.
    pub fn create(&mut self, create: bool)
        ensures
            *final(self) == (OpenOptions { create: create, ..*old(self) }),
    {
        self.create = create;
    }

    /// Set create-new (fail if the file exists).
    pub fn create_new(&mut self, create_new: bool)
        ensures
            *final(self) == (OpenOptions { create_new: create_new, ..*old(self) }),
    {
        self.create_new = create_new;
    }

    /// Require the opened object to be a directory.
    pub fn dir_required(&mut self, dir_required: bool)
        ensures
            *final(self) == (OpenOptions { dir_required: dir_required, ..*old(self) }),
    {
        self.dir_required = dir_required;
    }

    /// Set whether a symlink at the final component may be traversed.
    pub fn follow(&mut self, follow: FollowSymlinks)
        ensures
            *final(self) == (OpenOptions { follow: follow, ..*old(self) }),
    {
        self.follow = follow;
    }

    /// Set extra native open flags.
    pub fn custom_flags(&mut self, flags: u32)
        ensures
            *final(self) == (OpenOptions { ext: OpenOptionsExt { custom_flags: flags }, ..*old(self) }),
    {
        self.ext = OpenOptionsExt { custom_flags: flags };
    }
}

/// A zero-sized capability marker: holding one records that the call site
/// deliberately performs filesystem access outside any sandbox check. It
/// carries no information and is never inspected; it exists so that
/// unsandboxed call sites are lexically distinguishable from sandboxed ones.
#[derive(Clone, Copy, Debug)]
pub struct AmbientAuthority {
    _private: (),
}

/// Declare the intent to use ambient authority: the one way to obtain the
/// marker.
pub fn ambient_authority() -> AmbientAuthority {
    AmbientAuthority { _private: () }
}

} // verus!
