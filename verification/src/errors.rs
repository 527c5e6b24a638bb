//! The error kinds that the relocation engine reports.

use vstd::prelude::*;

verus! {

/// Why a single relocation failed.
#[derive(Clone, Copy, Debug, PartialEq, Eq, Structural)]
pub enum TrashError {
    /// the source (or the home directory) does not exist
    NotFound,
    /// the path has no final name component, or names a directory while
    /// recursive removal is not permitted
    InvalidInput,
    /// the filesystem refused access
    PermissionDenied,
    /// some other filesystem failure
    Io,
    /// a rename across filesystems
    CrossDevice,
    /// the collision counter was exhausted
    Conflict,
}

impl TrashError {
    /// A short description, for reporting a failed item.
    pub fn message(&self) -> (r: &'static str)
        ensures
            r@ == self.spec_message(),
    {
        match self {
            TrashError::NotFound => "No such file or directory",
            TrashError::InvalidInput => "Invalid input",
            TrashError::PermissionDenied => "Permission denied",
            TrashError::Io => "Input/output error",
            TrashError::CrossDevice => "Invalid cross-device link",
            TrashError::Conflict => "Too many name collisions",
        }
    }

    /// The description returned by [`TrashError::message`].
    pub open spec fn spec_message(self) -> Seq<char> {
        match self {
            TrashError::NotFound => "No such file or directory"@,
            TrashError::InvalidInput => "Invalid input"@,
            TrashError::PermissionDenied => "Permission denied"@,
            TrashError::Io => "Input/output error"@,
            TrashError::CrossDevice => "Invalid cross-device link"@,
            TrashError::Conflict => "Too many name collisions"@,
        }
    }
}

} // verus!
