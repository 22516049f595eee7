//! The roles that members hold on a book.

use vstd::prelude::*;

verus! {

/// A user's permission level on a book.
#[derive(Debug, Clone, Copy, PartialEq, Eq, Structural)]
pub enum RoleKind {
    /// Full control of the book.
    Owner,
    /// May write records.
    Editor,
    /// Read-only: never authorizes a write.
    Viewer,
}

impl RoleKind {
    /// Whether this role authorizes writes.
    pub open spec fn writes(self) -> bool {
        self != RoleKind::Viewer
    }

    /// Whether this role authorizes writes.
    #[verifier::when_used_as_spec(writes)]
    pub fn can_write(self) -> (b: bool)
        ensures
            b == self.writes(),
    {
        match self {
            RoleKind::Owner => true,
            RoleKind::Editor => true,
            RoleKind::Viewer => false,
        }
    }
}

} // verus!
