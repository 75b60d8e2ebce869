//! Memory permissions.

use vstd::prelude::*;

verus! {

/// Permissions that might be associated with a region of memory.
#[derive(Clone, Copy, PartialEq, Eq, Structural, Debug)]
pub enum Permissions {
    ReadOnly,
    ReadWrite,
    ReadExecute,
}

impl Permissions {
    /// A human-readable name of the permissions.
    pub fn to_string(&self) -> (r: String)
        ensures
            r@ == permissions_name(*self)@,
    {
        match self {
            Permissions::ReadOnly => String::from_str("read-only"),
            Permissions::ReadWrite => String::from_str("read-write"),
            Permissions::ReadExecute => String::from_str("read-execute"),
        }
    }
}

/// The name of each kind of permissions.
pub open spec fn permissions_name(permissions: Permissions) -> &'static str {
    match permissions {
        Permissions::ReadOnly => "read-only",
        Permissions::ReadWrite => "read-write",
        Permissions::ReadExecute => "read-execute",
    }
}

} // verus!
