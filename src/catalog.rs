//! The two permission catalogs: wire code, identifier and policy name of each
//! permission, with a total decoding that maps every unknown code to `NoPermission`.

use vstd::prelude::*;

verus! {

/// Permissions of the `keystore2_key` security class, as sent on the wire.
#[derive(Clone, Copy, Debug, PartialEq, Eq, Structural)]
pub enum KeyPermission {
    /// Not a permission: it can never be granted.
    NoPermission,
    Delete,
    GenUniqueId,
    GetInfo,
    Grant,
    List,
    ManageBlob,
    Rebind,
    ReqForcedOp,
    Update,
    Use,
    UseDevId,
}

/// Wire code of a key permission.
pub open spec fn key_code(p: KeyPermission) -> int {
    match p {
        KeyPermission::NoPermission => 0,
        KeyPermission::Delete => 0x1,
        KeyPermission::GenUniqueId => 0x2,
        KeyPermission::GetInfo => 0x4,
        KeyPermission::Grant => 0x8,
        KeyPermission::List => 0x10,
        KeyPermission::ManageBlob => 0x20,
        KeyPermission::Rebind => 0x40,
        KeyPermission::ReqForcedOp => 0x80,
        KeyPermission::Update => 0x100,
        KeyPermission::Use => 0x200,
        KeyPermission::UseDevId => 0x400,
    }
}

/// Bit position of a key permission's wire code.
pub open spec fn key_pos(p: KeyPermission) -> u32 {
    match p {
        KeyPermission::NoPermission => 32,
        KeyPermission::Delete => 0,
        KeyPermission::GenUniqueId => 1,
        KeyPermission::GetInfo => 2,
        KeyPermission::Grant => 3,
        KeyPermission::List => 4,
        KeyPermission::ManageBlob => 5,
        KeyPermission::Rebind => 6,
        KeyPermission::ReqForcedOp => 7,
        KeyPermission::Update => 8,
        KeyPermission::Use => 9,
        KeyPermission::UseDevId => 10,
    }
}

/// The key permission with wire code `c`; `NoPermission` for every code outside the catalog.
pub open spec fn key_decode(c: int) -> KeyPermission {
    if c == 0x1 {
        KeyPermission::Delete
    } else if c == 0x2 {
        KeyPermission::GenUniqueId
    } else if c == 0x4 {
        KeyPermission::GetInfo
    } else if c == 0x8 {
        KeyPermission::Grant
    } else if c == 0x10 {
        KeyPermission::List
    } else if c == 0x20 {
        KeyPermission::ManageBlob
    } else if c == 0x40 {
        KeyPermission::Rebind
    } else if c == 0x80 {
        KeyPermission::ReqForcedOp
    } else if c == 0x100 {
        KeyPermission::Update
    } else if c == 0x200 {
        KeyPermission::Use
    } else if c == 0x400 {
        KeyPermission::UseDevId
    } else {
        KeyPermission::NoPermission
    }
}

/// Policy name of a key permission, the vocabulary of the backend's access checks.
pub open spec fn key_name(p: KeyPermission) -> Seq<char> {
    match p {
        KeyPermission::NoPermission => "none"@,
        KeyPermission::Delete => "delete"@,
        KeyPermission::GenUniqueId => "gen_unique_id"@,
        KeyPermission::GetInfo => "get_info"@,
        KeyPermission::Grant => "grant"@,
        KeyPermission::List => "list"@,
        KeyPermission::ManageBlob => "manage_blob"@,
        KeyPermission::Rebind => "rebind"@,
        KeyPermission::ReqForcedOp => "req_forced_op"@,
        KeyPermission::Update => "update"@,
        KeyPermission::Use => "use"@,
        KeyPermission::UseDevId => "use_dev_id"@,
    }
}

/// A key permission of the `keystore2_key` class.
#[derive(Clone, Copy, Debug, PartialEq, Eq, Structural)]
pub struct KeyPerm(pub KeyPermission);

impl KeyPerm {
    /// Returns the wire code of this permission.
    pub fn code(&self) -> (r: i32)
        ensures
            r == key_code(self.0),
    {
        match self.0 {
            KeyPermission::NoPermission => 0,
            KeyPermission::Delete => 0x1,
            KeyPermission::GenUniqueId => 0x2,
            KeyPermission::GetInfo => 0x4,
            KeyPermission::Grant => 0x8,
            KeyPermission::List => 0x10,
            KeyPermission::ManageBlob => 0x20,
            KeyPermission::Rebind => 0x40,
            KeyPermission::ReqForcedOp => 0x80,
            KeyPermission::Update => 0x100,
            KeyPermission::Use => 0x200,
            KeyPermission::UseDevId => 0x400,
        }
    }

    /// Returns the policy name of this permission, as the backend's access check takes it.
    pub fn to_selinux(&self) -> (r: &'static str)
        ensures
            r@ == key_name(self.0),
    {
        match self.0 {
            KeyPermission::NoPermission => "none",
            KeyPermission::Delete => "delete",
            KeyPermission::GenUniqueId => "gen_unique_id",
            KeyPermission::GetInfo => "get_info",
            KeyPermission::Grant => "grant",
            KeyPermission::List => "list",
            KeyPermission::ManageBlob => "manage_blob",
            KeyPermission::Rebind => "rebind",
            KeyPermission::ReqForcedOp => "req_forced_op",
            KeyPermission::Update => "update",
            KeyPermission::Use => "use",
            KeyPermission::UseDevId => "use_dev_id",
        }
    }

    /// The permission that can never be granted.
    pub fn none() -> (r: KeyPerm)
        ensures
            r.0 == KeyPermission::NoPermission,
    {
        KeyPerm(KeyPermission::NoPermission)
    }

    /// The `delete` permission.
    pub fn delete() -> (r: KeyPerm)
        ensures
            r.0 == KeyPermission::Delete,
    {
        KeyPerm(KeyPermission::Delete)
    }

    /// The `gen_unique_id` permission.
    pub fn gen_unique_id() -> (r: KeyPerm)
        ensures
            r.0 == KeyPermission::GenUniqueId,
    {
        KeyPerm(KeyPermission::GenUniqueId)
    }

    /// The `get_info` permission.
    pub fn get_info() -> (r: KeyPerm)
        ensures
            r.0 == KeyPermission::GetInfo,
    {
        KeyPerm(KeyPermission::GetInfo)
    }

    /// The `grant` permission.
    pub fn grant() -> (r: KeyPerm)
        ensures
            r.0 == KeyPermission::Grant,
    {
        KeyPerm(KeyPermission::Grant)
    }

    /// The `list` permission.
    pub fn list() -> (r: KeyPerm)
        ensures
            r.0 == KeyPermission::List,
    {
        KeyPerm(KeyPermission::List)
    }

    /// The `manage_blob` permission.
    pub fn manage_blob() -> (r: KeyPerm)
        ensures
            r.0 == KeyPermission::ManageBlob,
    {
        KeyPerm(KeyPermission::ManageBlob)
    }

    /// The `rebind` permission.
    pub fn rebind() -> (r: KeyPerm)
        ensures
            r.0 == KeyPermission::Rebind,
    {
        KeyPerm(KeyPermission::Rebind)
    }

    /// The `req_forced_op` permission.
    pub fn req_forced_op() -> (r: KeyPerm)
        ensures
            r.0 == KeyPermission::ReqForcedOp,
    {
        KeyPerm(KeyPermission::ReqForcedOp)
    }

    /// The `update` permission.
    pub fn update() -> (r: KeyPerm)
        ensures
            r.0 == KeyPermission::Update,
    {
        KeyPerm(KeyPermission::Update)
    }

    /// The `use` permission.
    pub fn use_() -> (r: KeyPerm)
        ensures
            r.0 == KeyPermission::Use,
    {
        KeyPerm(KeyPermission::Use)
    }

    /// The `use_dev_id` permission.
    pub fn use_dev_id() -> (r: KeyPerm)
        ensures
            r.0 == KeyPermission::UseDevId,
    {
        KeyPerm(KeyPermission::UseDevId)
    }
}

impl From<i32> for KeyPerm {
    /// Decodes a wire code; every code outside the catalog gives `none`.
    fn from(p: i32) -> (r: KeyPerm) {
        if p == 0x1 {
            KeyPerm(KeyPermission::Delete)
        } else if p == 0x2 {
            KeyPerm(KeyPermission::GenUniqueId)
        } else if p == 0x4 {
            KeyPerm(KeyPermission::GetInfo)
        } else if p == 0x8 {
            KeyPerm(KeyPermission::Grant)
        } else if p == 0x10 {
            KeyPerm(KeyPermission::List)
        } else if p == 0x20 {
            KeyPerm(KeyPermission::ManageBlob)
        } else if p == 0x40 {
            KeyPerm(KeyPermission::Rebind)
        } else if p == 0x80 {
            KeyPerm(KeyPermission::ReqForcedOp)
        } else if p == 0x100 {
            KeyPerm(KeyPermission::Update)
        } else if p == 0x200 {
            KeyPerm(KeyPermission::Use)
        } else if p == 0x400 {
            KeyPerm(KeyPermission::UseDevId)
        } else {
            KeyPerm(KeyPermission::NoPermission)
        }
    }
}

impl vstd::std_specs::convert::FromSpecImpl<i32> for KeyPerm {
    open spec fn obeys_from_spec() -> bool {
        true
    }

    open spec fn from_spec(p: i32) -> KeyPerm {
        KeyPerm(key_decode(p as int))
    }
}

/// Permissions of the `keystore2` security class, which guards the service itself.
#[derive(Clone, Copy, Debug, PartialEq, Eq, Structural)]
pub enum KeystorePermission {
    /// Not a permission: it can never be granted.
    NoPermission,
    /// Checked when a new auth token is installed.
    AddAuth,
    /// Checked when an app is uninstalled or wiped.
    ClearNs,
    /// Checked when the locked state of the service is queried.
    GetState,
    /// Checked when the service gets locked.
    Lock,
    /// Checked when the service shall be reset.
    Reset,
    /// Checked when the service shall be unlocked.
    Unlock,
}

/// Wire code of a service permission.
pub open spec fn keystore_code(p: KeystorePermission) -> int {
    match p {
        KeystorePermission::NoPermission => 0,
        KeystorePermission::AddAuth => 0x1,
        KeystorePermission::ClearNs => 0x2,
        KeystorePermission::GetState => 0x4,
        KeystorePermission::Lock => 0x8,
        KeystorePermission::Reset => 0x10,
        KeystorePermission::Unlock => 0x20,
    }
}

/// The service permission with wire code `c`; `NoPermission` for every code outside the catalog.
pub open spec fn keystore_decode(c: int) -> KeystorePermission {
    if c == 0x1 {
        KeystorePermission::AddAuth
    } else if c == 0x2 {
        KeystorePermission::ClearNs
    } else if c == 0x4 {
        KeystorePermission::GetState
    } else if c == 0x8 {
        KeystorePermission::Lock
    } else if c == 0x10 {
        KeystorePermission::Reset
    } else if c == 0x20 {
        KeystorePermission::Unlock
    } else {
        KeystorePermission::NoPermission
    }
}

/// Policy name of a service permission.
pub open spec fn keystore_name(p: KeystorePermission) -> Seq<char> {
    match p {
        KeystorePermission::NoPermission => "none"@,
        KeystorePermission::AddAuth => "add_auth"@,
        KeystorePermission::ClearNs => "clear_ns"@,
        KeystorePermission::GetState => "get_state"@,
        KeystorePermission::Lock => "lock"@,
        KeystorePermission::Reset => "reset"@,
        KeystorePermission::Unlock => "unlock"@,
    }
}

/// A service permission of the `keystore2` class.
#[derive(Clone, Copy, Debug, PartialEq, Eq, Structural)]
pub struct KeystorePerm(pub KeystorePermission);

impl KeystorePerm {
    /// Returns the wire code of this permission.
    pub fn code(&self) -> (r: i32)
        ensures
            r == keystore_code(self.0),
    {
        match self.0 {
            KeystorePermission::NoPermission => 0,
            KeystorePermission::AddAuth => 0x1,
            KeystorePermission::ClearNs => 0x2,
            KeystorePermission::GetState => 0x4,
            KeystorePermission::Lock => 0x8,
            KeystorePermission::Reset => 0x10,
            KeystorePermission::Unlock => 0x20,
        }
    }

    /// Returns the policy name of this permission, as the backend's access check takes it.
    pub fn to_selinux(&self) -> (r: &'static str)
        ensures
            r@ == keystore_name(self.0),
    {
        match self.0 {
            KeystorePermission::NoPermission => "none",
            KeystorePermission::AddAuth => "add_auth",
            KeystorePermission::ClearNs => "clear_ns",
            KeystorePermission::GetState => "get_state",
            KeystorePermission::Lock => "lock",
            KeystorePermission::Reset => "reset",
            KeystorePermission::Unlock => "unlock",
        }
    }

    /// The permission that can never be granted.
    pub fn none() -> (r: KeystorePerm)
        ensures
            r.0 == KeystorePermission::NoPermission,
    {
        KeystorePerm(KeystorePermission::NoPermission)
    }

    /// The `add_auth` permission.
    pub fn add_auth() -> (r: KeystorePerm)
        ensures
            r.0 == KeystorePermission::AddAuth,
    {
        KeystorePerm(KeystorePermission::AddAuth)
    }

    /// The `clear_ns` permission.
    pub fn clear_ns() -> (r: KeystorePerm)
        ensures
            r.0 == KeystorePermission::ClearNs,
    {
        KeystorePerm(KeystorePermission::ClearNs)
    }

    /// The `get_state` permission.
    pub fn get_state() -> (r: KeystorePerm)
        ensures
            r.0 == KeystorePermission::GetState,
    {
        KeystorePerm(KeystorePermission::GetState)
    }

    /// The `lock` permission.
    pub fn lock() -> (r: KeystorePerm)
        ensures
            r.0 == KeystorePermission::Lock,
    {
        KeystorePerm(KeystorePermission::Lock)
    }

    /// The `reset` permission.
    pub fn reset() -> (r: KeystorePerm)
        ensures
            r.0 == KeystorePermission::Reset,
    {
        KeystorePerm(KeystorePermission::Reset)
    }

    /// The `unlock` permission.
    pub fn unlock() -> (r: KeystorePerm)
        ensures
            r.0 == KeystorePermission::Unlock,
    {
        KeystorePerm(KeystorePermission::Unlock)
    }
}

impl From<i32> for KeystorePerm {
    /// Decodes a wire code; every code outside the catalog gives `none`.
    fn from(p: i32) -> (r: KeystorePerm) {
        if p == 0x1 {
            KeystorePerm(KeystorePermission::AddAuth)
        } else if p == 0x2 {
            KeystorePerm(KeystorePermission::ClearNs)
        } else if p == 0x4 {
            KeystorePerm(KeystorePermission::GetState)
        } else if p == 0x8 {
            KeystorePerm(KeystorePermission::Lock)
        } else if p == 0x10 {
            KeystorePerm(KeystorePermission::Reset)
        } else if p == 0x20 {
            KeystorePerm(KeystorePermission::Unlock)
        } else {
            KeystorePerm(KeystorePermission::NoPermission)
        }
    }
}

impl vstd::std_specs::convert::FromSpecImpl<i32> for KeystorePerm {
    open spec fn obeys_from_spec() -> bool {
        true
    }

    open spec fn from_spec(p: i32) -> KeystorePerm {
        KeystorePerm(keystore_decode(p as int))
    }
}

} // verus!
