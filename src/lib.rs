//! Access-control primitives for a key-management service: the permission
//! catalogs of the `keystore2` and `keystore2_key` security classes, a bit set
//! of key permissions, and the decisions that combine them with the answers of
//! a mandatory-access-control backend.

pub mod bits;
pub mod catalog;
pub mod decision;
pub mod laws;
pub mod perm_set;

pub use catalog::{KeyPerm, KeyPermission, KeystorePerm, KeystorePermission};
pub use perm_set::{IntoIter, KeyPermSet};
pub use decision::{
    check_grant_permission, check_key_permission, check_keystore_permission, Action, Check, Domain,
    Error, ErrorKind, Event, KeyDescriptor, Step, Subject, Target,
};
