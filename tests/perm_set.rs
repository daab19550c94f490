use keystore2_permission::{IntoIter, KeyPerm, KeyPermSet, KeyPermission, KeystorePerm, KeystorePermission};

fn key_perm_set(perms: &[KeyPerm]) -> KeyPermSet {
    KeyPermSet::from_perms(perms)
}

#[test]
fn key_perm_set_all_test() {
    let v = key_perm_set(&[
        KeyPerm::manage_blob(),
        KeyPerm::delete(),
        KeyPerm::use_dev_id(),
        KeyPerm::req_forced_op(),
        KeyPerm::gen_unique_id(),
        KeyPerm::grant(),
        KeyPerm::get_info(),
        KeyPerm::list(),
        KeyPerm::rebind(),
        KeyPerm::update(),
        KeyPerm::use_(),
    ]);
    let mut i = v.into_iter();
    assert_eq!(i.next().unwrap().to_selinux(), "delete");
    assert_eq!(i.next().unwrap().to_selinux(), "gen_unique_id");
    assert_eq!(i.next().unwrap().to_selinux(), "get_info");
    assert_eq!(i.next().unwrap().to_selinux(), "grant");
    assert_eq!(i.next().unwrap().to_selinux(), "list");
    assert_eq!(i.next().unwrap().to_selinux(), "manage_blob");
    assert_eq!(i.next().unwrap().to_selinux(), "rebind");
    assert_eq!(i.next().unwrap().to_selinux(), "req_forced_op");
    assert_eq!(i.next().unwrap().to_selinux(), "update");
    assert_eq!(i.next().unwrap().to_selinux(), "use");
    assert_eq!(i.next().unwrap().to_selinux(), "use_dev_id");
    assert_eq!(None, i.next());
}

#[test]
fn key_perm_set_sparse_test() {
    let v = key_perm_set(&[
        KeyPerm::manage_blob(),
        KeyPerm::req_forced_op(),
        KeyPerm::gen_unique_id(),
        KeyPerm::list(),
        KeyPerm::update(),
        KeyPerm::use_(),
    ]);
    let mut i = v.into_iter();
    assert_eq!(i.next().unwrap().to_selinux(), "gen_unique_id");
    assert_eq!(i.next().unwrap().to_selinux(), "list");
    assert_eq!(i.next().unwrap().to_selinux(), "manage_blob");
    assert_eq!(i.next().unwrap().to_selinux(), "req_forced_op");
    assert_eq!(i.next().unwrap().to_selinux(), "update");
    assert_eq!(i.next().unwrap().to_selinux(), "use");
    assert_eq!(None, i.next());
}

#[test]
fn key_perm_set_empty_test() {
    let v = key_perm_set(&[]);
    let mut i = v.into_iter();
    assert_eq!(None, i.next());
}

#[test]
fn key_perm_set_include_subset_test() {
    let v1 = key_perm_set(&[
        KeyPerm::manage_blob(),
        KeyPerm::delete(),
        KeyPerm::use_dev_id(),
        KeyPerm::req_forced_op(),
        KeyPerm::gen_unique_id(),
        KeyPerm::grant(),
        KeyPerm::get_info(),
        KeyPerm::list(),
        KeyPerm::rebind(),
        KeyPerm::update(),
        KeyPerm::use_(),
    ]);
    let v2 = key_perm_set(&[
        KeyPerm::manage_blob(),
        KeyPerm::delete(),
        KeyPerm::list(),
        KeyPerm::rebind(),
        KeyPerm::update(),
        KeyPerm::use_(),
    ]);
    assert!(v1.includes(v2));
    assert!(!v2.includes(v1));
}

#[test]
fn key_perm_set_include_equal_test() {
    let v1 = key_perm_set(&[
        KeyPerm::manage_blob(),
        KeyPerm::delete(),
        KeyPerm::list(),
        KeyPerm::rebind(),
        KeyPerm::update(),
        KeyPerm::use_(),
    ]);
    let v2 = key_perm_set(&[
        KeyPerm::manage_blob(),
        KeyPerm::delete(),
        KeyPerm::list(),
        KeyPerm::rebind(),
        KeyPerm::update(),
        KeyPerm::use_(),
    ]);
    assert!(v1.includes(v2));
    assert!(v2.includes(v1));
}

#[test]
fn key_perm_set_include_overlap_test() {
    let v1 = key_perm_set(&[
        KeyPerm::manage_blob(),
        KeyPerm::delete(),
        KeyPerm::grant(), // only in v1
        KeyPerm::list(),
        KeyPerm::rebind(),
        KeyPerm::update(),
        KeyPerm::use_(),
    ]);
    let v2 = key_perm_set(&[
        KeyPerm::manage_blob(),
        KeyPerm::delete(),
        KeyPerm::req_forced_op(), // only in v2
        KeyPerm::list(),
        KeyPerm::rebind(),
        KeyPerm::update(),
        KeyPerm::use_(),
    ]);
    assert!(!v1.includes(v2));
    assert!(!v2.includes(v1));
}

#[test]
fn key_perm_set_include_no_overlap_test() {
    let v1 = key_perm_set(&[KeyPerm::manage_blob(), KeyPerm::delete(), KeyPerm::grant()]);
    let v2 = key_perm_set(&[
        KeyPerm::req_forced_op(),
        KeyPerm::list(),
        KeyPerm::rebind(),
        KeyPerm::update(),
        KeyPerm::use_(),
    ]);
    assert!(!v1.includes(v2));
    assert!(!v2.includes(v1));
}

#[test]
fn iterate_yields_ascending_bit_order() {
    let v = key_perm_set(&[KeyPerm::use_(), KeyPerm::manage_blob(), KeyPerm::grant()]);
    let mut i = v.into_iter();
    assert_eq!(Some(KeyPerm::grant()), i.next());
    assert_eq!(Some(KeyPerm::manage_blob()), i.next());
    assert_eq!(Some(KeyPerm::use_()), i.next());
    assert_eq!(None, i.next());
    assert_eq!(None, i.next());
}

#[test]
fn iteration_restarts_from_the_set() {
    let v = key_perm_set(&[KeyPerm::delete(), KeyPerm::use_dev_id()]);
    let mut first = IntoIter::new(v);
    assert_eq!(Some(KeyPerm::delete()), first.next());
    let mut again = v.into_iter();
    assert_eq!(Some(KeyPerm::delete()), again.next());
    assert_eq!(Some(KeyPerm::use_dev_id()), again.next());
    assert_eq!(None, again.next());
}

#[test]
fn repeated_permission_counts_once() {
    let v = key_perm_set(&[KeyPerm::list(), KeyPerm::list(), KeyPerm::none()]);
    let mut i = v.into_iter();
    assert_eq!(Some(KeyPerm::list()), i.next());
    assert_eq!(None, i.next());
}

#[test]
fn includes_laws_on_values() {
    let empty = KeyPermSet::empty();
    let a = key_perm_set(&[KeyPerm::use_(), KeyPerm::delete()]);
    let b = key_perm_set(&[KeyPerm::use_()]);
    assert!(a.includes(a));
    assert!(a.includes(empty));
    assert!(empty.includes(empty));
    assert!(!empty.includes(b));
    assert!(a.includes(b));
    assert!(!b.includes(a));
}

#[test]
fn includes_single_permission() {
    let a = key_perm_set(&[KeyPerm::use_(), KeyPerm::delete()]);
    assert!(a.includes_perm(KeyPerm::use_()));
    assert!(!a.includes_perm(KeyPerm::grant()));
    assert!(a.includes_perm(KeyPerm::none()));
    assert!(a.includes(KeyPerm::delete().into()));
    assert!(!a.includes(KeyPermSet::from(KeyPerm::list())));
}

#[test]
fn set_built_by_with() {
    let a = KeyPermSet::empty().with(KeyPerm::rebind()).with(KeyPerm::none());
    let mut i = a.into_iter();
    assert_eq!(Some(KeyPerm::rebind()), i.next());
    assert_eq!(None, i.next());
    assert!(KeyPermSet::from_perm(KeyPerm::none()).includes(KeyPermSet::empty()));
    assert!(KeyPermSet::empty().includes(KeyPermSet::from_perm(KeyPerm::none())));
}

#[test]
fn key_codes_match_the_wire() {
    let all = [
        (KeyPerm::none(), 0, "none"),
        (KeyPerm::delete(), 0x1, "delete"),
        (KeyPerm::gen_unique_id(), 0x2, "gen_unique_id"),
        (KeyPerm::get_info(), 0x4, "get_info"),
        (KeyPerm::grant(), 0x8, "grant"),
        (KeyPerm::list(), 0x10, "list"),
        (KeyPerm::manage_blob(), 0x20, "manage_blob"),
        (KeyPerm::rebind(), 0x40, "rebind"),
        (KeyPerm::req_forced_op(), 0x80, "req_forced_op"),
        (KeyPerm::update(), 0x100, "update"),
        (KeyPerm::use_(), 0x200, "use"),
        (KeyPerm::use_dev_id(), 0x400, "use_dev_id"),
    ];
    for (p, code, name) in all.iter() {
        assert_eq!(p.code(), *code);
        assert_eq!(p.to_selinux(), *name);
        assert_eq!(KeyPerm::from(*code), *p);
    }
    assert_eq!(KeyPerm::from(0x200).0, KeyPermission::Use);
}

#[test]
fn keystore_codes_match_the_wire() {
    let all = [
        (KeystorePerm::none(), 0, "none"),
        (KeystorePerm::add_auth(), 0x1, "add_auth"),
        (KeystorePerm::clear_ns(), 0x2, "clear_ns"),
        (KeystorePerm::get_state(), 0x4, "get_state"),
        (KeystorePerm::lock(), 0x8, "lock"),
        (KeystorePerm::reset(), 0x10, "reset"),
        (KeystorePerm::unlock(), 0x20, "unlock"),
    ];
    for (p, code, name) in all.iter() {
        assert_eq!(p.code(), *code);
        assert_eq!(p.to_selinux(), *name);
        assert_eq!(KeystorePerm::from(*code), *p);
    }
    assert_eq!(KeystorePerm::from(0x8).0, KeystorePermission::Lock);
}

#[test]
fn unknown_codes_decode_to_none() {
    for code in [3, 0x800, 0x40000000, -1, i32::MIN, i32::MAX, 0x3ff].iter() {
        assert_eq!(KeyPerm::from(*code), KeyPerm::none());
    }
    for code in [3, 0x40, 0x200, -8, i32::MIN, i32::MAX].iter() {
        assert_eq!(KeystorePerm::from(*code), KeystorePerm::none());
    }
}

#[test]
fn set_from_one_permission() {
    let s = KeyPermSet::from(KeyPerm::use_());
    let mut i = s.into_iter();
    assert_eq!(Some(KeyPerm::use_()), i.next());
    assert_eq!(None, i.next());
    let n: KeyPermSet = KeyPerm::none().into();
    assert_eq!(None, n.into_iter().next());
    assert!(KeyPermSet::empty().includes(n));
    assert!(n.includes(KeyPermSet::empty()));
    assert!(!n.includes(s));
}
