//! Properties of the catalogs, of permission sets and of the decisions, each
//! stated over the models that the functions' contracts use.

use vstd::prelude::*;

use crate::catalog::{
    key_code, key_decode, keystore_code, keystore_decode, KeyPerm, KeyPermission, KeystorePerm,
    KeystorePermission,
};
use crate::decision::{
    fail, grant_next, grant_start, key_start, key_target, resolve_failure, run, service_start,
    verdict, Action, Domain, Error, ErrorKind, Event, KeyDescriptor, Subject, Target,
};
use crate::perm_set::{lemma_advance, lemma_into_iter, lemma_to_seq, IntoIter, KeyPermSet};

verus! {

/// Decoding is total and fail-closed: a code of the key catalog decodes to
/// the permission with that code, and every other code decodes to `none`.
pub proof fn lemma_key_decode_total(c: int)
    ensures
        (exists|p: KeyPermission| p != KeyPermission::NoPermission && key_code(p) == c) ==> key_code(
            key_decode(c),
        ) == c && key_decode(c) != KeyPermission::NoPermission,
        !(exists|p: KeyPermission| p != KeyPermission::NoPermission && key_code(p) == c)
            ==> key_decode(c) == KeyPermission::NoPermission,
        forall|p: KeyPermission| #[trigger] key_decode(key_code(p)) == p,
{
    assert forall|p: KeyPermission| #[trigger] key_decode(key_code(p)) == p by {}
    if !(exists|p: KeyPermission| p != KeyPermission::NoPermission && key_code(p) == c) {
        assert(key_code(key_decode(c)) == c ==> key_decode(c) == KeyPermission::NoPermission);
        assert(key_decode(c) != KeyPermission::NoPermission ==> key_code(key_decode(c)) == c);
    }
}

/// Decoding is total and fail-closed for the service catalog too.
pub proof fn lemma_keystore_decode_total(c: int)
    ensures
        (exists|p: KeystorePermission| p != KeystorePermission::NoPermission && keystore_code(p) == c)
            ==> keystore_code(keystore_decode(c)) == c && keystore_decode(c)
            != KeystorePermission::NoPermission,
        !(exists|p: KeystorePermission|
            p != KeystorePermission::NoPermission && keystore_code(p) == c) ==> keystore_decode(c)
            == KeystorePermission::NoPermission,
        forall|p: KeystorePermission| #[trigger] keystore_decode(keystore_code(p)) == p,
{
    assert forall|p: KeystorePermission| #[trigger] keystore_decode(keystore_code(p)) == p by {}
    if !(exists|p: KeystorePermission|
        p != KeystorePermission::NoPermission && keystore_code(p) == c) {
        assert(keystore_decode(c) != KeystorePermission::NoPermission ==> keystore_code(
            keystore_decode(c),
        ) == c);
    }
}

/// Inclusion, which `KeyPermSet::includes` decides, is reflexive and
/// transitive, every set includes the empty set, and a set that lacks one
/// permission of another does not include it.
pub proof fn lemma_includes(a: KeyPermSet, b: KeyPermSet, c: KeyPermSet)
    requires
        a.wf(),
        b.wf(),
        c.wf(),
    ensures
        a@.subset_of(a@),
        Set::<KeyPerm>::empty().subset_of(a@),
        (exists|p: KeyPerm| b@.contains(p) && !a@.contains(p)) ==> !b@.subset_of(a@),
        b@.subset_of(a@) && c@.subset_of(b@) ==> c@.subset_of(a@),
{
}

/// Whatever the backend answers, a grant check never allows a request that
/// holds `grant`; where the target resolves and the caller holds `grant`
/// itself, the verdict is a denial of `grant` after those two questions.
pub proof fn lemma_grant_never_delegated(
    requested: KeyPermSet,
    key: KeyDescriptor,
    answer: spec_fn(Action) -> Event,
    fuel: nat,
)
    requires
        requested.wf(),
        requested@.contains(KeyPerm(KeyPermission::Grant)),
    ensures
        run(grant_start(requested, key), answer, fuel) != Some(Ok::<(), Error>(())),
        (key.domain == Domain::App || key.domain == Domain::SELinux) && answer(
            Action::Resolve(key_target(key)),
        ) == Event::Resolved && answer(Action::CheckKey(KeyPerm(KeyPermission::Grant)))
            == Event::Allowed && fuel >= 2 ==> run(grant_start(requested, key), answer, fuel)
            == Some(
            fail(ErrorKind::PermissionDenied, Subject::Key(KeyPerm(KeyPermission::Grant), key.domain)),
        ),
{
    reveal_with_fuel(run, 3);
}

/// A grant check that allows has had every requested permission allowed by
/// the backend, and the caller's own `grant` permission too.
pub proof fn lemma_grant_allows_only_held(
    requested: KeyPermSet,
    key: KeyDescriptor,
    answer: spec_fn(Action) -> Event,
    fuel: nat,
)
    requires
        requested.wf(),
        run(grant_start(requested, key), answer, fuel) == Some(Ok::<(), Error>(())),
    ensures
        key.domain == Domain::App || key.domain == Domain::SELinux,
        answer(Action::Resolve(key_target(key))) == Event::Resolved,
        answer(Action::CheckKey(KeyPerm(KeyPermission::Grant))) == Event::Allowed,
        forall|p: KeyPerm| #[trigger] requested@.contains(p) ==> answer(Action::CheckKey(p))
            == Event::Allowed,
{
    reveal_with_fuel(run, 3);
    let it = requested.into_iter_spec();
    lemma_into_iter(requested);
    lemma_advance(it);
    lemma_to_seq(requested);
    assert(fuel >= 2);
    lemma_grant_rest(it, key.domain, answer, (fuel - 2) as nat);
    assert forall|p: KeyPerm| #[trigger] requested@.contains(p) implies answer(Action::CheckKey(p))
        == Event::Allowed by {
        assert(it@.contains(p));
    }
}

/// A grant check that goes on with `it` and allows has had every permission
/// that `it` still holds allowed by the backend.
proof fn lemma_grant_rest(it: IntoIter, d: Domain, answer: spec_fn(Action) -> Event, fuel: nat)
    requires
        run(grant_next(it, d), answer, fuel) == Some(Ok::<(), Error>(())),
    ensures
        forall|i: int| 0 <= i < it@.len() ==> answer(Action::CheckKey(#[trigger] it@[i]))
            == Event::Allowed,
    decreases fuel,
{
    reveal_with_fuel(run, 2);
    lemma_advance(it);
    if it@.len() > 0 {
        let e = answer(Action::CheckKey(it@[0]));
        assert(fuel > 0);
        assert(e == Event::Allowed);
        lemma_grant_rest(it.advanced(), d, answer, (fuel - 1) as nat);
        assert forall|i: int| 0 <= i < it@.len() implies answer(Action::CheckKey(#[trigger] it@[i]))
            == Event::Allowed by {
            if i > 0 {
                assert(it@[i] == it.advanced()@[i - 1]);
            }
        }
    }
}

/// A key of domain `KeyId` always gives a system error, without a question to the backend.
pub proof fn lemma_key_id_is_system_error(
    perm: KeyPerm,
    key: KeyDescriptor,
    access_vector: Option<KeyPermSet>,
    answer: spec_fn(Action) -> Event,
    fuel: nat,
)
    requires
        key.domain == Domain::KeyId,
    ensures
        run(key_start(perm, key, access_vector), answer, fuel) == Some(
            fail(ErrorKind::SystemError, Subject::Key(perm, Domain::KeyId)),
        ),
{
}

/// A key of domain `Grant` is decided by its access vector alone, without a
/// question to the backend: a system error without one, else allowed exactly
/// when the vector holds the permission.
pub proof fn lemma_grant_domain_is_local(
    perm: KeyPerm,
    key: KeyDescriptor,
    access_vector: Option<KeyPermSet>,
    answer: spec_fn(Action) -> Event,
    fuel: nat,
)
    requires
        key.domain == Domain::Grant,
    ensures
        access_vector is None ==> run(key_start(perm, key, access_vector), answer, fuel) == Some(
            fail(ErrorKind::SystemError, Subject::Key(perm, Domain::Grant)),
        ),
        access_vector matches Some(v) ==> run(key_start(perm, key, access_vector), answer, fuel)
            == Some(
            if perm.0 == KeyPermission::NoPermission || v@.contains(perm) {
                Ok::<(), Error>(())
            } else {
                fail(ErrorKind::PermissionDenied, Subject::Key(perm, Domain::Grant))
            },
        ),
{
}

/// A key of domain `Blob` needs `manage_blob` as well as the permission asked
/// for: where the backend denies `manage_blob`, the verdict is a denial of
/// `manage_blob`, whatever it would answer for the permission itself.
pub proof fn lemma_blob_needs_manage_blob(
    perm: KeyPerm,
    key: KeyDescriptor,
    access_vector: Option<KeyPermSet>,
    answer: spec_fn(Action) -> Event,
    fuel: nat,
)
    requires
        key.domain == Domain::Blob,
        answer(Action::Resolve(Target::Namespace(key.namespace_))) == Event::Resolved,
        answer(Action::CheckKey(KeyPerm(KeyPermission::ManageBlob))) == Event::Denied,
        fuel >= 2,
    ensures
        run(key_start(perm, key, access_vector), answer, fuel) == Some(
            fail(
                ErrorKind::PermissionDenied,
                Subject::Key(KeyPerm(KeyPermission::ManageBlob), Domain::Blob),
            ),
        ),
{
    reveal_with_fuel(run, 3);
}

/// A key check of domain `Blob` that allows has had both `manage_blob` and the
/// permission itself allowed by the backend.
pub proof fn lemma_blob_allows_only_both(
    perm: KeyPerm,
    key: KeyDescriptor,
    access_vector: Option<KeyPermSet>,
    answer: spec_fn(Action) -> Event,
    fuel: nat,
)
    requires
        key.domain == Domain::Blob,
        run(key_start(perm, key, access_vector), answer, fuel) == Some(Ok::<(), Error>(())),
    ensures
        answer(Action::CheckKey(KeyPerm(KeyPermission::ManageBlob))) == Event::Allowed,
        answer(Action::CheckKey(perm)) == Event::Allowed,
{
    reveal_with_fuel(run, 4);
    assert(fuel >= 3);
    assert(run(key_start(perm, key, access_vector), answer, fuel) == run(
        key_start(perm, key, access_vector),
        answer,
        3,
    ));
}

/// A service check asks for the service's own context, then for the
/// permission against it: its result is the backend's verdict, or the
/// backend's failure to resolve, never a denial.
pub proof fn lemma_service_check_is_backend_verdict(
    perm: KeystorePerm,
    answer: spec_fn(Action) -> Event,
    fuel: nat,
)
    requires
        fuel >= 2,
    ensures
        run(service_start(perm), answer, fuel) == (if answer(Action::Resolve(Target::OwnContext))
            == Event::Resolved {
            Some(verdict(answer(Action::CheckService(perm)), Subject::Service(perm)))
        } else {
            Some(
                Err::<(), Error>(
                    resolve_failure(
                        answer(Action::Resolve(Target::OwnContext)),
                        Subject::Service(perm),
                    ),
                ),
            )
        }),
{
    reveal_with_fuel(run, 3);
}

/// A key check of domain `App` or `SELinux` asks for the key's target, then
/// for the permission against it: its result is the backend's verdict, or the
/// backend's failure to resolve, never a denial.
pub proof fn lemma_key_check_is_backend_verdict(
    perm: KeyPerm,
    key: KeyDescriptor,
    access_vector: Option<KeyPermSet>,
    answer: spec_fn(Action) -> Event,
    fuel: nat,
)
    requires
        key.domain == Domain::App || key.domain == Domain::SELinux,
        fuel >= 2,
    ensures
        key.domain == Domain::App ==> key_target(key) == Target::OwnContext,
        key.domain == Domain::SELinux ==> key_target(key) == Target::Namespace(key.namespace_),
        run(key_start(perm, key, access_vector), answer, fuel) == (if answer(
            Action::Resolve(key_target(key)),
        ) == Event::Resolved {
            Some(verdict(answer(Action::CheckKey(perm)), Subject::Key(perm, key.domain)))
        } else {
            Some(
                Err::<(), Error>(
                    resolve_failure(
                        answer(Action::Resolve(key_target(key))),
                        Subject::Key(perm, key.domain),
                    ),
                ),
            )
        }),
{
    reveal_with_fuel(run, 3);
}

} // verus!
