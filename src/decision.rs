//! The authorization decisions. Each check is a small state machine: it asks
//! the backend one question at a time (an `Action`), the caller hands back the
//! backend's answer (an `Event`), and the machine either asks the next
//! question or is done with a verdict.

use vstd::prelude::*;

use crate::catalog::{KeyPerm, KeyPermission, KeystorePerm, key_name, keystore_name};
use crate::perm_set::{IntoIter, KeyPermSet};

verus! {

/// How the owner of a key is named.
#[derive(Clone, Copy, Debug, PartialEq, Eq, Structural)]
pub enum Domain {
    /// The key belongs to the calling app.
    App,
    /// The key was granted to the caller; the grant's access vector says what it may do.
    Grant,
    /// The key lives in a namespace that the policy names.
    SELinux,
    /// The key is given as a blob; the namespace names its owner.
    Blob,
    /// The key is named by its database id; it must have been resolved before a check.
    KeyId,
}

/// A key as a request names it.
#[derive(Debug)]
pub struct KeyDescriptor {
    pub domain: Domain,
    pub namespace_: i64,
    pub alias: Option<String>,
    pub blob: Option<Vec<u8>>,
}

/// The kind of a check's failure.
#[derive(Clone, Copy, Debug, PartialEq, Eq, Structural)]
pub enum ErrorKind {
    /// A definite deny verdict.
    PermissionDenied,
    /// The caller broke the contract of the check.
    SystemError,
    /// The backend failed to resolve a context or to answer.
    BackendError,
}

/// What a failed check was about.
#[derive(Clone, Copy, Debug, PartialEq, Eq, Structural)]
pub enum Subject {
    /// A permission of the `keystore2` class.
    Service(KeystorePerm),
    /// A permission of the `keystore2_key` class, on a key of the domain.
    Key(KeyPerm, Domain),
}

/// Why a check did not allow, and about which permission and domain.
#[derive(Clone, Copy, Debug, PartialEq, Eq, Structural)]
pub struct Error {
    pub kind: ErrorKind,
    pub subject: Subject,
}

/// Where the target security context of a check comes from.
#[derive(Clone, Copy, Debug, PartialEq, Eq, Structural)]
pub enum Target {
    /// The service's own process context.
    OwnContext,
    /// The context that the backend assigns to a key namespace.
    Namespace(i64),
}

/// A question to the backend, about the caller and the current target context.
#[derive(Clone, Copy, Debug, PartialEq, Eq, Structural)]
pub enum Action {
    /// Resolve the target context; it becomes the current target.
    Resolve(Target),
    /// May the caller have this permission of the `keystore2` class on the target?
    CheckService(KeystorePerm),
    /// May the caller have this permission of the `keystore2_key` class on the target?
    CheckKey(KeyPerm),
}

/// The backend's answer to an `Action`.
#[derive(Clone, Copy, Debug, PartialEq, Eq, Structural)]
pub enum Event {
    /// The target context was resolved.
    Resolved,
    /// The access check allowed.
    Allowed,
    /// The access check denied.
    Denied,
    /// The backend failed.
    Failed,
}

/// A check that waits for the backend's answer.
#[derive(Clone, Copy, Debug)]
pub enum Check {
    /// A service check of the permission waits for its target.
    ServiceTarget(KeystorePerm),
    /// A service check of the permission waits for its verdict.
    ServiceVerdict(KeystorePerm),
    /// A grant check of the requested set, for a key of the domain, waits for its target.
    GrantTarget(KeyPermSet, Domain),
    /// A grant check waits for the verdict on the caller's own `grant` permission.
    GrantRight(KeyPermSet, Domain),
    /// A grant check waits for the verdict on the requested permission; the
    /// iteration holds those that follow.
    GrantEach(KeyPerm, IntoIter, Domain),
    /// A key check of the permission, for a key of the domain, waits for its target.
    KeyTarget(KeyPerm, Domain),
    /// A key check of the permission on a blob key waits for the verdict on `manage_blob`.
    KeyBlob(KeyPerm),
    /// A key check of the permission, for a key of the domain, waits for its verdict.
    KeyVerdict(KeyPerm, Domain),
}

/// Where a check stands: done with a verdict, or asking the backend.
#[derive(Clone, Copy, Debug)]
pub enum Step {
    Done(Result<(), Error>),
    Ask(Action, Check),
}

/// Name of the security class that guards the service.
pub open spec fn service_class() -> Seq<char> {
    "keystore2"@
}

/// Name of the security class that guards keys.
pub open spec fn key_class() -> Seq<char> {
    "keystore2_key"@
}

/// A failed verdict of the kind, about the subject.
pub open spec fn fail(kind: ErrorKind, subject: Subject) -> Result<(), Error> {
    Err(Error { kind, subject })
}

/// The verdict that an answer to an access check about `s` gives.
pub open spec fn verdict(e: Event, s: Subject) -> Result<(), Error> {
    match e {
        Event::Allowed => Ok(()),
        Event::Denied => fail(ErrorKind::PermissionDenied, s),
        Event::Failed => fail(ErrorKind::BackendError, s),
        Event::Resolved => fail(ErrorKind::SystemError, s),
    }
}

/// The error where an access check about `s` did not allow.
pub open spec fn refusal(e: Event, s: Subject) -> Error {
    match e {
        Event::Denied => Error { kind: ErrorKind::PermissionDenied, subject: s },
        Event::Failed => Error { kind: ErrorKind::BackendError, subject: s },
        _ => Error { kind: ErrorKind::SystemError, subject: s },
    }
}

/// The error where the target of a check about `s` did not resolve: a
/// failure of the backend, or else an answer of the wrong kind, never a denial.
pub open spec fn resolve_failure(e: Event, s: Subject) -> Error {
    match e {
        Event::Failed => Error { kind: ErrorKind::BackendError, subject: s },
        _ => Error { kind: ErrorKind::SystemError, subject: s },
    }
}

/// The target that a key of domain `App`, `SELinux` or `Blob` is checked against.
pub open spec fn key_target(key: KeyDescriptor) -> Target {
    if key.domain == Domain::App {
        Target::OwnContext
    } else {
        Target::Namespace(key.namespace_)
    }
}

/// A grant check for a key of domain `d` goes on with the iteration `it`: it
/// asks about the next requested permission, or allows when none is left.
pub open spec fn grant_next(it: IntoIter, d: Domain) -> Step {
    match it.peek() {
        None => Step::Done(Ok(())),
        Some(p) => Step::Ask(Action::CheckKey(p), Check::GrantEach(p, it.advanced(), d)),
    }
}

/// The step that follows when the backend answers `e` to a check in state `c`.
/// An answer of the wrong kind (a verdict for a resolution, or the reverse) is
/// a fault of the caller.
pub open spec fn next_step(c: Check, e: Event) -> Step {
    let grant = KeyPerm(KeyPermission::Grant);
    match c {
        Check::ServiceTarget(p) => if e == Event::Resolved {
            Step::Ask(Action::CheckService(p), Check::ServiceVerdict(p))
        } else {
            Step::Done(Err(resolve_failure(e, Subject::Service(p))))
        },
        Check::ServiceVerdict(p) => Step::Done(verdict(e, Subject::Service(p))),
        Check::GrantTarget(s, d) => if e == Event::Resolved {
            Step::Ask(Action::CheckKey(grant), Check::GrantRight(s, d))
        } else {
            Step::Done(Err(resolve_failure(e, Subject::Key(grant, d))))
        },
        Check::GrantRight(s, d) => if e != Event::Allowed {
            Step::Done(Err(refusal(e, Subject::Key(grant, d))))
        } else if s@.contains(grant) {
            Step::Done(fail(ErrorKind::PermissionDenied, Subject::Key(grant, d)))
        } else {
            grant_next(s.into_iter_spec(), d)
        },
        Check::GrantEach(p, it, d) => if e != Event::Allowed {
            Step::Done(Err(refusal(e, Subject::Key(p, d))))
        } else {
            grant_next(it, d)
        },
        Check::KeyTarget(p, d) => if e != Event::Resolved {
            Step::Done(Err(resolve_failure(e, Subject::Key(p, d))))
        } else if d == Domain::Blob {
            Step::Ask(Action::CheckKey(KeyPerm(KeyPermission::ManageBlob)), Check::KeyBlob(p))
        } else {
            Step::Ask(Action::CheckKey(p), Check::KeyVerdict(p, d))
        },
        Check::KeyBlob(p) => if e != Event::Allowed {
            Step::Done(
                Err(refusal(e, Subject::Key(KeyPerm(KeyPermission::ManageBlob), Domain::Blob))),
            )
        } else {
            Step::Ask(Action::CheckKey(p), Check::KeyVerdict(p, Domain::Blob))
        },
        Check::KeyVerdict(p, d) => Step::Done(verdict(e, Subject::Key(p, d))),
    }
}

/// The sets that a check carries are well formed.
pub open spec fn check_wf(c: Check) -> bool {
    match c {
        Check::GrantTarget(s, _) => s.wf(),
        Check::GrantRight(s, _) => s.wf(),
        _ => true,
    }
}

/// A step that asks carries a well-formed check.
pub open spec fn step_wf(s: Step) -> bool {
    match s {
        Step::Ask(_, c) => check_wf(c),
        Step::Done(_) => true,
    }
}

/// The first step of a check of the service permission `perm`.
pub open spec fn service_start(perm: KeystorePerm) -> Step {
    Step::Ask(Action::Resolve(Target::OwnContext), Check::ServiceTarget(perm))
}

/// The first step of a check that the caller may grant `requested` on `key`.
pub open spec fn grant_start(requested: KeyPermSet, key: KeyDescriptor) -> Step {
    if key.domain == Domain::App || key.domain == Domain::SELinux {
        Step::Ask(Action::Resolve(key_target(key)), Check::GrantTarget(requested, key.domain))
    } else {
        Step::Done(fail(ErrorKind::SystemError, Subject::Key(KeyPerm(KeyPermission::Grant), key.domain)))
    }
}

/// The first step of a check that the caller may have `perm` on `key`.
pub open spec fn key_start(perm: KeyPerm, key: KeyDescriptor, access_vector: Option<KeyPermSet>) -> Step {
    match key.domain {
        Domain::App | Domain::SELinux | Domain::Blob => Step::Ask(
            Action::Resolve(key_target(key)),
            Check::KeyTarget(perm, key.domain),
        ),
        Domain::Grant => match access_vector {
            Some(v) => if perm.0 == KeyPermission::NoPermission || v@.contains(perm) {
                Step::Done(Ok(()))
            } else {
                Step::Done(fail(ErrorKind::PermissionDenied, Subject::Key(perm, Domain::Grant)))
            },
            None => Step::Done(fail(ErrorKind::SystemError, Subject::Key(perm, Domain::Grant))),
        },
        Domain::KeyId => Step::Done(fail(ErrorKind::SystemError, Subject::Key(perm, Domain::KeyId))),
    }
}

/// The verdict after at most `fuel` questions, where the backend answers `answer(a)`
/// to each question `a`; `None` where the check is still asking.
pub open spec fn run(s: Step, answer: spec_fn(Action) -> Event, fuel: nat) -> Option<Result<(), Error>>
    decreases fuel,
{
    match s {
        Step::Done(r) => Some(r),
        Step::Ask(a, c) => if fuel == 0 {
            None
        } else {
            run(next_step(c, answer(a)), answer, (fuel - 1) as nat)
        },
    }
}

impl Action {
    /// Returns the security class and the permission name of an access check,
    /// as the backend takes them; `None` for a resolution.
    pub fn access_query(&self) -> (r: Option<(&'static str, &'static str)>)
        ensures
            match *self {
                Action::Resolve(_) => r.is_none(),
                Action::CheckService(p) => r.is_some() && r.unwrap().0@ == service_class()
                    && r.unwrap().1@ == keystore_name(p.0),
                Action::CheckKey(p) => r.is_some() && r.unwrap().0@ == key_class()
                    && r.unwrap().1@ == key_name(p.0),
            },
    {
        match self {
            Action::Resolve(_) => None,
            Action::CheckService(p) => Some(("keystore2", p.to_selinux())),
            Action::CheckKey(p) => Some(("keystore2_key", p.to_selinux())),
        }
    }
}

/// Goes on with a grant check for a key of domain `d`: asks about the next
/// requested permission of `it`, or allows when none is left.
fn grant_continue(it: IntoIter, d: Domain) -> (r: Step)
    ensures
        r == grant_next(it, d),
        step_wf(r),
{
    let mut rest = it;
    match rest.next() {
        None => Step::Done(Ok(())),
        Some(p) => Step::Ask(Action::CheckKey(p), Check::GrantEach(p, rest, d)),
    }
}

impl Check {
    /// Returns the step that follows when the backend answers `event`.
    pub fn resume(self, event: Event) -> (r: Step)
        requires
            check_wf(self),
        ensures
            r == next_step(self, event),
            step_wf(r),
    {
        match self {
            Check::ServiceTarget(p) => match event {
                Event::Resolved => Step::Ask(Action::CheckService(p), Check::ServiceVerdict(p)),
                _ => Step::Done(Err(resolve_failure_of(event, Subject::Service(p)))),
            },
            Check::ServiceVerdict(p) => Step::Done(verdict_of(event, Subject::Service(p))),
            Check::GrantTarget(s, d) => match event {
                Event::Resolved => Step::Ask(
                    Action::CheckKey(KeyPerm::grant()),
                    Check::GrantRight(s, d),
                ),
                _ => Step::Done(Err(resolve_failure_of(event, Subject::Key(KeyPerm::grant(), d)))),
            },
            Check::GrantRight(s, d) => match event {
                Event::Allowed => {
                    // The grant permission itself can never be passed on.
                    if s.includes_perm(KeyPerm::grant()) {
                        Step::Done(
                            Err(
                                Error {
                                    kind: ErrorKind::PermissionDenied,
                                    subject: Subject::Key(KeyPerm::grant(), d),
                                },
                            ),
                        )
                    } else {
                        grant_continue(s.into_iter(), d)
                    }
                },
                _ => Step::Done(Err(refusal_of(event, Subject::Key(KeyPerm::grant(), d)))),
            },
            Check::GrantEach(p, it, d) => match event {
                Event::Allowed => grant_continue(it, d),
                // The caller may have tried to grant a permission that it does not hold.
                _ => Step::Done(Err(refusal_of(event, Subject::Key(p, d)))),
            },
            Check::KeyTarget(p, d) => match event {
                Event::Resolved => {
                    if d == Domain::Blob {
                        Step::Ask(Action::CheckKey(KeyPerm::manage_blob()), Check::KeyBlob(p))
                    } else {
                        Step::Ask(Action::CheckKey(p), Check::KeyVerdict(p, d))
                    }
                },
                _ => Step::Done(Err(resolve_failure_of(event, Subject::Key(p, d)))),
            },
            Check::KeyBlob(p) => match event {
                Event::Allowed => Step::Ask(Action::CheckKey(p), Check::KeyVerdict(p, Domain::Blob)),
                _ => Step::Done(
                    Err(refusal_of(event, Subject::Key(KeyPerm::manage_blob(), Domain::Blob))),
                ),
            },
            Check::KeyVerdict(p, d) => Step::Done(verdict_of(event, Subject::Key(p, d))),
        }
    }
}

/// Returns the verdict that an answer to an access check about `s` gives.
fn verdict_of(e: Event, s: Subject) -> (r: Result<(), Error>)
    ensures
        r == verdict(e, s),
{
    match e {
        Event::Allowed => Ok(()),
        _ => Err(refusal_of(e, s)),
    }
}

/// Returns the error where an access check about `s` did not allow.
fn refusal_of(e: Event, s: Subject) -> (r: Error)
    ensures
        r == refusal(e, s),
{
    match e {
        Event::Denied => Error { kind: ErrorKind::PermissionDenied, subject: s },
        Event::Failed => Error { kind: ErrorKind::BackendError, subject: s },
        _ => Error { kind: ErrorKind::SystemError, subject: s },
    }
}

/// Returns the error where the target of a check about `s` did not resolve.
fn resolve_failure_of(e: Event, s: Subject) -> (r: Error)
    ensures
        r == resolve_failure(e, s),
{
    match e {
        Event::Failed => Error { kind: ErrorKind::BackendError, subject: s },
        _ => Error { kind: ErrorKind::SystemError, subject: s },
    }
}

/// Returns the target that a key of domain `App`, `SELinux` or `Blob` is checked against.
fn target_of(key: &KeyDescriptor) -> (r: Target)
    ensures
        r == key_target(*key),
{
    match key.domain {
        Domain::App => Target::OwnContext,
        _ => Target::Namespace(key.namespace_),
    }
}

/// Starts the check that the caller may have `perm` of the `keystore2` class,
/// against the service's own context.
pub fn check_keystore_permission(perm: KeystorePerm) -> (r: Step)
    ensures
        r == service_start(perm),
        step_wf(r),
{
    Step::Ask(Action::Resolve(Target::OwnContext), Check::ServiceTarget(perm))
}

/// Starts the check that the caller may grant every permission of `access_vec`
/// on `key`. Only keys of domain `App` and `SELinux` can be granted; the caller
/// must hold `grant` on the target, and `grant` itself can never be granted.
pub fn check_grant_permission(access_vec: KeyPermSet, key: &KeyDescriptor) -> (r: Step)
    requires
        access_vec.wf(),
    ensures
        r == grant_start(access_vec, *key),
        step_wf(r),
{
    match key.domain {
        Domain::App | Domain::SELinux => Step::Ask(
            Action::Resolve(target_of(key)),
            Check::GrantTarget(access_vec, key.domain),
        ),
        _ => Step::Done(
            Err(
                Error {
                    kind: ErrorKind::SystemError,
                    subject: Subject::Key(KeyPerm::grant(), key.domain),
                },
            ),
        ),
    }
}

/// Starts the check that the caller may have `perm` on `key`. A key of domain
/// `Grant` is decided by `access_vector` alone, and one of domain `KeyId` is
/// never checked; a key of domain `Blob` needs `manage_blob` as well.
pub fn check_key_permission(
    perm: KeyPerm,
    key: &KeyDescriptor,
    access_vector: &Option<KeyPermSet>,
) -> (r: Step)
    requires
        access_vector matches Some(v) ==> v.wf(),
    ensures
        r == key_start(perm, *key, *access_vector),
        step_wf(r),
{
    match key.domain {
        Domain::App | Domain::SELinux | Domain::Blob => Step::Ask(
            Action::Resolve(target_of(key)),
            Check::KeyTarget(perm, key.domain),
        ),
        Domain::Grant => match access_vector {
            Some(pv) => {
                if pv.includes_perm(perm) {
                    Step::Done(Ok(()))
                } else {
                    Step::Done(
                        Err(
                            Error {
                                kind: ErrorKind::PermissionDenied,
                                subject: Subject::Key(perm, Domain::Grant),
                            },
                        ),
                    )
                }
            },
            // A grant is checked against its access vector, which must be given.
            None => Step::Done(
                Err(Error { kind: ErrorKind::SystemError, subject: Subject::Key(perm, Domain::Grant) }),
            ),
        },
        // A key id must have been resolved to its owner's domain before a check.
        Domain::KeyId => Step::Done(
            Err(Error { kind: ErrorKind::SystemError, subject: Subject::Key(perm, Domain::KeyId) }),
        ),
    }
}

} // verus!
