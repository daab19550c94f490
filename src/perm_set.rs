//! A set of key permissions held as a bit field of their wire codes, and the
//! iterator that walks it in ascending order of the codes.

use vstd::prelude::*;

use crate::bits::{
    lemma_and_covers, lemma_covers_and, lemma_high_bit_clear, lemma_low_masks, lemma_masks_disjoint,
    lemma_or_mask, lemma_or_mask_low, lemma_zero_and,
};
use crate::catalog::{key_code, key_decode, key_pos, KeyPerm, KeyPermission};

verus! {

/// The bits that the key-permission catalog defines.
pub const CATALOG_MASK: u32 = 0x7ff;

/// Whether a set with bit field `bits` holds the permission `p`.
pub open spec fn bits_hold(bits: u32, p: KeyPerm) -> bool {
    p.0 != KeyPermission::NoPermission && bits & (key_code(p.0) as u32) != 0
}

/// The permissions of the bit field `bits` at bit positions `pos` and above, in
/// ascending order of position; a set bit outside the catalog decodes to `none`.
pub open spec fn perms_from(bits: u32, pos: nat) -> Seq<KeyPerm>
    decreases 32 - pos,
{
    if pos >= 32 {
        Seq::empty()
    } else {
        let mask = 1u32 << (pos as u32);
        let rest = perms_from(bits, pos + 1);
        if bits & mask != 0 {
            seq![KeyPerm(key_decode(((bits & mask) as i32) as int))].add(rest)
        } else {
            rest
        }
    }
}

/// The first set bit of `bits` at position `pos` or above, decoded, with the
/// position that follows it; `None` and position 32 where there is none.
pub open spec fn scan(bits: u32, pos: nat) -> (Option<KeyPerm>, nat)
    decreases 32 - pos,
{
    if pos >= 32 {
        (None, pos)
    } else {
        let mask = 1u32 << (pos as u32);
        if bits & mask != 0 {
            (Some(KeyPerm(key_decode(((bits & mask) as i32) as int))), pos + 1)
        } else {
            scan(bits, pos + 1)
        }
    }
}

/// A set of key permissions.
#[derive(Clone, Copy, Debug)]
pub struct KeyPermSet(u32);

impl KeyPermSet {
    /// The bit field of the set: the wire codes of its members, or-ed.
    pub closed spec fn bits(self) -> u32 {
        self.0
    }

    /// Only bits that the catalog defines are set.
    pub open spec fn wf(self) -> bool {
        self.bits() & !CATALOG_MASK == 0
    }

    /// The permissions in the set.
    pub open spec fn view(self) -> Set<KeyPerm> {
        Set::new(|p: KeyPerm| bits_hold(self.bits(), p))
    }

    /// The members of the set in ascending order of their wire codes.
    pub open spec fn to_seq(self) -> Seq<KeyPerm> {
        perms_from(self.bits(), 0)
    }
}

/// The wire code of a catalog permission is the single bit at its position.
pub proof fn lemma_code_bit(p: KeyPerm)
    requires
        p.0 != KeyPermission::NoPermission,
    ensures
        key_pos(p.0) < 11,
        key_code(p.0) as u32 == 1u32 << key_pos(p.0),
        (key_code(p.0) as u32) as int == key_code(p.0),
        key_decode(key_code(p.0)) == p.0,
{
    lemma_low_masks();
}

/// Two catalog permissions share a bit exactly when they are the same.
pub proof fn lemma_codes_disjoint(p: KeyPerm, q: KeyPerm)
    requires
        p.0 != KeyPermission::NoPermission,
        q.0 != KeyPermission::NoPermission,
    ensures
        ((key_code(p.0) as u32) & (key_code(q.0) as u32) != 0) <==> p == q,
{
    lemma_code_bit(p);
    lemma_code_bit(q);
    lemma_masks_disjoint();
    assert((1u32 << key_pos(p.0)) & (1u32 << key_pos(q.0)) != 0 <==> key_pos(p.0) == key_pos(q.0));
}

impl KeyPermSet {
    /// Returns the empty set.
    pub fn empty() -> (r: KeyPermSet)
        ensures
            r.wf(),
            r.bits() == 0,
            r@ == Set::<KeyPerm>::empty(),
    {
        let r = KeyPermSet(0);
        proof {
            lemma_zero_and();
            assert(r@ =~= Set::<KeyPerm>::empty());
        }
        r
    }

    /// Returns the set that holds `p` alone; the empty set where `p` is `none`.
    pub fn from_perm(p: KeyPerm) -> (r: KeyPermSet)
        ensures
            r.wf(),
            r.bits() == key_code(p.0) as u32,
            r@ == (if p.0 == KeyPermission::NoPermission {
                Set::<KeyPerm>::empty()
            } else {
                set![p]
            }),
    {
        let r = KeyPermSet(p.code() as u32);
        proof {
            lemma_zero_and();
            if p.0 == KeyPermission::NoPermission {
                assert(r@ =~= Set::<KeyPerm>::empty());
            } else {
                lemma_code_bit(p);
                lemma_or_mask_low(0, key_pos(p.0));
                assert((0u32 | (1u32 << key_pos(p.0))) == 1u32 << key_pos(p.0)) by (bit_vector);
                assert forall|q: KeyPerm| r@.contains(q) <==> q == p by {
                    if q.0 != KeyPermission::NoPermission {
                        lemma_codes_disjoint(p, q);
                    }
                }
                assert(r@ =~= set![p]);
            }
        }
        r
    }

    /// Returns this set with `p` added; the same set where `p` is `none`.
    pub fn with(self, p: KeyPerm) -> (r: KeyPermSet)
        requires
            self.wf(),
        ensures
            r.wf(),
            r.bits() == self.bits() | (key_code(p.0) as u32),
            r@ == (if p.0 == KeyPermission::NoPermission {
                self@
            } else {
                self@.insert(p)
            }),
    {
        let r = KeyPermSet(self.0 | p.code() as u32);
        proof {
            if p.0 == KeyPermission::NoPermission {
                let a = self.0;
                assert(a | 0u32 == a) by (bit_vector);
                assert(r@ =~= self@);
            } else {
                lemma_code_bit(p);
                lemma_or_mask_low(self.0, key_pos(p.0));
                lemma_or_mask();
                assert forall|q: KeyPerm| r@.contains(q) <==> (self@.contains(q) || q == p) by {
                    if q.0 != KeyPermission::NoPermission {
                        lemma_code_bit(q);
                        lemma_codes_disjoint(p, q);
                        assert((self.0 | (1u32 << key_pos(p.0))) & (1u32 << key_pos(q.0)) != 0
                            <==> (self.0 & (1u32 << key_pos(q.0)) != 0 || key_pos(p.0) == key_pos(q.0)));
                        assert(key_pos(p.0) == key_pos(q.0) <==> p == q);
                    }
                }
                assert(r@ =~= self@.insert(p));
            }
        }
        r
    }
}

impl KeyPermSet {
    /// Returns true iff this set has every permission that is in `other`.
    pub fn includes(&self, other: KeyPermSet) -> (r: bool)
        requires
            self.wf(),
            other.wf(),
        ensures
            r == (self.bits() & other.bits() == other.bits()),
            r == other@.subset_of(self@),
    {
        let r = (self.0 & other.0) == other.0;
        proof {
            if r {
                assert forall|q: KeyPerm| other@.contains(q) implies self@.contains(q) by {
                    lemma_and_covers(self.0, other.0, key_code(q.0) as u32);
                }
            } else if other@.subset_of(self@) {
                let a = self.0;
                let b = other.0;
                assert(self@.contains(KeyPerm(KeyPermission::Delete)) || !other@.contains(KeyPerm(KeyPermission::Delete)));
                assert(self@.contains(KeyPerm(KeyPermission::GenUniqueId)) || !other@.contains(KeyPerm(KeyPermission::GenUniqueId)));
                assert(self@.contains(KeyPerm(KeyPermission::GetInfo)) || !other@.contains(KeyPerm(KeyPermission::GetInfo)));
                assert(self@.contains(KeyPerm(KeyPermission::Grant)) || !other@.contains(KeyPerm(KeyPermission::Grant)));
                assert(self@.contains(KeyPerm(KeyPermission::List)) || !other@.contains(KeyPerm(KeyPermission::List)));
                assert(self@.contains(KeyPerm(KeyPermission::ManageBlob)) || !other@.contains(KeyPerm(KeyPermission::ManageBlob)));
                assert(self@.contains(KeyPerm(KeyPermission::Rebind)) || !other@.contains(KeyPerm(KeyPermission::Rebind)));
                assert(self@.contains(KeyPerm(KeyPermission::ReqForcedOp)) || !other@.contains(KeyPerm(KeyPermission::ReqForcedOp)));
                assert(self@.contains(KeyPerm(KeyPermission::Update)) || !other@.contains(KeyPerm(KeyPermission::Update)));
                assert(self@.contains(KeyPerm(KeyPermission::Use)) || !other@.contains(KeyPerm(KeyPermission::Use)));
                assert(self@.contains(KeyPerm(KeyPermission::UseDevId)) || !other@.contains(KeyPerm(KeyPermission::UseDevId)));
                lemma_covers_and(a, b);
            }
        }
        r
    }

    /// Returns true iff this set holds the permission `p`.
    pub fn includes_perm(&self, p: KeyPerm) -> (r: bool)
        requires
            self.wf(),
        ensures
            r == (p.0 == KeyPermission::NoPermission || self@.contains(p)),
    {
        let single = KeyPermSet::from_perm(p);
        let r = self.includes(single);
        proof {
            if p.0 != KeyPermission::NoPermission {
                assert(single@.contains(p));
            }
        }
        r
    }

    /// Returns the union of the given permissions: the or of their wire codes.
    pub fn from_perms(perms: &[KeyPerm]) -> (r: KeyPermSet)
        ensures
            r.wf(),
            forall|p: KeyPerm|
                #[trigger] r@.contains(p) <==> (p.0 != KeyPermission::NoPermission
                    && perms@.contains(p)),
    {
        let mut acc = KeyPermSet::empty();
        let mut i: usize = 0;
        while i < perms.len()
            invariant
                i <= perms@.len(),
                acc.wf(),
                forall|p: KeyPerm|
                    #[trigger] acc@.contains(p) <==> (p.0 != KeyPermission::NoPermission
                        && perms@.subrange(0, i as int).contains(p)),
            decreases perms@.len() - i,
        {
            let ghost before = acc;
            acc = acc.with(perms[i]);
            proof {
                assert(perms@.subrange(0, i + 1) =~= perms@.subrange(0, i as int).push(perms@[i as int]));
                assert forall|p: KeyPerm|
                    #[trigger] acc@.contains(p) <==> (p.0 != KeyPermission::NoPermission
                        && perms@.subrange(0, i + 1).contains(p)) by {
                    if perms@.subrange(0, i as int).contains(p) {
                        let k = choose|k: int| 0 <= k < i && perms@.subrange(0, i as int)[k] == p;
                        assert(perms@.subrange(0, i + 1)[k] == p);
                    }
                    if p == perms@[i as int] {
                        assert(perms@.subrange(0, i + 1)[i as int] == p);
                    }
                }
            }
            i = i + 1;
        }
        proof {
            assert(perms@.subrange(0, perms@.len() as int) =~= perms@);
        }
        acc
    }
}

impl From<KeyPerm> for KeyPermSet {
    /// The set that holds `p` alone.
    fn from(p: KeyPerm) -> (r: KeyPermSet) {
        KeyPermSet::from_perm(p)
    }
}

impl vstd::std_specs::convert::FromSpecImpl<KeyPerm> for KeyPermSet {
    open spec fn obeys_from_spec() -> bool {
        true
    }

    closed spec fn from_spec(p: KeyPerm) -> KeyPermSet {
        KeyPermSet(key_code(p.0) as u32)
    }
}

/// `scan` finds the first element of `perms_from`, and resumes where the rest begins.
pub proof fn lemma_scan(bits: u32, pos: nat)
    ensures
        scan(bits, pos).1 <= 32 || scan(bits, pos).1 == pos,
        perms_from(bits, pos).len() == 0 ==> scan(bits, pos).0 == None::<KeyPerm>
            && perms_from(bits, scan(bits, pos).1).len() == 0,
        perms_from(bits, pos).len() > 0 ==> scan(bits, pos).0 == Some(perms_from(bits, pos)[0])
            && perms_from(bits, scan(bits, pos).1) == perms_from(bits, pos).drop_first(),
    decreases 32 - pos,
{
    if pos < 32 {
        lemma_scan(bits, pos + 1);
        let mask = 1u32 << (pos as u32);
        if bits & mask != 0 {
            let first = seq![KeyPerm(key_decode(((bits & mask) as i32) as int))];
            assert(first.add(perms_from(bits, pos + 1)).drop_first() =~= perms_from(bits, pos + 1));
        }
    }
}

/// An iteration over the members of a `KeyPermSet`, in ascending order of their wire codes.
#[derive(Clone, Copy, Debug)]
pub struct IntoIter {
    vec: KeyPermSet,
    pos: u32,
}

impl IntoIter {
    /// The set that is walked.
    pub closed spec fn set(self) -> KeyPermSet {
        self.vec
    }

    /// The bit position where the walk goes on.
    pub closed spec fn position(self) -> nat {
        self.pos as nat
    }

    /// The permissions that are still to come, in order.
    pub open spec fn view(self) -> Seq<KeyPerm> {
        perms_from(self.set().bits(), self.position())
    }

    /// What the next step returns.
    pub open spec fn peek(self) -> Option<KeyPerm> {
        scan(self.set().bits(), self.position()).0
    }

    /// The iteration after the next step.
    pub closed spec fn advanced(self) -> IntoIter {
        IntoIter { vec: self.vec, pos: scan(self.vec.0, self.pos as nat).1 as u32 }
    }

    /// Returns an iteration over all the members of `v`.
    pub fn new(v: KeyPermSet) -> (r: IntoIter)
        ensures
            r.set() == v,
            r.position() == 0,
            r@ == v.to_seq(),
    {
        IntoIter { vec: v, pos: 0 }
    }

    /// Returns the next member in ascending order of wire code, or `None` once
    /// every member has been returned.
    pub fn next(&mut self) -> (r: Option<KeyPerm>)
        ensures
            r == old(self).peek(),
            *final(self) == old(self).advanced(),
            final(self).set() == old(self).set(),
            old(self)@.len() == 0 ==> r == None::<KeyPerm> && final(self)@.len() == 0,
            old(self)@.len() > 0 ==> r == Some(old(self)@[0]) && final(self)@ == old(self)@.drop_first(),
    {
        proof {
            lemma_scan(self.vec.0, self.pos as nat);
        }
        let ghost start = self.pos as nat;
        loop
            invariant
                self.vec == old(self).vec,
                start == old(self).pos as nat,
                scan(self.vec.0, self.pos as nat) == scan(self.vec.0, start),
                start <= 32 ==> self.pos <= 32,
                start > 32 ==> self.pos as nat == start,
            decreases 32 - self.pos,
        {
            if self.pos >= 32 {
                proof {
                    lemma_scan(self.vec.0, start);
                }
                return None;
            }
            let p = self.vec.0 & (1u32 << self.pos);
            self.pos = self.pos + 1;
            if p != 0 {
                let r = KeyPerm::from(#[verifier::truncate] (p as i32));
                proof {
                    lemma_scan(self.vec.0, start);
                }
                return Some(r);
            }
        }
    }
}

impl KeyPermSet {
    /// An iteration over all the members of this set.
    pub closed spec fn into_iter_spec(self) -> IntoIter {
        IntoIter { vec: self, pos: 0 }
    }

    /// Returns an iteration over the members of this set, in ascending order of their wire codes.
    pub fn into_iter(self) -> (r: IntoIter)
        ensures
            r == self.into_iter_spec(),
            r.set() == self,
            r.position() == 0,
            r@ == self.to_seq(),
    {
        IntoIter::new(self)
    }
}

/// The mask of one of the low eleven bits decodes to the catalog permission at that position.
pub proof fn lemma_decode_mask(k: u32)
    requires
        k < 11,
    ensures
        key_decode((1u32 << k) as int) != KeyPermission::NoPermission,
        key_pos(key_decode((1u32 << k) as int)) == k,
        ((1u32 << k) as i32) as int == (1u32 << k) as int,
{
    lemma_low_masks();
    assert(k == 0 || k == 1 || k == 2 || k == 3 || k == 4 || k == 5 || k == 6 || k == 7 || k == 8
        || k == 9 || k == 10);
}

/// Of a well-formed bit field, `perms_from` lists exactly the members at
/// position `pos` and above, each once, in strictly ascending bit position.
pub proof fn lemma_perms_from(bits: u32, pos: nat)
    requires
        bits & !CATALOG_MASK == 0,
    ensures
        forall|i: int|
            0 <= i < perms_from(bits, pos).len() ==> {
                let p = #[trigger] perms_from(bits, pos)[i];
                bits_hold(bits, p) && key_pos(p.0) >= pos
            },
        forall|p: KeyPerm|
            bits_hold(bits, p) && key_pos(p.0) >= pos ==> #[trigger] perms_from(bits, pos).contains(p),
        forall|i: int, j: int|
            0 <= i < j < perms_from(bits, pos).len() ==> key_pos(
                #[trigger] perms_from(bits, pos)[i].0,
            ) < key_pos(#[trigger] perms_from(bits, pos)[j].0),
    decreases 32 - pos,
{
    if pos < 32 {
        lemma_perms_from(bits, pos + 1);
        let k = pos as u32;
        let mask = 1u32 << k;
        let rest = perms_from(bits, pos + 1);
        let all = perms_from(bits, pos);
        assert forall|p: KeyPerm| bits_hold(bits, p) implies key_pos(p.0) < 11
            && key_code(p.0) as u32 == 1u32 << key_pos(p.0) by {
            lemma_code_bit(p);
        }
        if pos >= 11 {
            lemma_high_bit_clear(bits, k);
            assert(all == rest);
        } else {
            if bits & mask != 0 {
                assert(bits & mask == mask) by (bit_vector)
                    requires
                        bits & mask != 0,
                        mask == 1u32 << k,
                        k < 32,
                ;
                lemma_decode_mask(k);
                let q = KeyPerm(key_decode(mask as int));
                lemma_code_bit(q);
                assert(all == seq![q].add(rest));
                assert(all[0] == q);
                assert forall|i: int| 0 < i < all.len() implies all[i] == rest[i - 1] by {}
                assert forall|p: KeyPerm| bits_hold(bits, p) && key_pos(p.0) >= pos
                    implies all.contains(p) by {
                    if key_pos(p.0) == pos {
                        lemma_code_bit(p);
                        assert(p == q);
                        assert(all[0] == p);
                    } else {
                        assert(key_pos(p.0) >= pos + 1);
                        assert(perms_from(bits, pos + 1).contains(p));
                        let j = choose|j: int| 0 <= j < rest.len() && rest[j] == p;
                        assert(all[j + 1] == p);
                    }
                }
            } else {
                assert(all == rest);
                assert forall|p: KeyPerm| bits_hold(bits, p) && key_pos(p.0) >= pos
                    implies all.contains(p) by {
                    lemma_code_bit(p);
                    if key_pos(p.0) == pos {
                        assert(bits & mask != 0);
                    }
                }
            }
        }
    }
}

/// Iterating a set yields exactly its members, each once, in strictly
/// ascending order of bit position.
pub proof fn lemma_to_seq(s: KeyPermSet)
    requires
        s.wf(),
    ensures
        forall|p: KeyPerm| #[trigger] s.to_seq().contains(p) <==> s@.contains(p),
        forall|i: int, j: int|
            0 <= i < j < s.to_seq().len() ==> key_pos(#[trigger] s.to_seq()[i].0) < key_pos(
                #[trigger] s.to_seq()[j].0,
            ),
{
    lemma_perms_from(s.bits(), 0);
    assert forall|p: KeyPerm| #[trigger] s.to_seq().contains(p) implies s@.contains(p) by {
        let i = choose|i: int| 0 <= i < s.to_seq().len() && s.to_seq()[i] == p;
    }
}

/// One step of an iteration returns its first element and leaves the rest.
pub proof fn lemma_advance(it: IntoIter)
    ensures
        it.advanced().set() == it.set(),
        it@.len() == 0 ==> it.peek() == None::<KeyPerm> && it.advanced()@.len() == 0,
        it@.len() > 0 ==> it.peek() == Some(it@[0]) && it.advanced()@ == it@.drop_first(),
{
    lemma_scan(it.set().bits(), it.position());
}

/// An iteration over all of `s` walks `s` from its first member.
pub proof fn lemma_into_iter(s: KeyPermSet)
    ensures
        s.into_iter_spec().set() == s,
        s.into_iter_spec()@ == s.to_seq(),
{
}

/// The set that `KeyPermSet::from(p)` and `p.into()` return holds the bit of
/// `p`'s wire code alone: it is `{p}`, iterated as `[p]`, and empty for `none`.
pub proof fn lemma_from_spec(p: KeyPerm)
    ensures
        <KeyPermSet as vstd::std_specs::convert::FromSpec<KeyPerm>>::from_spec(p).wf(),
        <KeyPermSet as vstd::std_specs::convert::FromSpec<KeyPerm>>::from_spec(p).bits()
            == key_code(p.0) as u32,
        <KeyPermSet as vstd::std_specs::convert::FromSpec<KeyPerm>>::from_spec(p)@ == (if p.0
            == KeyPermission::NoPermission {
            Set::<KeyPerm>::empty()
        } else {
            set![p]
        }),
        <KeyPermSet as vstd::std_specs::convert::FromSpec<KeyPerm>>::from_spec(p).to_seq() == (
        if p.0 == KeyPermission::NoPermission {
            Seq::<KeyPerm>::empty()
        } else {
            seq![p]
        }),
{
    let r = KeyPermSet(key_code(p.0) as u32);
    lemma_zero_and();
    if p.0 == KeyPermission::NoPermission {
        assert(r@ =~= Set::<KeyPerm>::empty());
    } else {
        lemma_code_bit(p);
        lemma_or_mask_low(0, key_pos(p.0));
        assert((0u32 | (1u32 << key_pos(p.0))) == 1u32 << key_pos(p.0)) by (bit_vector);
        assert forall|q: KeyPerm| r@.contains(q) <==> q == p by {
            if q.0 != KeyPermission::NoPermission {
                lemma_codes_disjoint(p, q);
            }
        }
        assert(r@ =~= set![p]);
    }
    lemma_to_seq(r);
    let t = r.to_seq();
    if p.0 == KeyPermission::NoPermission {
        if t.len() > 0 {
            assert(t.contains(t[0]));
        }
        assert(t =~= Seq::<KeyPerm>::empty());
    } else {
        assert(t.contains(p));
        if t.len() >= 2 {
            assert(t.contains(t[0]));
            assert(t.contains(t[1]));
            assert(key_pos(t[0].0) < key_pos(t[1].0));
        }
        assert(t.len() == 1);
        assert(t[0] == p) by {
            assert(t.contains(t[0]));
        }
        assert(t =~= seq![p]);
    }
}

} // verus!
