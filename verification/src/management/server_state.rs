use vstd::prelude::*;
use dashmap::DashSet;
use rand::Rng;

verus! {

#[verifier::external_type_specification]
#[verifier::external_body]
#[verifier::reject_recursive_types(K)]
#[verifier::reject_recursive_types(S)]
pub struct ExDashSet<K, S>(DashSet<K, S>);

/// The keys that a `DashSet<u128>` holds.
pub uninterp spec fn key_set_contents(set: DashSet<u128>) -> Set<u128>;

/// `DashSet::new`: an empty set.
#[verifier::external_body]
fn key_set_new() -> (set: DashSet<u128>)
    ensures
        key_set_contents(set) == Set::<u128>::empty(),
{
    DashSet::new()
}

/// `DashSet::contains`: whether the set holds `key`.
#[verifier::external_body]
fn key_set_contains(set: &DashSet<u128>, key: u128) -> (found: bool)
    ensures
        found == key_set_contents(*set).contains(key),
{
    set.contains(&key)
}

/// `DashSet::insert`: adds `key`; true when it was not there before.
#[verifier::external_body]
fn key_set_insert(set: &mut DashSet<u128>, key: u128) -> (added: bool)
    ensures
        key_set_contents(*final(set)) == key_set_contents(*old(set)).insert(key),
        added == !key_set_contents(*old(set)).contains(key),
{
    set.insert(key)
}

/// `DashSet::remove`: takes `key` out; returns it when it was there.
#[verifier::external_body]
fn key_set_remove(set: &mut DashSet<u128>, key: u128) -> (removed: Option<u128>)
    ensures
        key_set_contents(*final(set)) == key_set_contents(*old(set)).remove(key),
        removed == (if key_set_contents(*old(set)).contains(key) { Some(key) } else { None::<u128> }),
{
    set.remove(&key)
}

/// `rand::thread_rng().gen::<u32>()`: a random `u32`; nothing is promised of its value.
#[verifier::external_body]
fn random_u32() -> u32 {
    rand::thread_rng().gen::<u32>()
}

/// `rand::thread_rng().gen::<u128>()`: a random `u128`; nothing is promised of its value.
#[verifier::external_body]
fn random_u128() -> u128 {
    rand::thread_rng().gen::<u128>()
}

/// How many random candidates `IDIssuer::issue` draws before it searches the identifiers in order.
pub const MAX_DRAWS: u32 = 1024;

/// An integer type whose values an `IDIssuer` hands out.
pub trait IssuableId: Copy + Sized {
    /// The value as a `u128`, the form in which an issuer records it.
    spec fn key(self) -> u128;

    /// Distinct values have distinct keys.
    proof fn lemma_key_injective(a: Self, b: Self)
        ensures
            a.key() == b.key() ==> a == b,
    ;

    /// The key of this value.
    fn key_of(&self) -> (k: u128)
        ensures
            k == self.key(),
    ;

    /// The largest key of a value of the type.
    spec fn max_key() -> u128;

    /// Every key lies in `0..=max_key()`.
    proof fn lemma_key_bounded(t: Self)
        ensures
            t.key() <= Self::max_key(),
    ;

    /// The largest key of a value of the type.
    fn max_key_of() -> (k: u128)
        ensures
            k == Self::max_key(),
    ;

    /// The value whose key is `k`.
    fn from_key(k: u128) -> (t: Self)
        requires
            k <= Self::max_key(),
        ensures
            t.key() == k,
    ;

    /// A random value of the type.
    fn draw() -> Self;
}

impl IssuableId for u32 {
    open spec fn key(self) -> u128 {
        self as u128
    }

    proof fn lemma_key_injective(a: Self, b: Self) {
    }

    fn key_of(&self) -> (k: u128) {
        *self as u128
    }

    open spec fn max_key() -> u128 {
        0xffff_ffff
    }

    proof fn lemma_key_bounded(t: Self) {
    }

    fn max_key_of() -> (k: u128) {
        0xffff_ffff
    }

    fn from_key(k: u128) -> (t: Self) {
        k as u32
    }

    fn draw() -> Self {
        random_u32()
    }
}

impl IssuableId for u128 {
    open spec fn key(self) -> u128 {
        self
    }

    proof fn lemma_key_injective(a: Self, b: Self) {
    }

    fn key_of(&self) -> (k: u128) {
        *self
    }

    open spec fn max_key() -> u128 {
        u128::MAX
    }

    proof fn lemma_key_bounded(t: Self) {
    }

    fn max_key_of() -> (k: u128) {
        u128::MAX
    }

    fn from_key(k: u128) -> (t: Self) {
        k
    }

    fn draw() -> Self {
        random_u128()
    }
}

/// Hands out random identifiers that are unique among those currently outstanding.
pub struct IDIssuer<T: IssuableId> {
    ids: DashSet<u128>,
    _kind: core::marker::PhantomData<T>,
}

/// An identifier that an `IDIssuer` handed out; it stays outstanding until it is released.
pub struct IDPermit<T: IssuableId> {
    permit: T,
}

impl<T: IssuableId> View for IDPermit<T> {
    type V = T;

    closed spec fn view(&self) -> T {
        self.permit
    }
}

impl<T: IssuableId> View for IDIssuer<T> {
    type V = Set<T>;

    /// The identifiers that are outstanding.
    closed spec fn view(&self) -> Set<T> {
        Set::new(|t: T| key_set_contents(self.ids).contains(t.key()))
    }
}

impl<T: IssuableId> IDPermit<T> {
    /// The identifier this permit holds.
    pub fn id(&self) -> (id: T)
        ensures
            id == self@,
    {
        self.permit
    }
}

impl<T: IssuableId> Default for IDIssuer<T> {
    /// An issuer with no identifier outstanding.
    fn default() -> (issuer: Self)
        ensures
            issuer@ == Set::<T>::empty(),
    {
        let issuer = IDIssuer { ids: key_set_new(), _kind: core::marker::PhantomData };
        assert(issuer@ =~= Set::<T>::empty());
        issuer
    }
}

impl<T: IssuableId> IDIssuer<T> {
    /// Whether `permit` is outstanding.
    pub fn outstanding(&self, permit: &T) -> (found: bool)
        ensures
            found == self@.contains(*permit),
    {
        key_set_contains(&self.ids, permit.key_of())
    }

    /// Records `candidate` as outstanding and returns its permit, unless it is outstanding already.
    pub fn issue_candidate(&mut self, candidate: T) -> (permit: Option<IDPermit<T>>)
        ensures
            match permit {
                Some(p) => {
                    &&& !old(self)@.contains(candidate)
                    &&& p@ == candidate
                    &&& final(self)@ == old(self)@.insert(candidate)
                },
                None => old(self)@.contains(candidate) && final(self)@ == old(self)@,
            },
    {
        let key = candidate.key_of();
        if key_set_contains(&self.ids, key) {
            None
        } else {
            let ghost before = self@;
            key_set_insert(&mut self.ids, key);
            assert(self@ =~= before.insert(candidate)) by {
                assert forall|t: T| self@.contains(t) <==> before.insert(candidate).contains(t) by {
                    T::lemma_key_injective(t, candidate);
                }
            }
            Some(IDPermit { permit: candidate })
        }
    }

    /// Draws random identifiers until one is not outstanding, records it and returns its permit.
    /// After `MAX_DRAWS` draws that all hit outstanding identifiers it takes the first identifier,
    /// in the order of their keys, that is not outstanding. It returns `None` only when every
    /// identifier of the type is outstanding.
    pub fn issue(&mut self) -> (permit: Option<IDPermit<T>>)
        ensures
            match permit {
                Some(p) => {
                    &&& !old(self)@.contains(p@)
                    &&& final(self)@ == old(self)@.insert(p@)
                },
                None => final(self)@ == old(self)@ && forall|t: T| #[trigger] old(self)@.contains(t),
            },
    {
        let mut draws: u32 = 0;
        let ghost start = self@;
        while draws < MAX_DRAWS
            invariant
                self@ == start,
                start == old(self)@,
                draws > 0 ==> start != Set::<T>::empty(),
            decreases MAX_DRAWS - draws,
        {
            let candidate = T::draw();
            match self.issue_candidate(candidate) {
                Some(p) => {
                    return Some(p);
                },
                None => {
                    assert(start.contains(candidate));
                },
            }
            draws = draws + 1;
        }
        let max = T::max_key_of();
        let mut k: u128 = 0;
        loop
            invariant
                self@ == start,
                start == old(self)@,
                k <= max,
                max == T::max_key(),
                forall|j: u128| j < k ==> #[trigger] key_set_contents(self.ids).contains(j),
            ensures
                self@ == start,
                forall|j: u128| j <= max ==> #[trigger] key_set_contents(self.ids).contains(j),
            decreases max - k,
        {
            if !key_set_contains(&self.ids, k) {
                let candidate = T::from_key(k);
                return self.issue_candidate(candidate);
            }
            if k == max {
                break;
            }
            k = k + 1;
        }
        assert forall|t: T| #[trigger] start.contains(t) by {
            T::lemma_key_bounded(t);
            assert(key_set_contents(self.ids).contains(t.key()));
        }
        None
    }

    /// Ends the life of a permit: its identifier is no longer outstanding.
    pub fn release(&mut self, permit: IDPermit<T>)
        ensures
            final(self)@ == old(self)@.remove(permit@),
    {
        let ghost before = self@;
        let key = permit.permit.key_of();
        key_set_remove(&mut self.ids, key);
        assert(self@ =~= before.remove(permit@)) by {
            assert forall|t: T| self@.contains(t) <==> before.remove(permit@).contains(t) by {
                T::lemma_key_injective(t, permit@);
            }
        }
    }
}

/// Releasing a permit undoes its issue: the outstanding identifiers are those from before.
pub proof fn lemma_release_undoes_issue<T: IssuableId>(before: Set<T>, id: T)
    requires
        !before.contains(id),
    ensures
        before.insert(id).remove(id) == before,
        before.insert(id).contains(id),
        !before.insert(id).remove(id).contains(id),
{
    assert(before.insert(id).remove(id) =~= before);
}

} // verus!
