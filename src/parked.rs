use vstd::prelude::*;

use slab::Slab;

use crate::error::CorosError;
use crate::state::{Coroutine, CoroutineState};

verus! {

#[verifier::external_type_specification]
#[verifier::external_body]
#[verifier::reject_recursive_types(T)]
pub struct ExSlab<T>(Slab<T>);

/// The number of coroutines that one scheduler can hold parked at once.
pub const PARKED_CAPACITY: usize = 65536;

/// A coroutine waiting for the reactor, and whether it waits for I/O readiness
/// (and so has a reply slot for the readiness it will be woken with).
#[derive(Debug)]
pub struct Parked {
    pub coroutine: Coroutine,
    pub awaits_readiness: bool,
}

/// What a slab of parked coroutines holds: each occupied key and its entry.
pub uninterp spec fn slab_entries(s: Slab<Parked>) -> Map<usize, Parked>;

/// Relies on slab::Slab::new: a new slab holds no entries.
#[verifier::external_body]
fn slab_new() -> (r: Slab<Parked>)
    ensures
        slab_entries(r).dom() == Set::<usize>::empty(),
{
    Slab::new()
}

/// Relies on slab::Slab::len: the number of stored values.
#[verifier::external_body]
fn slab_len(s: &Slab<Parked>) -> (n: usize)
    ensures
        n == slab_entries(*s).len(),
{
    s.len()
}

/// Relies on slab::Slab::get: the value at an occupied key, `None` at a vacant one.
#[verifier::external_body]
fn slab_get(s: &Slab<Parked>, key: usize) -> (r: Option<&Parked>)
    ensures
        match r {
            Some(p) => slab_entries(*s).dom().contains(key) && *p == slab_entries(*s)[key],
            None => !slab_entries(*s).dom().contains(key),
        },
{
    s.get(key)
}

/// Relies on slab::Slab::insert: the value is stored at a key that was vacant,
/// which is returned; nothing else changes.
#[verifier::external_body]
fn slab_insert(s: &mut Slab<Parked>, value: Parked) -> (key: usize)
    ensures
        !slab_entries(*old(s)).dom().contains(key),
        slab_entries(*final(s)) == slab_entries(*old(s)).insert(key, value),
{
    s.insert(value)
}

/// Relies on slab::Slab::try_remove: the value at an occupied key is taken out
/// and its key becomes vacant; a vacant key changes nothing.
#[verifier::external_body]
fn slab_try_remove(s: &mut Slab<Parked>, key: usize) -> (r: Option<Parked>)
    ensures
        slab_entries(*old(s)).dom().contains(key) ==> r == Some(slab_entries(*old(s))[key])
            && slab_entries(*final(s)) == slab_entries(*old(s)).remove(key),
        !slab_entries(*old(s)).dom().contains(key) ==> r is None
            && slab_entries(*final(s)) == slab_entries(*old(s)),
{
    s.try_remove(key)
}

/// The table of a scheduler's parked coroutines, keyed by the token that the
/// reactor knows each of them by. Tokens are recycled on removal.
pub struct ParkedTable {
    slab: Slab<Parked>,
}

impl ParkedTable {
    /// Token to parked entry.
    pub closed spec fn view(&self) -> Map<usize, Parked> {
        slab_entries(self.slab)
    }

    /// Every parked coroutine is blocked with its intent consumed, and the
    /// table stays within its capacity.
    pub open spec fn wf(&self) -> bool {
        &&& self@.dom().finite()
        &&& self@.len() <= PARKED_CAPACITY
        &&& forall|t: usize| #[trigger] self@.dom().contains(t) ==> {
            &&& self@[t].coroutine.state == CoroutineState::Blocked
            &&& self@[t].coroutine.intent is None
        }
    }

    pub fn new() -> (t: ParkedTable)
        ensures
            t.wf(),
            t@ == Map::<usize, Parked>::empty(),
    {
        let t = ParkedTable { slab: slab_new() };
        assert(t@ =~= Map::<usize, Parked>::empty());
        t
    }

    pub fn len(&self) -> (n: usize)
        requires
            self.wf(),
        ensures
            n == self@.len(),
    {
        slab_len(&self.slab)
    }

    pub fn is_empty(&self) -> (r: bool)
        requires
            self.wf(),
        ensures
            r == (self@ == Map::<usize, Parked>::empty()),
    {
        let n = slab_len(&self.slab);
        proof {
            if n == 0 {
                assert(self@.dom() =~= Set::<usize>::empty());
                assert(self@ =~= Map::<usize, Parked>::empty());
            }
        }
        n == 0
    }

    /// Parks a blocked coroutine under a fresh token. A full table refuses it
    /// and hands it back unchanged.
    pub fn park(&mut self, coroutine: Coroutine, awaits_readiness: bool) -> (r: Result<usize, (CorosError, Coroutine)>)
        requires
            old(self).wf(),
            coroutine.state == CoroutineState::Blocked,
            coroutine.intent is None,
        ensures
            final(self).wf(),
            r is Err <==> old(self)@.len() == PARKED_CAPACITY,
            match r {
                Ok(token) => {
                    &&& !old(self)@.dom().contains(token)
                    &&& final(self)@ == old(self)@.insert(
                        token,
                        Parked { coroutine, awaits_readiness },
                    )
                },
                Err((e, c)) => {
                    &&& e == CorosError::SlabFullError
                    &&& c == coroutine
                    &&& final(self)@ == old(self)@
                },
            },
    {
        let n = slab_len(&self.slab);
        if n >= PARKED_CAPACITY {
            return Err((CorosError::SlabFullError, coroutine));
        }
        let token = slab_insert(&mut self.slab, Parked { coroutine, awaits_readiness });
        proof {
            assert(self@.dom() =~= old(self)@.dom().insert(token));
        }
        Ok(token)
    }

    /// Whether the coroutine parked under `token` waits for I/O readiness.
    pub fn blocked_on_io(&self, token: usize) -> (r: Result<bool, CorosError>)
        requires
            self.wf(),
        ensures
            self@.dom().contains(token) ==> r == Ok::<bool, CorosError>(self@[token].awaits_readiness),
            !self@.dom().contains(token) ==> r == Err::<bool, CorosError>(CorosError::MissingCoroutine),
    {
        match slab_get(&self.slab, token) {
            Some(p) => Ok(p.awaits_readiness),
            None => Err(CorosError::MissingCoroutine),
        }
    }

    /// Takes the entry under `token` out of the table; its token is freed.
    pub fn unpark(&mut self, token: usize) -> (r: Option<Parked>)
        requires
            old(self).wf(),
        ensures
            final(self).wf(),
            old(self)@.dom().contains(token) ==> r == Some(old(self)@[token])
                && final(self)@ == old(self)@.remove(token),
            !old(self)@.dom().contains(token) ==> r is None && final(self)@ == old(self)@,
    {
        let r = slab_try_remove(&mut self.slab, token);
        proof {
            if old(self)@.dom().contains(token) {
                assert(self@.dom() =~= old(self)@.dom().remove(token));
            }
        }
        r
    }
}

} // verus!
