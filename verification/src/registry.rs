//! The bounded registry that gives every registered closure a token of its
//! own.

use std::collections::HashMap;
use rand::rngs::ThreadRng;
use rand::Rng;
use vstd::prelude::*;
use vstd::std_specs::hash::group_hash_axioms;
use crate::error::FuncError;
use crate::value::WasmValue;

verus! {

broadcast use group_hash_axioms;

/// `rand::rngs::ThreadRng`, the handle to the random number generator of the
/// calling thread.
#[verifier::external_type_specification]
#[verifier::external_body]
pub struct ExThreadRng(ThreadRng);

/// `rand::thread_rng` hands out the generator of the calling thread. Nothing is
/// claimed of it.
pub assume_specification[ rand::thread_rng ]() -> (rng: ThreadRng);

/// Calls `Rng::gen` of `rand` for a `usize`. The number depends on chance:
/// nothing is claimed of it.
#[verifier::external_body]
fn draw_key(rng: &mut ThreadRng) -> (key: usize) {
    rng.gen()
}

/// Whether `key` is the least token that `taken` does not hold.
pub open spec fn least_vacant<F>(taken: Map<usize, F>, key: usize) -> bool {
    &&& !taken.contains_key(key)
    &&& forall|j: usize| j < key ==> taken.contains_key(j)
}

/// The token under which a closure is registered when `candidate` is the token
/// that was proposed for it: the candidate itself where it is vacant, the
/// least vacant token otherwise.
pub open spec fn settles_on<F>(taken: Map<usize, F>, candidate: usize, key: usize) -> bool {
    if taken.contains_key(candidate) {
        least_vacant(taken, key)
    } else {
        key == candidate
    }
}

/// A finite set of tokens that holds every token below `k` has at least `k`
/// members.
proof fn lemma_prefix_len(tokens: Set<usize>, k: nat)
    requires
        tokens.finite(),
        forall|j: usize| j < k ==> tokens.contains(j),
        k <= usize::MAX + 1,
    ensures
        k <= tokens.len(),
    decreases k,
{
    if k > 0 {
        let last = (k - 1) as usize;
        lemma_prefix_len(tokens.remove(last), (k - 1) as nat);
    }
}

/// Registering under a token that no closure has displaces nothing: every
/// closure that was registered is still found under its own token, which is
/// not the new one, and the registry holds exactly one entry more.
pub proof fn lemma_registration_keeps_entries<F>(before: Map<usize, F>, key: usize, real_fn: F)
    requires
        before.dom().finite(),
        !before.contains_key(key),
    ensures
        before.insert(key, real_fn).len() == before.len() + 1,
        before.insert(key, real_fn)[key] == real_fn,
        forall|k: usize| #[trigger]
            before.contains_key(k) ==> k != key && before.insert(key, real_fn).contains_key(k)
                && before.insert(key, real_fn)[k] == before[k],
{
}

/// The shape of a closure that stands behind a host function: from the
/// arguments to the results, or to the code of a failure.
pub type BoxedFn = Box<dyn Fn(Vec<WasmValue>) -> Result<Vec<WasmValue>, u8> + Send + Sync>;

/// A mapping from tokens to closures that admits a fixed number of entries.
///
/// The view is the mapping itself. Tokens are its keys, so no two entries ever
/// share one.
#[verifier::reject_recursive_types(F)]
pub struct HostRegistry<F> {
    funcs: HashMap<usize, F>,
    capacity: usize,
}

impl<F> View for HostRegistry<F> {
    type V = Map<usize, F>;

    closed spec fn view(&self) -> Map<usize, F> {
        self.funcs@
    }
}

impl<F> HostRegistry<F> {
    #[verifier::type_invariant]
    spec fn within_bound(self) -> bool {
        self.funcs@.len() <= self.capacity
    }

    /// The number of entries that the registry admits.
    pub closed spec fn bound(&self) -> usize {
        self.capacity
    }

    /// Makes an empty registry that admits `capacity` entries.
    pub fn with_capacity(capacity: usize) -> (registry: HostRegistry<F>)
        ensures
            registry@ == Map::<usize, F>::empty(),
            registry.bound() == capacity,
    {
        HostRegistry { funcs: HashMap::with_capacity(capacity), capacity }
    }

    /// Returns the number of entries.
    pub fn len(&self) -> (n: usize)
        ensures
            n == self@.len(),
            n <= self.bound(),
    {
        proof {
            use_type_invariant(self);
        }
        self.funcs.len()
    }

    /// Returns the number of entries that the registry admits.
    pub fn capacity(&self) -> (n: usize)
        ensures
            n == self.bound(),
    {
        self.capacity
    }

    /// Tells whether a closure is registered under `key`.
    pub fn contains_key(&self, key: usize) -> (found: bool)
        ensures
            found == self@.contains_key(key),
    {
        self.funcs.contains_key(&key)
    }

    /// Returns the closure registered under `key`, if there is one.
    pub fn get(&self, key: usize) -> (found: Option<&F>)
        ensures
            match found {
                Some(f) => self@.contains_key(key) && *f == self@[key],
                None => !self@.contains_key(key),
            },
    {
        self.funcs.get(&key)
    }

    /// Returns the closure registered under `key`. To ask for a token under
    /// which nothing is registered is an error of the caller.
    pub fn resolve(&self, key: usize) -> (real_fn: &F)
        requires
            self@.contains_key(key),
        ensures
            *real_fn == self@[key],
    {
        self.funcs.get(&key).unwrap()
    }

    /// Returns the least token under which nothing is registered.
    pub fn first_vacant(&self) -> (key: usize)
        requires
            self@.len() < self.bound(),
        ensures
            least_vacant(self@, key),
    {
        let mut key: usize = 0;
        while self.funcs.contains_key(&key)
            invariant
                self.funcs@.len() < self.capacity,
                self.funcs@.dom().finite(),
                forall|j: usize| j < key ==> self.funcs@.contains_key(j),
                key <= self.funcs@.len(),
            decreases self.funcs@.len() - key,
        {
            proof {
                lemma_prefix_len(self.funcs@.dom(), (key + 1) as nat);
            }
            key += 1;
        }
        key
    }

    /// Registers `real_fn` under `candidate`, or, where `candidate` is taken,
    /// under the least vacant token. Returns the token.
    ///
    /// Fails with [`FuncError::CreateBinding`] when the registry already holds
    /// as many entries as it admits; the registry is then left as it was.
    pub fn register_at(&mut self, candidate: usize, real_fn: F) -> (result: Result<usize, FuncError>)
        ensures
            final(self).bound() == old(self).bound(),
            match result {
                Ok(key) => {
                    &&& old(self)@.len() < old(self).bound()
                    &&& settles_on(old(self)@, candidate, key)
                    &&& final(self)@ == old(self)@.insert(key, real_fn)
                },
                Err(e) => {
                    &&& old(self)@.len() >= old(self).bound()
                    &&& e == FuncError::CreateBinding(old(self).bound())
                    &&& final(self)@ == old(self)@
                },
            },
    {
        proof {
            use_type_invariant(&*self);
        }
        if self.funcs.len() >= self.capacity {
            return Err(FuncError::CreateBinding(self.capacity));
        }
        let key: usize = if self.funcs.contains_key(&candidate) {
            self.first_vacant()
        } else {
            candidate
        };
        // The map is moved out while it changes: the bound then holds of the
        // registry at every point from which a panic could unwind.
        let mut funcs: HashMap<usize, F> = HashMap::new();
        core::mem::swap(&mut self.funcs, &mut funcs);
        funcs.insert(key, real_fn);
        core::mem::swap(&mut self.funcs, &mut funcs);
        Ok(key)
    }

    /// Registers `real_fn` under a token that no registered closure has, and
    /// returns the token.
    ///
    /// The token is drawn at random from all of `usize` and drawn again while
    /// it collides with a registered one, at most as many times as the
    /// registry admits entries; should every draw collide, the least vacant
    /// token is taken.
    ///
    /// Fails with [`FuncError::CreateBinding`] when the registry already holds
    /// as many entries as it admits; the registry is then left as it was.
    pub fn register(&mut self, real_fn: F) -> (result: Result<usize, FuncError>)
        ensures
            final(self).bound() == old(self).bound(),
            match result {
                Ok(key) => {
                    &&& old(self)@.len() < old(self).bound()
                    &&& !old(self)@.contains_key(key)
                    &&& final(self)@ == old(self)@.insert(key, real_fn)
                },
                Err(e) => {
                    &&& old(self)@.len() >= old(self).bound()
                    &&& e == FuncError::CreateBinding(old(self).bound())
                    &&& final(self)@ == old(self)@
                },
            },
    {
        if self.funcs.len() >= self.capacity {
            proof {
                use_type_invariant(&*self);
            }
            return Err(FuncError::CreateBinding(self.capacity));
        }
        let mut rng = rand::thread_rng();
        let mut key: usize = draw_key(&mut rng);
        let mut redraws: usize = self.capacity;
        while redraws > 0 && self.funcs.contains_key(&key)
            decreases redraws,
        {
            key = draw_key(&mut rng);
            redraws -= 1;
        }
        self.register_at(key, real_fn)
    }

    /// Takes the closure registered under `key` out of the registry and
    /// returns it. Where nothing is registered under `key`, the registry is
    /// left as it was.
    pub fn remove(&mut self, key: usize) -> (removed: Option<F>)
        ensures
            final(self).bound() == old(self).bound(),
            final(self)@ == old(self)@.remove(key),
            match removed {
                Some(f) => old(self)@.contains_key(key) && f == old(self)@[key],
                None => !old(self)@.contains_key(key),
            },
    {
        proof {
            use_type_invariant(&*self);
        }
        let mut funcs: HashMap<usize, F> = HashMap::new();
        core::mem::swap(&mut self.funcs, &mut funcs);
        let removed = funcs.remove(&key);
        core::mem::swap(&mut self.funcs, &mut funcs);
        removed
    }
}

} // verus!
