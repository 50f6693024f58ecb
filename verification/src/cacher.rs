//! A memoizing cache around a single-argument computation.
//!
//! A [`Cacher`] owns a computation and a table of the results it has produced.
//! A lookup answers from the table when it can, and otherwise invokes the
//! computation once, stores what came back, and answers with it. Entries are
//! never replaced or dropped.
//!
//! How often the computation is invoked is stated over a record that the
//! cache keeps of its invocations. The record is ghost state: a lookup adds
//! to it in its own proof, next to the place where it calls the computation.
//! Verus has no notion of a call having happened and so cannot hold
//! the record against the calls themselves. What it proves is what follows
//! from the record: the laws below, and what callers state over it.
use crate::sequences::{lemma_occurrences_push, occurrences};
use std::collections::HashMap;
use std::hash::Hash;
use vstd::prelude::*;
use vstd::std_specs::hash::*;

verus! {

/// The abstract state of a cache: the results it holds, and a record of every
/// invocation it has made of its computation. The record exists in proofs
/// only, and the cache writes it itself (see the top of this file).
#[verifier::reject_recursive_types(K)]
pub struct CacheState<K, V> {
    /// The stored results, by key.
    pub entries: Map<K, V>,
    /// The keys the computation was invoked with, oldest first, as the cache
    /// recorded them.
    pub calls: Seq<K>,
}

impl<K, V> CacheState<K, V> {
    /// The state of a cache that has not been asked anything yet.
    pub open spec fn empty() -> Self {
        CacheState { entries: Map::empty(), calls: Seq::empty() }
    }

    /// Nothing is stored that the computation was not invoked for.
    pub open spec fn wf(self) -> bool {
        forall|k: K| #[trigger] self.entries.contains_key(k) ==> self.calls.contains(k)
    }

    /// The number of times the computation has been invoked with `key`,
    /// going by the record.
    pub open spec fn invocations(self, key: K) -> nat {
        occurrences(self.calls, key)
    }

    /// The computation has been invoked once for every key that is stored, and
    /// never for any other.
    pub open spec fn computed_once_each(self) -> bool {
        forall|k: K|
            #[trigger] self.invocations(k) == if self.entries.contains_key(k) {
                1nat
            } else {
                0nat
            }
    }

    /// The state after one lookup of `key`. `outcome` is what the computation
    /// yields if the lookup has to invoke it: `Some` with its result, or `None`
    /// when it fails. A stored key leaves the state as it is; otherwise the
    /// invocation is recorded, and a result, if there is one, is stored.
    pub open spec fn after(self, key: K, outcome: Option<V>) -> Self {
        if self.entries.contains_key(key) {
            self
        } else {
            CacheState {
                entries: match outcome {
                    Some(v) => self.entries.insert(key, v),
                    None => self.entries,
                },
                calls: self.calls.push(key),
            }
        }
    }

    /// What one lookup of `key` answers, with `outcome` as in [`Self::after`]:
    /// the stored result if there is one, else whatever the computation yields.
    pub open spec fn answer(self, key: K, outcome: Option<V>) -> Option<V> {
        if self.entries.contains_key(key) {
            Some(self.entries[key])
        } else {
            outcome
        }
    }

    /// The state after one lookup of `key` per element of `outcomes`, in order;
    /// element `i` is the outcome that lookup `i` would get from the computation.
    pub open spec fn after_all(self, key: K, outcomes: Seq<Option<V>>) -> Self
        decreases outcomes.len(),
    {
        if outcomes.len() == 0 {
            self
        } else {
            self.after_all(key, outcomes.drop_last()).after(key, outcomes.last())
        }
    }
}

/// A lookup keeps a consistent state consistent.
pub proof fn lemma_recorded_stays_wf<K, V>(state: CacheState<K, V>, key: K, outcome: Option<V>)
    requires
        state.wf(),
    ensures
        state.after(key, outcome).wf(),
{
    let next = state.after(key, outcome);
    assert forall|k: K| next.entries.contains_key(k) implies next.calls.contains(k) by {
        if state.entries.contains_key(key) {
        } else if k == key {
            assert(next.calls[state.calls.len() as int] == key);
        } else {
            assert(state.entries.contains_key(k));
            let i = choose|i: int| 0 <= i < state.calls.len() && state.calls[i] == k;
            assert(next.calls[i] == k);
        }
    }
}

/// The successful result of a computation, if it has one: what a cache
/// stores of what the computation returned.
pub open spec fn success<V, R: Outcome<V>>(outcome: R) -> Option<V> {
    Outcome::<V>::stored(outcome)
}

/// What a computation can return to a cache that stores results of type `V`.
///
/// A computation that cannot fail returns the result itself. One that can
/// fail returns a `Result<V, E>`, of which the cache stores the successes
/// only. These two are all the outcomes there are.
pub trait Outcome<V>: Sized {
    /// The result to store, if the computation succeeded.
    spec fn stored(self) -> Option<V>;

    /// The outcome that answers a lookup of the stored result `value`.
    spec fn of_stored(value: V) -> Self;

    /// A stored result is answered as a success with that result, and a
    /// success is what its result is answered as when it is stored.
    proof fn lemma_outcome(outcome: Self, value: V)
        ensures
            Self::of_stored(value).stored() == Some(value),
            outcome.stored() == Some(value) ==> outcome == Self::of_stored(value),
    ;

    /// The result to store, if there is one.
    fn to_store(&self) -> (kept: Option<V>)
        ensures
            kept == Outcome::<V>::stored(*self),
    ;

    /// The outcome that answers a lookup of the stored result `value`.
    fn from_stored(value: V) -> (outcome: Self)
        ensures
            outcome == Self::of_stored(value),
    ;
}

impl<V: Copy> Outcome<V> for V {
    open spec fn stored(self) -> Option<V> {
        Some(self)
    }

    open spec fn of_stored(value: V) -> V {
        value
    }

    proof fn lemma_outcome(outcome: V, value: V) {
    }

    fn to_store(&self) -> (kept: Option<V>) {
        Some(*self)
    }

    fn from_stored(value: V) -> (outcome: V) {
        value
    }
}

impl<V: Copy, E> Outcome<V> for Result<V, E> {
    open spec fn stored(self) -> Option<V> {
        match self {
            Ok(v) => Some(v),
            Err(_) => None,
        }
    }

    open spec fn of_stored(value: V) -> Result<V, E> {
        Ok(value)
    }

    proof fn lemma_outcome(outcome: Result<V, E>, value: V) {
    }

    fn to_store(&self) -> (kept: Option<V>) {
        match self {
            Ok(v) => Some(*v),
            Err(_) => None,
        }
    }

    fn from_stored(value: V) -> (outcome: Result<V, E>) {
        Ok(value)
    }
}

/// Every entry of `entries` is a result that `f` can produce for its key.
pub open spec fn holds_results_of<K, V, R: Outcome<V>, F: Fn(K) -> R>(
    entries: Map<K, V>,
    f: F,
) -> bool {
    forall|k: K| #[trigger]
        entries.contains_key(k) ==> call_ensures(f, (k,), R::of_stored(entries[k]))
}

/// A cache that remembers, per key, the first result its computation produced.
#[verifier::reject_recursive_types(K)]
pub struct Cacher<K, V, F> {
    calculation: F,
    values: HashMap<K, V>,
    calls: Ghost<Seq<K>>,
}

impl<K, V, F> View for Cacher<K, V, F> {
    type V = CacheState<K, V>;

    closed spec fn view(&self) -> CacheState<K, V> {
        CacheState { entries: self.values@, calls: self.calls@ }
    }
}

impl<K, V, F> Cacher<K, V, F> {
    /// The computation that this cache owns.
    pub closed spec fn calculation(&self) -> F {
        self.calculation
    }

    /// The key type can be looked up reliably, and the state is consistent.
    pub open spec fn wf(&self) -> bool {
        &&& obeys_key_model::<K>()
        &&& self@.wf()
    }
}

impl<K: Eq + Hash + Copy, V: Copy, F> Cacher<K, V, F> {
    /// Creates a cache that owns `calculation` and holds no result yet.
    pub fn new(calculation: F) -> (cacher: Self)
        requires
            obeys_key_model::<K>(),
        ensures
            cacher.wf(),
            cacher@ == CacheState::<K, V>::empty(),
            cacher.calculation() == calculation,
    {
        Cacher { calculation, values: HashMap::new(), calls: Ghost(Seq::empty()) }
    }
}

impl<K: Eq + Hash + Copy, V: Copy, F> Cacher<K, V, F> {
    /// Returns the result for `arg`: the stored one if there is one, and
    /// otherwise what one invocation of the computation returns.
    ///
    /// What is stored goes by the types of the cache and of what the
    /// computation returns. A computation that returns a `V` cannot fail:
    /// whatever comes back is stored. One that returns a `Result<V, E>` can:
    /// a success is stored, and a failure is handed on as it came while
    /// nothing is stored, so that the next lookup of `arg` invokes the
    /// computation again. A cache whose `V` is itself a `Result` stores
    /// what comes back whole, an `Err` like any other value; where the
    /// types leave both readings open, the type of the cache has to be
    /// written out.
    pub fn value<R: Outcome<V>>(&mut self, arg: K) -> (r: R) where F: Fn(K) -> R
        requires
            old(self).wf(),
            holds_results_of(old(self)@.entries, old(self).calculation()),
            !old(self)@.entries.contains_key(arg) ==> call_requires(
                old(self).calculation(),
                (arg,),
            ),
        ensures
            final(self).wf(),
            final(self).calculation() == old(self).calculation(),
            holds_results_of(final(self)@.entries, final(self).calculation()),
            call_ensures(old(self).calculation(), (arg,), r),
            old(self)@.entries.contains_key(arg) ==> r == R::of_stored(old(self)@.entries[arg]),
            old(self)@.answer(arg, success(r)) == success(r),
            final(self)@ == old(self)@.after(arg, success(r)),
    {
        broadcast use vstd::std_specs::hash::group_hash_axioms;

        match self.values.get(&arg) {
            Some(v) => {
                proof {
                    R::lemma_outcome(R::of_stored(*v), *v);
                }
                R::from_stored(*v)
            },
            None => {
                let r = (self.calculation)(arg);
                match r.to_store() {
                    Some(v) => {
                        self.values.insert(arg, v);
                        proof {
                            R::lemma_outcome(r, v);
                            assert(self.values@ =~= old(self)@.entries.insert(arg, v));
                        }
                    },
                    None => {},
                }
                proof {
                    self.calls@ = self.calls@.push(arg);
                    lemma_recorded_stays_wf(old(self)@, arg, success(r));
                }
                r
            },
        }
    }
}

impl<K: Eq + Hash + Copy, V: Copy, E, F: Fn(K) -> Result<V, E>> Cacher<K, V, F> {
    /// Returns the result for `key`: the stored one if there is one, and
    /// otherwise whatever one invocation of the computation yields. A success
    /// is stored; a failure is handed on as it came and nothing is stored, so
    /// that the next lookup of `key` invokes the computation again. This is
    /// [`Cacher::value`] for a computation that can fail.
    pub fn get_or_compute(&mut self, key: K) -> (r: Result<V, E>)
        requires
            old(self).wf(),
            holds_results_of(old(self)@.entries, old(self).calculation()),
            !old(self)@.entries.contains_key(key) ==> call_requires(
                old(self).calculation(),
                (key,),
            ),
        ensures
            final(self).wf(),
            final(self).calculation() == old(self).calculation(),
            holds_results_of(final(self)@.entries, final(self).calculation()),
            call_ensures(old(self).calculation(), (key,), r),
            old(self)@.entries.contains_key(key) ==> r == Ok::<V, E>(old(self)@.entries[key]),
            old(self)@.answer(key, success(r)) == success(r),
            final(self)@ == old(self)@.after(key, success(r)),
    {
        self.value(key)
    }
}

/// Once a key is stored, no number of further lookups of it changes anything:
/// the computation is not invoked again.
pub proof fn lemma_stored_key_is_settled<K, V>(
    state: CacheState<K, V>,
    key: K,
    outcomes: Seq<Option<V>>,
)
    requires
        state.entries.contains_key(key),
    ensures
        state.after_all(key, outcomes) == state,
    decreases outcomes.len(),
{
    if outcomes.len() > 0 {
        lemma_stored_key_is_settled(state, key, outcomes.drop_last());
    }
}

/// However often a key is looked up, the computation is invoked for it once:
/// when the first of the lookups computes a result, that result is stored, and
/// all the lookups together add exactly one invocation for the key.
pub proof fn lemma_repeated_lookups_invoke_once<K, V>(
    state: CacheState<K, V>,
    key: K,
    outcomes: Seq<Option<V>>,
)
    requires
        !state.entries.contains_key(key),
        outcomes.len() >= 1,
        outcomes[0] is Some,
    ensures
        state.after_all(key, outcomes) == state.after(key, outcomes[0]),
        state.after_all(key, outcomes).entries[key] == outcomes[0]->0,
        state.after_all(key, outcomes).invocations(key) == state.invocations(key) + 1,
    decreases outcomes.len(),
{
    lemma_occurrences_push(state.calls, key, key);
    if outcomes.len() == 1 {
        assert(outcomes.drop_last().len() == 0);
        assert(state.after_all(key, outcomes.drop_last()) == state);
    } else {
        let front = outcomes.drop_last();
        assert(front[0] == outcomes[0]);
        lemma_repeated_lookups_invoke_once(state, key, front);
    }
}

/// As long as the computation does not fail, it is invoked at most once per
/// key over the whole life of a cache: a new cache has invoked it for nothing,
/// and a lookup that succeeds leaves it invoked once for each stored key and
/// for no other.
pub proof fn lemma_computed_once_each<K, V>(state: CacheState<K, V>, key: K, result: V)
    requires
        state.computed_once_each(),
    ensures
        CacheState::<K, V>::empty().computed_once_each(),
        state.after(key, Some(result)).computed_once_each(),
{
    let next = state.after(key, Some(result));
    assert forall|k: K|
        #[trigger] next.invocations(k) == if next.entries.contains_key(k) {
            1nat
        } else {
            0nat
        } by {
        assert(state.invocations(k) == if state.entries.contains_key(k) {
            1nat
        } else {
            0nat
        });
        lemma_occurrences_push(state.calls, key, k);
    }
}

/// No lookup discards or replaces what is stored: every stored key stays
/// stored, with the result it had.
pub proof fn lemma_entries_are_kept<K, V>(
    state: CacheState<K, V>,
    key: K,
    outcome: Option<V>,
    stored: K,
)
    requires
        state.entries.contains_key(stored),
    ensures
        state.after(key, outcome).entries.contains_key(stored),
        state.after(key, outcome).entries[stored] == state.entries[stored],
{
}

/// A lookup of one key leaves every other key as it was: whether it is stored,
/// what is stored for it, how often the computation was invoked for it, and
/// what a lookup of it answers.
pub proof fn lemma_other_keys_untouched<K, V>(
    state: CacheState<K, V>,
    key: K,
    outcome: Option<V>,
    other: K,
    other_outcome: Option<V>,
)
    requires
        other != key,
    ensures
        state.after(key, outcome).entries.contains_key(other) == state.entries.contains_key(other),
        state.entries.contains_key(other) ==> state.after(key, outcome).entries[other]
            == state.entries[other],
        state.after(key, outcome).invocations(other) == state.invocations(other),
        state.after(key, outcome).answer(other, other_outcome) == state.answer(
            other,
            other_outcome,
        ),
{
    lemma_occurrences_push(state.calls, key, other);
}

/// A lookup that directly follows a successful lookup of the same key answers
/// as that one did, and changes nothing: it makes no invocation.
pub proof fn lemma_second_lookup_repeats_first<K, V>(
    state: CacheState<K, V>,
    key: K,
    first: V,
    second: Option<V>,
)
    ensures
        state.after(key, Some(first)).answer(key, second) == state.answer(key, Some(first)),
        state.after(key, Some(first)).after(key, second) == state.after(key, Some(first)),
{
}

/// A failed computation is not remembered. The lookup that fails stores
/// nothing, so the next lookup of the key invokes the computation again; when
/// that one succeeds, its result is the one stored and answered from then on,
/// and the computation has been invoked twice for the key.
pub proof fn lemma_failure_is_retried<K, V>(
    state: CacheState<K, V>,
    key: K,
    retry: V,
    later: Option<V>,
)
    requires
        !state.entries.contains_key(key),
    ensures
        state.after(key, None).entries == state.entries,
        state.after(key, None).answer(key, Some(retry)) == Some(retry),
        state.after(key, None).after(key, Some(retry)).entries == state.entries.insert(key, retry),
        state.after(key, None).after(key, Some(retry)).answer(key, later) == Some(retry),
        state.after(key, None).after(key, Some(retry)).invocations(key) == state.invocations(key)
            + 2,
{
    lemma_occurrences_push(state.calls, key, key);
    lemma_occurrences_push(state.calls.push(key), key, key);
}

} // verus!
