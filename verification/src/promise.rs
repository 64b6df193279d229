//! The promise container: lifecycle of one asynchronous fetch, keyed by a
//! request value so that stale completions can be recognised and dropped.

use vstd::prelude::*;

verus! {

/// A request key: a value identifying which fetch a promise currently
/// tracks. Keys are compared by their mathematical view, and can be
/// duplicated so the same key may both be stored and handed to a fetch
/// worker.
pub trait RequestKey: View + Sized {
    /// Executable equality agreeing with view equality.
    fn same(&self, other: &Self) -> (r: bool)
        ensures
            r == (self@ == other@),
    ;

    /// An owned copy equal to the original value.
    fn dup(&self) -> (r: Self)
        ensures
            r == *self,
    ;
}

impl RequestKey for u64 {
    fn same(&self, other: &Self) -> (r: bool) {
        *self == *other
    }

    fn dup(&self) -> (r: Self) {
        *self
    }
}

impl RequestKey for String {
    fn same(&self, other: &Self) -> (r: bool) {
        self.eq(other)
    }

    fn dup(&self) -> (r: Self) {
        self.clone()
    }
}

/// Lifecycle of one asynchronous fetch. `D` is the request key type, `R`
/// the success payload, `E` the (opaque) error type.
#[derive(Debug, PartialEq, Eq)]
pub enum Promise<D, R, E> {
    /// No fetch was ever started.
    Empty,
    /// A fetch for the held key is in flight.
    Deferred(D),
    /// The last completed fetch: the key it was for and its outcome.
    Resolved(D, Result<R, E>),
}

/// The key a promise currently holds, if any.
pub open spec fn held_key<D, R, E>(p: Promise<D, R, E>) -> Option<D> {
    match p {
        Promise::Empty => None,
        Promise::Deferred(k) => Some(k),
        Promise::Resolved(k, _) => Some(k),
    }
}

/// Whether a completion for `key` is accepted by state `p`: the key must
/// match whatever key is currently held. An `Empty` promise holds no key,
/// so it accepts nothing.
pub open spec fn accepts<D: View, R, E>(p: Promise<D, R, E>, key: D) -> bool {
    match held_key(p) {
        Some(k) => k@ == key@,
        None => false,
    }
}

/// The state after `update(key, result)`: `Resolved(key, result)` when the
/// completion is accepted, the old state unchanged otherwise.
pub open spec fn after_update<D: View, R, E>(
    p: Promise<D, R, E>,
    key: D,
    result: Result<R, E>,
) -> Promise<D, R, E> {
    if accepts(p, key) {
        Promise::Resolved(key, result)
    } else {
        p
    }
}

/// The observable outcome of a promise: the key and result of the last
/// completed fetch, if one completed.
pub open spec fn resolved_of<D, R, E>(p: Promise<D, R, E>) -> Option<(D, Result<R, E>)> {
    match p {
        Promise::Resolved(k, r) => Some((k, r)),
        _ => None,
    }
}

impl<D: RequestKey, R, E> Promise<D, R, E> {
    /// Start tracking a new fetch: always permitted, from any state, and
    /// discards any prior payload.
    pub fn defer(&mut self, key: D)
        ensures
            *final(self) == Promise::<D, R, E>::Deferred(key),
    {
        *self = Promise::Deferred(key);
    }

    /// Reconcile a completion into the promise. The state changes only if
    /// `key` matches the currently held key; a stale completion is dropped
    /// and the state is left untouched. Returns whether the update was
    /// applied.
    pub fn update(&mut self, key: D, result: Result<R, E>) -> (applied: bool)
        ensures
            applied == accepts(*old(self), key),
            *final(self) == after_update(*old(self), key, result),
    {
        let matched = match &*self {
            Promise::Empty => false,
            Promise::Deferred(k) => k.same(&key),
            Promise::Resolved(k, _) => k.same(&key),
        };
        if matched {
            *self = Promise::Resolved(key, result);
        }
        matched
    }

    /// True exactly when a fetch is in flight.
    pub fn is_pending(&self) -> (r: bool)
        ensures
            r == (*self is Deferred),
    {
        match self {
            Promise::Deferred(_) => true,
            _ => false,
        }
    }

    /// The key and outcome of the last completed fetch, or `None` when no
    /// fetch has completed for the currently held key.
    pub fn resolved(&self) -> (r: Option<(&D, &Result<R, E>)>)
        ensures
            match resolved_of(*self) {
                Some(kr) => (r matches Some(pair) && *pair.0 == kr.0 && *pair.1 == kr.1),
                None => r is None,
            },
    {
        match self {
            Promise::Resolved(k, res) => Some((k, res)),
            _ => None,
        }
    }
}

/// A fresh `defer` never exposes a payload: immediately after `defer(key)`
/// the promise resolves to nothing.
pub proof fn lemma_defer_then_none<D: View, R, E>(key: D)
    ensures
        resolved_of::<D, R, E>(Promise::Deferred(key)) is None,
        Promise::<D, R, E>::Deferred(key) is Deferred,
{
}

/// A stale completion is dropped: after `defer(d1)`, an update keyed by a
/// different `d2` is not accepted and leaves the state as `Deferred(d1)`.
pub proof fn lemma_stale_update_ignored<D: View, R, E>(d1: D, d2: D, result: Result<R, E>)
    requires
        d1@ != d2@,
    ensures
        !accepts(Promise::<D, R, E>::Deferred(d1), d2),
        after_update(Promise::<D, R, E>::Deferred(d1), d2, result)
            == Promise::<D, R, E>::Deferred(d1),
{
}

/// A matching completion is applied: after `defer(d)`, an update keyed by
/// `d` is accepted, the state becomes `Resolved(d, result)`, and the
/// outcome becomes observable.
pub proof fn lemma_matching_update_applies<D: View, R, E>(d: D, result: Result<R, E>)
    ensures
        accepts(Promise::<D, R, E>::Deferred(d), d),
        after_update(Promise::<D, R, E>::Deferred(d), d, result)
            == Promise::<D, R, E>::Resolved(d, result),
        resolved_of(after_update(Promise::<D, R, E>::Deferred(d), d, result))
            == Some((d, result)),
{
}

/// Updates are idempotent: applying the same completion twice, from any
/// starting state, yields the same state as applying it once.
pub proof fn lemma_update_idempotent<D: View, R, E>(p: Promise<D, R, E>, d: D, result: Result<R, E>)
    ensures
        after_update(after_update(p, d, result), d, result) == after_update(p, d, result),
        accepts(p, d) ==> accepts(after_update(p, d, result), d),
{
}

} // verus!
