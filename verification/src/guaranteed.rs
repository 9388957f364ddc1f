use vstd::prelude::*;

use std::sync::Arc;

use crate::signal::{FromSignalArgs, Signal};
use crate::signal_future::FuturePoll;

verus! {

/// Where a guaranteed signal future stands.
///
/// `Pending` until the signal fires (`Ready`) or its connection goes away
/// without firing (`Dead`); `Dropped` once the future itself is gone.
pub enum GuaranteedSignalFutureState<T> {
    Pending,
    Ready(T),
    Dead,
    Dropped,
}

/// What `take` leaves behind and what it hands out, in that order: a ready value
/// is handed out once and leaves the state dead; the other states stay as they are.
pub open spec fn spec_state_take<T>(state: GuaranteedSignalFutureState<T>) -> (GuaranteedSignalFutureState<T>, GuaranteedSignalFutureState<T>) {
    match state {
        GuaranteedSignalFutureState::Pending => (GuaranteedSignalFutureState::Pending, GuaranteedSignalFutureState::Pending),
        GuaranteedSignalFutureState::Ready(value) => (GuaranteedSignalFutureState::Dead, GuaranteedSignalFutureState::Ready(value)),
        GuaranteedSignalFutureState::Dead => (GuaranteedSignalFutureState::Dead, GuaranteedSignalFutureState::Dead),
        GuaranteedSignalFutureState::Dropped => (GuaranteedSignalFutureState::Dropped, GuaranteedSignalFutureState::Dropped),
    }
}

impl<T> GuaranteedSignalFutureState<T> {
    pub fn take(&mut self) -> (r: Self)
        ensures
            (*final(self), r) == spec_state_take(*old(self)),
    {
        let new_value = match self {
            GuaranteedSignalFutureState::Pending => GuaranteedSignalFutureState::Pending,
            GuaranteedSignalFutureState::Ready(_) => GuaranteedSignalFutureState::Dead,
            GuaranteedSignalFutureState::Dead => GuaranteedSignalFutureState::Dead,
            GuaranteedSignalFutureState::Dropped => GuaranteedSignalFutureState::Dropped,
        };
        let mut old_value = new_value;
        std::mem::swap(self, &mut old_value);
        old_value
    }
}

/// The state after the signal delivered `value`, and the waker to wake.
pub open spec fn spec_guaranteed_resolve<R, W>(
    state: (GuaranteedSignalFutureState<R>, Option<W>),
    value: R,
) -> ((GuaranteedSignalFutureState<R>, Option<W>), Option<W>) {
    ((GuaranteedSignalFutureState::Ready(value), None), state.1)
}

/// The state after the connection went away, and whether the stored waker must
/// be woken: only a pending future dies; it keeps its waker.
pub open spec fn spec_guaranteed_abandon<R, W>(
    state: (GuaranteedSignalFutureState<R>, Option<W>),
) -> ((GuaranteedSignalFutureState<R>, Option<W>), bool) {
    if state.0 is Pending {
        ((GuaranteedSignalFutureState::Dead, state.1), state.1 is Some)
    } else {
        (state, false)
    }
}

/// The answer a poll gives for what `take` handed out.
pub open spec fn spec_poll_answer<R>(taken: GuaranteedSignalFutureState<R>) -> FuturePoll<Option<R>> {
    match taken {
        GuaranteedSignalFutureState::Ready(value) => FuturePoll::Ready(Some(value)),
        GuaranteedSignalFutureState::Dead => FuturePoll::Ready(None),
        _ => FuturePoll::Pending,
    }
}

/// The state after a poll with `waker`, and the poll's answer.
pub open spec fn spec_guaranteed_poll<R, W>(
    state: (GuaranteedSignalFutureState<R>, Option<W>),
    waker: W,
) -> ((GuaranteedSignalFutureState<R>, Option<W>), FuturePoll<Option<R>>) {
    let (left, taken) = spec_state_take(state.0);
    ((left, Some(waker)), spec_poll_answer(taken))
}

/// The state after the future is dropped: it is marked dropped only while the
/// signal's object still exists.
pub open spec fn spec_guaranteed_release<R, W>(
    state: (GuaranteedSignalFutureState<R>, Option<W>),
    object_alive: bool,
) -> (GuaranteedSignalFutureState<R>, Option<W>) {
    if object_alive {
        (GuaranteedSignalFutureState::Dropped, state.1)
    } else {
        state
    }
}

/// A signal future that always resolves: to `Some` of the signal's value when
/// the signal fires, or to `None` when its connection goes away first (for
/// instance because the signal's object was freed).
///
/// Its view is the state and the waker of the last poll.
pub struct GuaranteedSignalFuture<R, W> {
    state: GuaranteedSignalFutureState<R>,
    waker: Option<W>,
    signal: Signal,
}

impl<R, W> View for GuaranteedSignalFuture<R, W> {
    type V = (GuaranteedSignalFutureState<R>, Option<W>);

    closed spec fn view(&self) -> (GuaranteedSignalFutureState<R>, Option<W>) {
        (self.state, self.waker)
    }
}

impl<R, W> GuaranteedSignalFuture<R, W> {
    /// The signal this future waits for.
    pub closed spec fn source(&self) -> (u64, Seq<char>) {
        self.signal@
    }

    pub fn new(signal: Signal) -> (f: Self)
        ensures
            f@ == (GuaranteedSignalFutureState::<R>::Pending, None::<W>),
            f.source() == signal@,
    {
        GuaranteedSignalFuture { state: GuaranteedSignalFutureState::Pending, waker: None, signal }
    }

    pub fn signal(&self) -> (s: &Signal)
        ensures
            s@ == self.source(),
    {
        &self.signal
    }

    pub fn state(&self) -> (s: &GuaranteedSignalFutureState<R>)
        ensures
            *s == self@.0,
    {
        &self.state
    }

    /// The waker of the last poll, if any.
    pub fn waker(&self) -> (w: Option<&W>)
        ensures
            w is Some == self@.1 is Some,
            w is Some ==> *w->0 == self@.1->0,
    {
        self.waker.as_ref()
    }

    /// Called when the signal fires: the future becomes ready with `value`, and
    /// the waker to wake is handed back.
    pub fn resolve(&mut self, value: R) -> (waker: Option<W>)
        ensures
            (final(self)@, waker) == spec_guaranteed_resolve(old(self)@, value),
            final(self).source() == old(self).source(),
    {
        let waker = self.waker.take();
        self.state = GuaranteedSignalFutureState::Ready(value);
        waker
    }

    /// Called when the signal fires with `args`: converts them and resolves.
    pub fn resolve_with_args<V>(&mut self, args: &[V]) -> (waker: Option<W>)
        where R: FromSignalArgs<V>
        ensures
            exists|value: R| call_ensures(R::from_args, (args,), value)
                && (final(self)@, waker) == spec_guaranteed_resolve(old(self)@, value),
            final(self).source() == old(self).source(),
    {
        let value = R::from_args(args);
        self.resolve(value)
    }

    /// Called when the connection to the signal goes away: a pending future
    /// becomes dead. Returns whether the stored waker must be woken.
    pub fn abandon(&mut self) -> (wake: bool)
        ensures
            (final(self)@, wake) == spec_guaranteed_abandon(old(self)@),
            final(self).source() == old(self).source(),
    {
        match self.state {
            GuaranteedSignalFutureState::Pending => {
                self.state = GuaranteedSignalFutureState::Dead;
                self.waker.is_some()
            },
            _ => false,
        }
    }

    /// One poll: stores `waker`, then answers `Some` of a delivered value, `None`
    /// for a dead future, or pending.
    pub fn poll(&mut self, waker: W) -> (r: FuturePoll<Option<R>>)
        requires
            !(old(self)@.0 is Dropped),
        ensures
            (final(self)@, r) == spec_guaranteed_poll(old(self)@, waker),
            final(self).source() == old(self).source(),
    {
        self.waker = Some(waker);
        let value = self.state.take();
        match value {
            GuaranteedSignalFutureState::Ready(value) => FuturePoll::Ready(Some(value)),
            GuaranteedSignalFutureState::Dead => FuturePoll::Ready(None),
            _ => FuturePoll::Pending,
        }
    }

    /// Called when the future is dropped. While the signal's object exists the
    /// future is marked dropped; returns whether its callable must then be
    /// disconnected (it is still connected).
    pub fn release(&mut self, object_alive: bool, connected: bool) -> (disconnect: bool)
        ensures
            final(self)@ == spec_guaranteed_release(old(self)@, object_alive),
            disconnect == (object_alive && connected),
            final(self).source() == old(self).source(),
    {
        if !object_alive {
            return false;
        }
        self.state = GuaranteedSignalFutureState::Dropped;
        connected
    }
}

/// The callable connected to a signal on behalf of a guaranteed future: a handle
/// on the future's shared state. Clones are handles on the same state.
pub struct GuaranteedSignalFutureResolver<S> {
    state: Arc<S>,
}

/// `Arc::clone`: a new handle on the same allocation, so it holds the same value.
#[verifier::external_body]
fn arc_share<S>(state: &Arc<S>) -> (r: Arc<S>)
    ensures
        r == *state,
{
    Arc::clone(state)
}

/// `Arc::ptr_eq`: true only for handles on one allocation, which therefore hold
/// the same value. When it is false nothing is claimed.
#[verifier::external_body]
fn arc_same_allocation<S>(a: &Arc<S>, b: &Arc<S>) -> (r: bool)
    ensures
        r ==> *a == *b,
{
    Arc::ptr_eq(a, b)
}

impl<S> GuaranteedSignalFutureResolver<S> {
    /// The shared state this resolver is a handle on.
    pub closed spec fn shared(&self) -> S {
        *self.state
    }

    pub fn new(state: Arc<S>) -> (r: Self)
        ensures
            r.shared() == *state,
    {
        GuaranteedSignalFutureResolver { state }
    }

    pub fn state(&self) -> (s: &Arc<S>)
        ensures
            **s == self.shared(),
    {
        &self.state
    }

    /// Whether the two resolvers are handles on the same shared state.
    pub fn ptr_eq(&self, other: &Self) -> (r: bool)
        ensures
            r ==> self.shared() == other.shared(),
    {
        arc_same_allocation(&self.state, &other.state)
    }
}

impl<S> Clone for GuaranteedSignalFutureResolver<S> {
    fn clone(&self) -> (r: Self)
        ensures
            r.shared() == self.shared(),
    {
        GuaranteedSignalFutureResolver { state: arc_share(&self.state) }
    }
}

impl<S> std::hash::Hash for GuaranteedSignalFutureResolver<S> {
    /// Hashes the address of the shared state, so that a clone hashes as its original.
    #[verifier::external_body]
    fn hash<H: std::hash::Hasher>(&self, hasher: &mut H) {
        std::ptr::hash(&*self.state, hasher)
    }
}

/// A guaranteed future always resolves once its connection is settled: after the
/// signal fires it yields `Some` of the value, after the connection goes away
/// from pending it yields `None`.
pub proof fn lemma_guaranteed_always_resolves<R, W>(
    state: (GuaranteedSignalFutureState<R>, Option<W>),
    value: R,
    waker: W,
)
    ensures
        spec_guaranteed_poll(spec_guaranteed_resolve(state, value).0, waker).1 == FuturePoll::Ready(Some(value)),
        state.0 is Pending ==> spec_guaranteed_poll(spec_guaranteed_abandon(state).0, waker).1
            == FuturePoll::<Option<R>>::Ready(None),
{
}

/// A pending poll keeps the future pending, and the waker it leaves is the one
/// handed back when the signal fires, or woken when the connection goes away.
pub proof fn lemma_guaranteed_pending_poll_is_woken<R, W>(
    state: (GuaranteedSignalFutureState<R>, Option<W>),
    waker: W,
    value: R,
)
    requires
        state.0 is Pending,
    ensures
        ({
            let (polled, answer) = spec_guaranteed_poll(state, waker);
            &&& answer == FuturePoll::<Option<R>>::Pending
            &&& polled.0 is Pending
            &&& spec_guaranteed_resolve(polled, value).1 == Some(waker)
            &&& spec_guaranteed_abandon(polled).1
            &&& spec_guaranteed_abandon(polled).0.1 == Some(waker)
        }),
{
}

/// Losing the connection after the signal fired does not lose the value.
pub proof fn lemma_abandon_keeps_ready_value<R, W>(
    state: (GuaranteedSignalFutureState<R>, Option<W>),
    value: R,
    waker: W,
)
    ensures
        ({
            let resolved = spec_guaranteed_resolve(state, value).0;
            &&& spec_guaranteed_abandon(resolved) == (resolved, false)
            &&& spec_guaranteed_poll(spec_guaranteed_abandon(resolved).0, waker).1
                == FuturePoll::Ready(Some(value))
        }),
{
}

/// A value is handed out once; every later poll answers `None`.
pub proof fn lemma_guaranteed_value_handed_out_once<R, W>(
    state: (GuaranteedSignalFutureState<R>, Option<W>),
    value: R,
    w1: W,
    w2: W,
)
    ensures
        ({
            let (after, first) = spec_guaranteed_poll(spec_guaranteed_resolve(state, value).0, w1);
            &&& first == FuturePoll::Ready(Some(value))
            &&& spec_guaranteed_poll(after, w2).1 == FuturePoll::<Option<R>>::Ready(None)
        }),
{
}

/// Losing the connection only affects a pending future: a pending future becomes
/// dead, keeps its waker, and that waker is to be woken if there is one; a future
/// that is ready, dead or dropped is left exactly as it was and nothing is woken.
pub proof fn lemma_abandon_only_affects_pending<R, W>(state: (GuaranteedSignalFutureState<R>, Option<W>))
    ensures
        !(state.0 is Pending) ==> spec_guaranteed_abandon(state).0 == state && !spec_guaranteed_abandon(state).1,
        state.0 is Pending ==> {
            let (after, wake) = spec_guaranteed_abandon(state);
            &&& after.0 is Dead
            &&& after.1 == state.1
            &&& wake == (state.1 is Some)
        },
{
}

/// Dropping a guaranteed future while its object exists marks it dropped,
/// whatever state it was in, and keeps its waker; once the object is gone the
/// future is left as it was.
pub proof fn lemma_release_marks_dropped<R, W>(state: (GuaranteedSignalFutureState<R>, Option<W>), object_alive: bool)
    ensures
        object_alive ==> spec_guaranteed_release(state, object_alive).0 is Dropped
            && spec_guaranteed_release(state, object_alive).1 == state.1,
        !object_alive ==> spec_guaranteed_release(state, object_alive) == state,
{
}

/// Once a future has been released while its object exists, losing the
/// connection afterwards wakes nothing and leaves it dropped.
pub proof fn lemma_abandon_after_release_wakes_nothing<R, W>(state: (GuaranteedSignalFutureState<R>, Option<W>))
    ensures
        ({
            let released = spec_guaranteed_release(state, true);
            &&& !spec_guaranteed_abandon(released).1
            &&& spec_guaranteed_abandon(released).0 == released
            &&& released.0 is Dropped
        }),
{
}

} // verus!
