use vstd::prelude::*;

use crate::signal::{FromSignalArgs, Signal};

verus! {

/// The answer to one poll of a future: its value, or not yet.
pub enum FuturePoll<T> {
    Ready(T),
    Pending,
}

/// The state of a signal future after the signal delivered `value`, and the
/// waker that must now be woken (the one the last pending poll left behind).
pub open spec fn spec_signal_resolve<R, W>(state: (Option<R>, Option<W>), value: R) -> ((Option<R>, Option<W>), Option<W>) {
    ((Some(value), None), state.1)
}

/// The state of a signal future after a poll with `waker`, and the poll's answer:
/// a delivered value is handed out once; otherwise the waker is kept for the
/// signal to wake.
pub open spec fn spec_signal_poll<R, W>(state: (Option<R>, Option<W>), waker: W) -> ((Option<R>, Option<W>), FuturePoll<R>) {
    match state.0 {
        Some(value) => ((None, state.1), FuturePoll::Ready(value)),
        None => ((None, Some(waker)), FuturePoll::Pending),
    }
}

/// A future that resolves when its signal is emitted.
///
/// Its view is the value delivered by the signal and not yet handed out, and the
/// waker of the last poll that found nothing.
pub struct SignalFuture<R, W> {
    output: Option<R>,
    waker: Option<W>,
    signal: Signal,
}

impl<R, W> View for SignalFuture<R, W> {
    type V = (Option<R>, Option<W>);

    closed spec fn view(&self) -> (Option<R>, Option<W>) {
        (self.output, self.waker)
    }
}

impl<R, W> SignalFuture<R, W> {
    /// The signal this future waits for.
    pub closed spec fn source(&self) -> (u64, Seq<char>) {
        self.signal@
    }

    pub fn new(signal: Signal) -> (f: Self)
        ensures
            f@ == (None::<R>, None::<W>),
            f.source() == signal@,
    {
        SignalFuture { output: None, waker: None, signal }
    }

    pub fn signal(&self) -> (s: &Signal)
        ensures
            s@ == self.source(),
    {
        &self.signal
    }

    /// Called when the signal is emitted: stores its value and hands back the
    /// waker to wake, if a poll left one.
    pub fn resolve(&mut self, value: R) -> (waker: Option<W>)
        ensures
            (final(self)@, waker) == spec_signal_resolve(old(self)@, value),
            final(self).source() == old(self).source(),
    {
        let waker = self.waker.take();
        self.output = Some(value);
        waker
    }

    /// Called when the signal is emitted with `args`: converts them and stores
    /// the result as `resolve` does.
    pub fn resolve_with_args<V>(&mut self, args: &[V]) -> (waker: Option<W>)
        where R: FromSignalArgs<V>
        ensures
            exists|value: R| call_ensures(R::from_args, (args,), value)
                && (final(self)@, waker) == spec_signal_resolve(old(self)@, value),
            final(self).source() == old(self).source(),
    {
        let value = R::from_args(args);
        self.resolve(value)
    }

    /// One poll: hands out the delivered value, or keeps `waker` and stays pending.
    pub fn poll(&mut self, waker: W) -> (r: FuturePoll<R>)
        ensures
            (final(self)@, r) == spec_signal_poll(old(self)@, waker),
            final(self).source() == old(self).source(),
    {
        match self.output.take() {
            Some(result) => FuturePoll::Ready(result),
            None => {
                self.waker = Some(waker);
                FuturePoll::Pending
            },
        }
    }

    /// Whether dropping the future must disconnect its callable from the signal:
    /// only while the callable is still valid, the signal's object still exists,
    /// and the callable is still connected.
    pub fn disconnects_on_drop(&self, callable_valid: bool, object_alive: bool, connected: bool) -> (r: bool)
        ensures
            r == (callable_valid && object_alive && connected),
    {
        if !callable_valid {
            return false;
        }
        if !object_alive {
            return false;
        }
        connected
    }
}

/// A waker left by a pending poll is the one handed back when the signal fires,
/// and the next poll then yields the signal's value.
pub proof fn lemma_signal_wakes_pending_poll<R, W>(state: (Option<R>, Option<W>), waker: W, value: R, next_waker: W)
    requires
        state.0 is None,
    ensures
        ({
            let (polled, first) = spec_signal_poll(state, waker);
            let (resolved, woken) = spec_signal_resolve(polled, value);
            let (after, second) = spec_signal_poll(resolved, next_waker);
            &&& first == FuturePoll::<R>::Pending
            &&& woken == Some(waker)
            &&& second == FuturePoll::Ready(value)
            &&& after.0 is None
        }),
{
}

/// A delivered value is handed out exactly once: the poll after it is pending.
pub proof fn lemma_signal_value_handed_out_once<R, W>(state: (Option<R>, Option<W>), value: R, w1: W, w2: W)
    ensures
        ({
            let (resolved, _) = spec_signal_resolve(state, value);
            let (after, first) = spec_signal_poll(resolved, w1);
            let (_, second) = spec_signal_poll(after, w2);
            &&& first == FuturePoll::Ready(value)
            &&& second == FuturePoll::<R>::Pending
        }),
{
}

} // verus!
