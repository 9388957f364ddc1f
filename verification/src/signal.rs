use vstd::prelude::*;

use crate::guaranteed::GuaranteedSignalFuture;
use crate::signal_future::SignalFuture;

verus! {

/// Connection flag under which a future's callable is connected to its signal:
/// the engine disconnects a one-shot connection after its first emission.
pub const CONNECT_ONE_SHOT: u32 = 4;

/// A signal of an engine object: the object's instance id and the signal's name.
pub struct Signal {
    object_id: u64,
    name: String,
}

impl View for Signal {
    type V = (u64, Seq<char>);

    closed spec fn view(&self) -> (u64, Seq<char>) {
        (self.object_id, self.name@)
    }
}

impl Clone for Signal {
    fn clone(&self) -> (r: Self)
        ensures
            r@ == self@,
    {
        Signal { object_id: self.object_id, name: self.name.clone() }
    }
}

impl Signal {
    pub fn from_object_signal(object_id: u64, name: String) -> (s: Signal)
        ensures
            s@ == (object_id, name@),
    {
        Signal { object_id, name }
    }

    pub fn object_id(&self) -> (id: u64)
        ensures
            id == self@.0,
    {
        self.object_id
    }

    pub fn name(&self) -> (name: &String)
        ensures
            name@ == self@.1,
    {
        &self.name
    }

    /// A future that resolves with the signal's arguments the first time the
    /// signal is emitted after the future's callable has been connected.
    pub fn to_future<R, W>(&self) -> (f: SignalFuture<R, W>)
        ensures
            f@ == (None::<R>, None::<W>),
            f.source() == self@,
    {
        SignalFuture::new(self.clone())
    }

    /// A future that always resolves: to the signal's arguments when the signal
    /// is emitted, or to `None` when the connection is dropped first.
    pub fn to_guaranteed_future<R, W>(&self) -> (f: GuaranteedSignalFuture<R, W>)
        ensures
            f@ == (crate::guaranteed::GuaranteedSignalFutureState::<R>::Pending, None::<W>),
            f.source() == self@,
    {
        GuaranteedSignalFuture::new(self.clone())
    }
}

/// Conversion of a signal's arguments into the value a future resolves to.
/// Users implement it for the types they await; a type that converts from a
/// single argument gets it through `FromSignalArg`.
pub trait FromSignalArgs<V>: Sized {
    fn from_args(args: &[V]) -> Self;
}

/// Conversion of one signal argument into a value.
pub trait FromSignalArg<V>: Sized {
    fn from_arg(arg: &V) -> Self;
}

/// The argument a single-value future converts: the first one, or `default`
/// when the signal was emitted without arguments.
pub fn first_arg_or<'a, V>(args: &[&'a V], default: &'a V) -> (arg: &'a V)
    ensures
        args@.len() > 0 ==> arg == args@[0],
        args@.len() == 0 ==> arg == default,
{
    if args.len() > 0 {
        args[0]
    } else {
        default
    }
}

/// A value that converts from one argument converts from the first argument
/// of a signal, or from the default argument when there is none.
impl<'a, V: Default, R: FromSignalArg<V>> FromSignalArgs<&'a V> for R {
    fn from_args(args: &[&'a V]) -> (r: R)
        ensures
            args@.len() > 0 ==> call_ensures(R::from_arg, (args@[0],), r),
            args@.len() == 0 ==> exists|d: V| call_ensures(V::default, (), d) && call_ensures(R::from_arg, (&d,), r),
    {
        let nil = V::default();
        R::from_arg(first_arg_or(args, &nil))
    }
}

/// A pair converted from a signal's arguments: both halves are converted from
/// the first argument. A signal emitted without arguments has nothing to convert.
pub fn pair_from_args<'a, V, R1: FromSignalArg<V>, R2: FromSignalArg<V>>(args: &[&'a V]) -> (r: (R1, R2))
    requires
        args@.len() > 0,
    ensures
        call_ensures(R1::from_arg, (args@[0],), r.0),
        call_ensures(R2::from_arg, (args@[0],), r.1),
{
    (R1::from_arg(args[0]), R2::from_arg(args[0]))
}

/// Something a signal future can be made from.
pub trait ToSignalFuture<R, W> {
    fn to_future(&self) -> (f: SignalFuture<R, W>)
        ensures
            f@ == (None::<R>, None::<W>),
    ;
}

impl<R, W> ToSignalFuture<R, W> for Signal {
    fn to_future(&self) -> (f: SignalFuture<R, W>)
        ensures
            SignalFuture::<R, W>::source(&f) == self.view(),
    {
        SignalFuture::new(self.clone())
    }
}

} // verus!
