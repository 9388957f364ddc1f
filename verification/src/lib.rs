//! Signal futures and the task runtime that drives them, as verified state
//! machines. The engine side (signals, callables, wakers, locks) is supplied by
//! the embedding code; this crate decides every transition.

pub mod guaranteed;
pub mod runtime;
pub mod signal;
pub mod signal_future;
