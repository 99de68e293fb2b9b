//! Core of an asynchronous peripheral-driver layer: a register-level radio
//! controller and an energy-accounting engine, both built around exclusive
//! single-slot buffer exchange, a tagged in-flight-operation record, and
//! timer-deferred follow-up work.
//!
//! Every hardware interaction is non-blocking: a driver method either starts
//! an operation and hands the required hardware action back to its caller as
//! plain data, or rejects the request with a busy signal. Completion arrives
//! later through an explicit callback method.

use vstd::prelude::*;

pub mod eacct;
pub mod exchange;
pub mod hil;
pub mod lock;
pub mod radio;
pub mod trace;

verus! {

/// Identifier of the calling application. Owned by the platform and merely
/// observed here; only compared for equality.
#[derive(Clone, Copy, PartialEq, Eq, Structural, Debug)]
pub struct ClientId(pub u32);

/// Result of a driver operation, delivered synchronously to the caller.
#[derive(Clone, Copy, PartialEq, Eq, Structural, Debug)]
pub enum ReturnCode {
    /// The operation started or completed as requested.
    Success,
    /// Success, carrying a numeric result.
    SuccessWithValue(u64),
    /// Generic failure, e.g. stopping a measurement that is not running.
    Fail,
    /// A resource or lock is already held; retry later.
    Busy,
    /// An argument was rejected synchronously, with no side effect.
    InvalidArgument,
    /// A callback arrived in a state that does not expect it.
    InvalidState,
    /// Unknown command number.
    NotSupported,
}

} // verus!
