//! Interfaces between the drivers and their collaborators: the measurement
//! heuristics understood by the energy-accounting engine, the hardware
//! actions a caller performs on the engine's behalf, and the capability
//! traits that concrete capsules implement.

use vstd::prelude::*;

use crate::ClientId;
use crate::ReturnCode;

verus! {

/// A strategy describing when, and how often, to take an energy measurement.
#[derive(Clone, Copy, PartialEq, Eq, Structural, Debug)]
pub enum Heuristic {
    /// Take a measurement now.
    Instant(ClientId),
    /// Take a measurement after the given delay, in milliseconds.
    After(ClientId, u32),
    /// Take a measurement repeatedly, with the given period in milliseconds.
    Recurrent(ClientId, u32),
}

/// A recurrent heuristic must carry a positive period: the period is the
/// divisor of the power estimate, and the alarm it arms must make progress.
pub open spec fn heuristic_valid(how: Heuristic) -> bool {
    how matches Heuristic::Recurrent(_, period) ==> period >= 1
}

/// Hardware follow-up the accounting engine asks its caller to perform.
/// Every engine call returns immediately; the caller drives the sensor and
/// the alarm and reports completions back through the callback methods.
#[derive(Clone, Copy, PartialEq, Eq, Structural, Debug)]
pub enum AcctAction {
    /// No hardware work is needed.
    Nothing,
    /// Start one sample on the current sensor.
    Sample,
    /// Arm the one-shot alarm for the given number of milliseconds.
    Arm(u32),
}

/// Capability of an energy-accounting engine.
pub trait EnergyAccounting {
    /// Well-formedness that the engine establishes at construction and
    /// preserves across every call.
    spec fn acct_inv(&self) -> bool;

    /// Initiate a measurement governed by `how`. Returns the result code
    /// and the hardware action the caller must perform.
    fn measure(&mut self, how: Heuristic) -> (r: (ReturnCode, AcctAction))
        requires
            old(self).acct_inv(),
            heuristic_valid(how),
        ensures
            final (self).acct_inv(),
    ;

    /// Stop a recurrent measurement owned by `app_id`. Returns the result
    /// code and whether the caller must disarm the alarm.
    fn stop(&mut self, app_id: ClientId) -> (r: (ReturnCode, bool))
        requires
            old(self).acct_inv(),
        ensures
            final (self).acct_inv(),
    ;
}

/// Capability of a trace sink: emits one signal per event, never blocks.
pub trait Trace {
    /// Well-formedness that the sink establishes at construction and
    /// preserves across every call.
    spec fn trace_inv(&self) -> bool;

    /// Emit one trace event carrying the first `len` bytes of `data`.
    fn signal(&mut self, data: &[u8], len: usize)
        requires
            old(self).trace_inv(),
            len <= data@.len(),
        ensures
            final (self).trace_inv(),
    ;
}

/// Capability of a trace sink addressed by trace-point identifier.
pub trait GPIOTrace {
    /// Well-formedness that the sink establishes at construction and
    /// preserves across every call.
    spec fn gpio_trace_inv(&self) -> bool;

    /// Emit the trace signal `id`, with optional extra data.
    fn signal(&mut self, id: u8, other_data: Option<u8>)
        requires
            old(self).gpio_trace_inv(),
        ensures
            final (self).gpio_trace_inv(),
    ;
}

} // verus!
