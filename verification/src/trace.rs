//! The trace: an optional bounded record of the instructions executed,
//! kept for diagnostics only.

use crate::history::{ring_push, History};
use crate::registers::{CPUState, Registers};
use vstd::prelude::*;

verus! {

/// The trace after a step: an enabled trace receives the entry that the
/// step made, if it made one; a disabled trace stays disabled.
pub open spec fn spec_traced(
    trace: Option<Seq<CPUState>>,
    limit: nat,
    entry: Option<CPUState>,
) -> Option<Seq<CPUState>> {
    match (trace, entry) {
        (Some(entries), Some(state)) => Some(ring_push(entries, limit, state)),
        _ => trace,
    }
}

/// The snapshot of the last instruction and, if tracing is enabled, the
/// snapshots of the most recent instructions.
#[derive(Debug)]
pub struct Tracer {
    entries: Option<History<CPUState>>,
    last: CPUState,
}

impl Tracer {
    /// The trace, oldest entry first; `None` while tracing is disabled.
    pub closed spec fn spec_entries(&self) -> Option<Seq<CPUState>> {
        match self.entries {
            Some(history) => Some(history@),
            None => None,
        }
    }

    /// The number of entries that the trace keeps; zero while tracing is
    /// disabled.
    pub closed spec fn spec_limit(&self) -> nat {
        match self.entries {
            Some(history) => history.limit(),
            None => 0,
        }
    }

    /// The snapshot of the instruction executed last.
    pub closed spec fn spec_last(&self) -> CPUState {
        self.last
    }

    /// A tracer with tracing disabled, whose last snapshot shows the
    /// registers at power-on.
    pub fn new() -> (tracer: Self)
        ensures
            tracer.spec_entries().is_none(),
            tracer.spec_limit() == 0,
            tracer.spec_last() == CPUState::spec_new(Registers::spec_power_on(), 0),
    {
        let regs = Registers::power_on();
        Tracer { entries: None, last: CPUState::new(&regs, 0) }
    }

    /// Starts an empty trace that keeps the last `limit` snapshots.
    pub fn enable(&mut self, limit: usize)
        ensures
            final(self).spec_entries() == Some(Seq::<CPUState>::empty()),
            final(self).spec_limit() == limit,
            final(self).spec_last() == old(self).spec_last(),
    {
        self.entries = Some(History::new(limit));
    }

    /// Records the snapshot of an instruction: it becomes the last
    /// snapshot, and the newest trace entry if tracing is enabled.
    pub fn add_trace(&mut self, state: CPUState)
        ensures
            final(self).spec_entries() == spec_traced(
                old(self).spec_entries(),
                old(self).spec_limit(),
                Some(state),
            ),
            final(self).spec_limit() == old(self).spec_limit(),
            final(self).spec_last() == state,
    {
        self.last = state;
        match &mut self.entries {
            Some(history) => {
                history.push(state);
            },
            None => {},
        }
    }

    /// The snapshot of the instruction executed last.
    pub fn last_state(&self) -> (state: CPUState)
        ensures
            state == self.spec_last(),
    {
        self.last
    }

    /// A copy of the trace, oldest entry first; empty while tracing is
    /// disabled. It never holds more entries than the trace keeps.
    pub fn entries(&self) -> (entries: Vec<CPUState>)
        ensures
            entries@ == (match self.spec_entries() {
                Some(trace) => trace,
                None => Seq::<CPUState>::empty(),
            }),
            entries@.len() <= self.spec_limit(),
    {
        match &self.entries {
            Some(history) => {
                let _ = history.len();
                history.to_vec()
            },
            None => Vec::new(),
        }
    }
}

} // verus!
