//! The shared polling context: the latest decoded telemetry snapshot and
//! the poll-cycle counter that paces the low-cadence liveness probe.

use vstd::prelude::*;
use crate::telemetry::{decode_snapshot, record_decodes, TelemetrySnapshot};
use crate::transport::{Transport, TransportError};

verus! {

/// Every 50th poll cycle re-probes liveness, to bound transport load.
pub const PROBE_CADENCE: u32 = 50;

/// The counter wraps back to zero once it reaches this bound.
pub const CYCLE_WRAP: u32 = 1000;

/// Poll-cycle counter value after one more cycle: it counts up and wraps
/// to zero at the bound.
pub open spec fn next_cycle(c: u32) -> u32 {
    if c + 1 >= CYCLE_WRAP {
        0
    } else {
        (c + 1) as u32
    }
}

/// Shared state the periodic poller fills and the command path reads.
pub struct PollContext {
    pub latest: Option<TelemetrySnapshot>,
    pub cycle: u32,
}

/// The cycle counter stays below its wrap bound, and every position in
/// the kept snapshot is a 12-bit encoder value.
pub open spec fn poll_context_wf(ctx: PollContext) -> bool {
    &&& ctx.cycle < CYCLE_WRAP
    &&& (ctx.latest matches Some(snap) ==> forall|i: int|
        0 <= i < snap.servos@.len() ==> snap.servos@[i].position < 4096)
}

impl PollContext {
    /// Fresh context: no snapshot yet, cycle counter at zero.
    pub fn new() -> (ctx: PollContext)
        ensures
            ctx.latest is None,
            ctx.cycle == 0,
            poll_context_wf(ctx),
    {
        PollContext { latest: None, cycle: 0 }
    }

    /// One poll cycle: advance the counter, read a continuous telemetry
    /// block and keep its decoded snapshot. On a transport failure the
    /// previous snapshot stays.
    pub fn poll<T: Transport>(&mut self, t: &mut T) -> (r: Result<(), TransportError>)
        requires
            poll_context_wf(*old(self)),
        ensures
            final(self).cycle == next_cycle(old(self).cycle),
            r is Ok ==> final(self).latest is Some,
            r is Err ==> final(self).latest == old(self).latest,
            poll_context_wf(*final(self)),
    {
        if self.cycle + 1 >= CYCLE_WRAP {
            self.cycle = 0;
        } else {
            self.cycle = self.cycle + 1;
        }
        match t.read_continuous() {
            Ok(raw) => {
                let snap = decode_snapshot(&raw);
                proof {
                    assert forall|i: int| 0 <= i < snap.servos@.len() implies snap.servos@[i].position
                        < 4096 by {
                        assert(record_decodes(raw.servos@[i], snap.servos@[i]));
                    }
                }
                self.latest = Some(snap);
                Ok(())
            },
            Err(e) => Err(e),
        }
    }

    /// Is this the cycle on which liveness is re-probed?
    pub fn due_for_probe(&self) -> (r: bool)
        ensures
            r == (self.cycle % PROBE_CADENCE == 0),
    {
        self.cycle % PROBE_CADENCE == 0
    }

    /// Same question for a host-configured cadence.
    pub fn due_for_probe_every(&self, cadence: u32) -> (r: bool)
        requires
            cadence > 0,
        ensures
            r == (self.cycle % cadence == 0),
    {
        self.cycle % cadence == 0
    }

    /// Latest raw position of the servo at `index`, if a snapshot holding
    /// it exists.
    pub fn latest_position(&self, index: usize) -> (r: Option<u16>)
        requires
            poll_context_wf(*self),
        ensures
            r matches Some(p) ==> p < 4096,
            r is Some <==> (self.latest matches Some(snap) && index < snap.servos@.len()),
    {
        match &self.latest {
            Some(snap) => {
                if index < snap.servos.len() {
                    Some(snap.servos[index].position)
                } else {
                    None
                }
            },
            None => None,
        }
    }

    /// Positions of all servos in the latest snapshot, in chain order.
    pub fn latest_positions(&self) -> (r: Option<Vec<u16>>)
        ensures
            r matches Some(p) ==> (self.latest matches Some(snap) && p@.len()
                == snap.servos@.len() && forall|i: int|
                0 <= i < p@.len() ==> p@[i] == snap.servos@[i].position),
            r is Some <==> self.latest is Some,
    {
        match &self.latest {
            Some(snap) => {
                let mut out: Vec<u16> = Vec::new();
                let n: usize = snap.servos.len();
                for k in 0..n
                    invariant
                        n == snap.servos@.len(),
                        out@.len() == k,
                        forall|i: int| 0 <= i < k ==> out@[i] == snap.servos@[i].position,
                {
                    out.push(snap.servos[k].position);
                }
                Some(out)
            },
            None => None,
        }
    }
}

} // verus!
