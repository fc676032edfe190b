//! Per-servo liveness: an unresponsive-flag table refreshed at a coarse
//! cadence by probing the transport. A probe failure is routine, never a
//! hard error: any failure just marks the servo unresponsive.

use vstd::prelude::*;
use crate::transport::{Transport, TransportError};

verus! {

/// Dense per-servo unresponsive flags, indexed by 0-based servo index
/// (servo ids on the bus are 1-based).
pub struct LivenessTable {
    pub unresponsive: Vec<bool>,
}

impl LivenessTable {
    /// Fresh table: every servo counts as responsive until a probe says
    /// otherwise.
    pub fn new(count: usize) -> (t: LivenessTable)
        ensures
            t.unresponsive@.len() == count,
            forall|i: int| 0 <= i < count ==> !t.unresponsive@[i],
    {
        let mut flags: Vec<bool> = Vec::new();
        for k in 0..count
            invariant
                flags@.len() == k,
                forall|i: int| 0 <= i < k ==> !flags@[i],
        {
            flags.push(false);
        }
        LivenessTable { unresponsive: flags }
    }

    /// Note one probe's verdict; no other entry moves.
    pub fn record(&mut self, index: usize, responsive: bool)
        requires
            index < old(self).unresponsive@.len(),
        ensures
            final(self).unresponsive@ == old(self).unresponsive@.update(
                index as int,
                !responsive,
            ),
    {
        self.unresponsive.set(index, !responsive);
    }

    /// Is the servo at this index currently flagged unresponsive?
    pub fn is_unresponsive(&self, index: usize) -> (r: bool)
        requires
            index < self.unresponsive@.len(),
        ensures
            r == self.unresponsive@[index as int],
    {
        self.unresponsive[index]
    }

    /// Number of servos tracked.
    pub fn len(&self) -> (n: usize)
        ensures
            n == self.unresponsive@.len(),
    {
        self.unresponsive.len()
    }
}

/// A probe outcome counts as responsive only when the transport answered
/// and said so; an error is swallowed into "unresponsive".
pub fn interpret_probe(outcome: Result<bool, TransportError>) -> (r: bool)
    ensures
        r == (outcome matches Ok(true)),
{
    match outcome {
        Ok(alive) => alive,
        Err(_) => false,
    }
}

/// Probe one servo: scan it and swallow any transport error into
/// "not responsive".
pub fn probe<T: Transport>(t: &mut T, servo_id: u8) -> bool {
    let outcome = t.scan(servo_id);
    interpret_probe(outcome)
}

/// Re-probe every tracked servo and refresh its flag; entry updates are
/// independent. Servo ids on the bus are the 0-based indices plus one.
pub fn refresh_all<T: Transport>(t: &mut T, table: &mut LivenessTable)
    requires
        old(table).unresponsive@.len() <= 255,
    ensures
        final(table).unresponsive@.len() == old(table).unresponsive@.len(),
{
    let n: usize = table.len();
    for k in 0..n
        invariant
            n <= 255,
            table.unresponsive@.len() == n,
    {
        let responsive: bool = probe(t, (k + 1) as u8);
        table.record(k, responsive);
    }
}

/// How a roster row is shown: an unresponsive servo is flagged first,
/// then the selected row, then everything else.
#[derive(Clone, Copy, Debug, PartialEq, Eq, Structural)]
pub enum RowHighlight {
    Alert,
    Selected,
    Normal,
}

/// Highlight for the row at `index` when `selected` is the chosen row.
pub fn row_highlight(unresponsive: bool, is_selected: bool) -> (h: RowHighlight)
    ensures
        h == (if unresponsive {
            RowHighlight::Alert
        } else if is_selected {
            RowHighlight::Selected
        } else {
            RowHighlight::Normal
        }),
{
    if unresponsive {
        RowHighlight::Alert
    } else if is_selected {
        RowHighlight::Selected
    } else {
        RowHighlight::Normal
    }
}

} // verus!
