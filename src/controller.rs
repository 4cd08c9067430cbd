use vstd::prelude::*;

verus! {

/// Seconds between two status snapshots.
pub const STAT_UPDATE_INTERVAL_SECS: i64 = 1;

/// Milliseconds the controller loop sleeps between two polls; bounds the
/// latency of a shutdown.
pub const POLL_DELAY_MILLIS: u64 = 50;

/// A command to the background node thread.
#[derive(Debug, Clone, Copy, PartialEq, Eq, Structural)]
pub enum ControllerMessage {
    Shutdown,
}

/// What the background thread does in one cycle of its loop.
#[derive(Debug, Clone, Copy, PartialEq, Eq, Structural)]
pub enum ControllerAction {
    /// Stop the node service and end the thread.
    StopNode,
    /// Fetch a status snapshot and try to send it to the UI without blocking.
    PushStatus,
    /// Nothing to do in this cycle.
    Wait,
}

/// Decisions of the loop that runs a node on its background thread.
#[derive(Debug, Clone, Copy, PartialEq, Eq, Structural)]
pub struct Controller {
    /// Earliest time, in seconds, at which the next snapshot is due.
    pub next_stat_update: i64,
    /// Seconds between two snapshots; positive.
    pub stat_update_interval: i64,
    /// Snapshots that could not be handed to the UI (sink full or closed).
    pub undelivered: u64,
}

/// `now + interval`, held at the largest time that fits.
pub open spec fn due_after(now: i64, interval: i64) -> i64 {
    if now + interval > i64::MAX {
        i64::MAX
    } else {
        (now + interval) as i64
    }
}

impl Controller {
    pub open spec fn wf(&self) -> bool {
        self.stat_update_interval > 0
    }

    /// One cycle: a shutdown message ends the loop; otherwise a snapshot is
    /// pushed once the interval has elapsed, and the next one is due an
    /// interval later.
    pub open spec fn step_spec(self, now: i64, message: Option<ControllerMessage>) -> (
        Controller,
        ControllerAction,
    ) {
        if message is Some {
            (self, ControllerAction::StopNode)
        } else if now >= self.next_stat_update {
            (
                Controller {
                    next_stat_update: due_after(now, self.stat_update_interval),
                    ..self
                },
                ControllerAction::PushStatus,
            )
        } else {
            (self, ControllerAction::Wait)
        }
    }

    /// The loop after a push attempt: a failed one is counted, nothing else changes.
    pub open spec fn pushed_spec(self, delivered: bool) -> Controller {
        if delivered || self.undelivered == u64::MAX {
            self
        } else {
            Controller { undelivered: (self.undelivered + 1) as u64, ..self }
        }
    }

    /// A loop started at `now`; the first snapshot is due one interval later.
    pub fn new(now: i64, stat_update_interval: i64) -> (r: Controller)
        requires
            stat_update_interval > 0,
        ensures
            r.wf(),
            r.stat_update_interval == stat_update_interval,
            r.next_stat_update == due_after(now, stat_update_interval),
            r.undelivered == 0,
    {
        Controller {
            next_stat_update: Self::due(now, stat_update_interval),
            stat_update_interval,
            undelivered: 0,
        }
    }

    fn due(now: i64, interval: i64) -> (r: i64)
        requires
            interval > 0,
        ensures
            r == due_after(now, interval),
    {
        if now > i64::MAX - interval {
            i64::MAX
        } else {
            now + interval
        }
    }

    /// Decides one cycle, given the time in seconds and the control message
    /// received without blocking, if any.
    pub fn step(&mut self, now: i64, message: Option<ControllerMessage>) -> (r: ControllerAction)
        requires
            old(self).wf(),
        ensures
            (*final(self), r) == old(self).step_spec(now, message),
            final(self).wf(),
    {
        if message.is_some() {
            return ControllerAction::StopNode;
        }
        if now >= self.next_stat_update {
            self.next_stat_update = Self::due(now, self.stat_update_interval);
            ControllerAction::PushStatus
        } else {
            ControllerAction::Wait
        }
    }

    /// Records the outcome of a push attempt. A failed push is counted and
    /// otherwise ignored: the loop goes on.
    pub fn record_push(&mut self, delivered: bool)
        ensures
            *final(self) == old(self).pushed_spec(delivered),
    {
        if !delivered && self.undelivered < u64::MAX {
            self.undelivered = self.undelivered + 1;
        }
    }
}

/// A snapshot that the UI does not take (its sink is full or closed) neither
/// stops nor stalls the loop: without a shutdown message the next cycle does
/// not stop the node, and the following snapshot falls due on schedule.
pub proof fn lemma_undelivered_push_continues(
    c: Controller,
    now: i64,
    later: i64,
)
    requires
        c.wf(),
        c.step_spec(now, None).1 == ControllerAction::PushStatus,
    ensures
        ({
            let after = c.step_spec(now, None).0.pushed_spec(false);
            &&& after.wf()
            &&& after.next_stat_update == c.step_spec(now, None).0.next_stat_update
            &&& after.step_spec(later, None).1 != ControllerAction::StopNode
            &&& later >= after.next_stat_update ==> after.step_spec(later, None).1
                == ControllerAction::PushStatus
        }),
{
}

/// A shutdown message ends the loop in the cycle that receives it, whatever
/// its state.
pub proof fn lemma_shutdown_stops(c: Controller, now: i64)
    ensures
        c.step_spec(now, Some(ControllerMessage::Shutdown)).1 == ControllerAction::StopNode,
{
}

} // verus!
