//! The delayed-action scheduler: a single slot holding at most one pending
//! command at a time.
//!
//! The scheduler itself is a pure state machine.  Its methods return the
//! command to dispatch, if any; the caller performs the dispatch and owns
//! the real timer.  Arming a new delay supersedes the old pending action,
//! which is discarded without ever firing.

use vstd::prelude::*;

verus! {

/// The command vocabulary of the scheduler worker: requests arrive over an
/// ordered channel and are processed strictly in arrival order.
#[derive(Clone, Copy, Debug, PartialEq, Eq, Structural)]
pub enum ExecSignal {
    /// Arm the slot with a new delayed command, superseding any old one.
    ScheduleDelay,
    /// Fire the pending command now, ahead of its delay.
    ExecDelayed,
    /// Dispatch a command immediately, leaving the slot untouched.
    ExecImmediate,
    /// Empty the slot without dispatching, reporting whether it was full.
    CancelDelay,
    /// Reconcile the slot after a timer expired on its own.
    ClearDelayed,
}

/// A scheduled-but-not-yet-fired command: the rendered template and the
/// delay, in milliseconds, it was armed with.
#[derive(Clone, Debug)]
pub struct PendingAction {
    pub template: String,
    pub delay: u32,
}

/// The scheduler's one slot as a mathematical value: the delay and the
/// rendered template of the pending action, if one exists.
pub open spec fn slot_view(p: Option<PendingAction>) -> Option<(u32, Seq<char>)> {
    match p {
        Some(pa) => Some((pa.delay, pa.template@)),
        None => None,
    }
}

/// What `schedule_command` does to a slot: a zero delay dispatches the
/// template at once (if nonempty) and leaves the slot alone; a nonzero
/// delay replaces the slot's content, dispatching nothing.
pub open spec fn spec_schedule(
    slot: Option<(u32, Seq<char>)>,
    delay: u32,
    template: Seq<char>,
) -> (Option<(u32, Seq<char>)>, Option<Seq<char>>) {
    if delay == 0 {
        (slot, if template.len() == 0 { None } else { Some(template) })
    } else {
        (Some((delay, template)), None)
    }
}

/// What `exec_delayed_command` does to a slot: empty it, dispatching its
/// template (if the slot was full and the template nonempty).
pub open spec fn spec_exec_delayed(
    slot: Option<(u32, Seq<char>)>,
) -> (Option<(u32, Seq<char>)>, Option<Seq<char>>) {
    match slot {
        Some((d, t)) => (None, if t.len() == 0 { None } else { Some(t) }),
        None => (None, None),
    }
}

/// The view of a dispatch result.
pub open spec fn dispatch_view(r: Option<String>) -> Option<Seq<char>> {
    match r {
        Some(s) => Some(s@),
        None => None,
    }
}

/// The delayed-action scheduler. At most one pending action exists at any
/// instant; arming a new one supersedes the old.
#[derive(Debug)]
pub struct Scheduler {
    pub pending: Option<PendingAction>,
}

impl Scheduler {
    /// A scheduler with an empty slot.
    pub fn new() -> (s: Scheduler)
        ensures
            slot_view(s.pending) is None,
    {
        Scheduler { pending: None }
    }

    /// Schedules `template` after `delay` milliseconds. A zero delay means
    /// immediate dispatch: the returned command is to be fired now and the
    /// slot is untouched. A nonzero delay fills the slot, superseding and
    /// silently discarding any action already pending.
    pub fn schedule_command(&mut self, delay: u32, template: String) -> (r: Option<String>)
        ensures
            (slot_view(final(self).pending), dispatch_view(r)) == spec_schedule(
                slot_view(old(self).pending),
                delay,
                template@,
            ),
    {
        if delay == 0 {
            if template.as_str().unicode_len() == 0 {
                None
            } else {
                Some(template)
            }
        } else {
            self.pending = Some(PendingAction { template, delay });
            None
        }
    }

    /// Fires the pending action ahead of its delay: empties the slot and
    /// returns the command to dispatch now. With an empty slot nothing is
    /// dispatched.
    pub fn exec_delayed_command(&mut self) -> (r: Option<String>)
        ensures
            (slot_view(final(self).pending), dispatch_view(r)) == spec_exec_delayed(
                slot_view(old(self).pending),
            ),
    {
        let prior = self.pending.take();
        match prior {
            Some(pa) => {
                if pa.template.as_str().unicode_len() == 0 {
                    None
                } else {
                    Some(pa.template)
                }
            },
            None => None,
        }
    }

    /// Empties the slot without dispatching anything, and reports whether
    /// an action was pending.
    pub fn cancel_delay(&mut self) -> (r: bool)
        ensures
            final(self).pending is None,
            r == (old(self).pending is Some),
    {
        let r = self.pending.is_some();
        self.pending = None;
        r
    }

    /// Reconciles the slot after its timer expired on its own: the dispatch
    /// already happened, so the slot is simply emptied.
    pub fn clear_delayed_command(&mut self)
        ensures
            final(self).pending is None,
    {
        self.pending = None;
    }
}

/// Law: scheduling a new delayed action while one is pending discards the
/// old one without firing it. Two schedules with nonzero delays dispatch
/// nothing themselves and leave exactly the second action in the slot, so
/// at most one dispatch (of the second template) can ever follow.
pub proof fn lemma_schedule_supersedes(
    slot: Option<(u32, Seq<char>)>,
    d1: u32,
    t1: Seq<char>,
    d2: u32,
    t2: Seq<char>,
)
    requires
        d1 != 0,
        d2 != 0,
    ensures
        ({
            let (slot1, r1) = spec_schedule(slot, d1, t1);
            let (slot2, r2) = spec_schedule(slot1, d2, t2);
            r1 is None && r2 is None && slot2 == Some((d2, t2))
        }),
{
}

/// Law: an `exec_delayed_command` on an empty slot dispatches nothing and
/// leaves the slot empty.
pub proof fn lemma_exec_delayed_empty_slot()
    ensures
        spec_exec_delayed(None) == (None::<(u32, Seq<char>)>, None::<Seq<char>>),
{
}

} // verus!
