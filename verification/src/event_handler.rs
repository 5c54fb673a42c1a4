//! The gesture tracker: a state machine that consumes decoded input events,
//! classifies directions, matches the configured bindings and produces the
//! dispatch and timer effects to perform.
//!
//! The tracker owns the currently active gesture descriptor, the delayed
//! action scheduler slot and the continuation flag.  Every transition is
//! specified by [`spec_step`]: callers perform the returned [`Effects`]
//! (spawning the commands in order and arming or disarming the one real
//! timer) and report a natural timer expiry back through
//! [`EventHandler::timer_expired`].

use crate::exec_handler::dispatch_view;
use crate::exec_handler::slot_view;
use crate::exec_handler::spec_exec_delayed;
use crate::exec_handler::spec_schedule;
use crate::exec_handler::Scheduler;
use crate::gestures::spec_pinch_dir;
use crate::gestures::spec_swipe_dir;
use crate::gestures::ActiveGesture;
use crate::gestures::Binding;
use crate::gestures::BindingStore;
use crate::gestures::InputEvent;
use crate::gestures::PinchDir;
use crate::gestures::SwipeDir;
use crate::utils::render_command;
use crate::utils::spec_render;
use crate::utils::spec_render0;
use crate::utils::ExecArgs;
use vstd::prelude::*;

verus! {

/// A phase of a gesture's lifecycle.
#[derive(Clone, Copy, Debug, PartialEq, Eq, Structural)]
pub enum Phase {
    Start,
    Update,
    End,
}

/// What the caller must do to the one real timer after a transition.
#[derive(Clone, Copy, Debug, PartialEq, Eq, Structural)]
pub enum TimerOp {
    /// Leave the timer as it is.
    Keep,
    /// Cancel the armed timer, if any, without dispatching.
    Disarm,
    /// Arm the timer for this many milliseconds, superseding any old one.
    Arm { delay: u32 },
}

/// The outward effects of one transition: the rendered commands to dispatch
/// now, fire-and-forget and in order, and the change to the real timer.
pub struct Effects {
    pub commands: Vec<String>,
    pub timer: TimerOp,
}

/// The views of a list of rendered commands.
pub open spec fn cmd_views(v: Seq<String>) -> Seq<Seq<char>> {
    v.map_values(|s: String| s@)
}

/// The template configured for the given phase, the empty string standing
/// for an absent one.
pub open spec fn opt_template(o: Option<String>) -> Seq<char> {
    match o {
        Some(s) => s@,
        None => Seq::empty(),
    }
}

/// Whether a hold binding matches a hold gesture with this finger count.
pub open spec fn hold_matches(b: Binding, fingers: u32) -> bool {
    match b {
        Binding::Hold { fingers: f, .. } => f == fingers,
        _ => false,
    }
}

/// Whether a pinch binding matches this finger count and direction; a
/// binding direction of `Any` matches every query.
pub open spec fn pinch_matches(b: Binding, fingers: u32, dir: PinchDir) -> bool {
    match b {
        Binding::Pinch { fingers: f, direction: d, .. } => f == fingers && (d == dir
            || d == PinchDir::Any),
        _ => false,
    }
}

/// Whether a swipe binding matches this finger count and direction; a
/// binding direction of `Any` matches every query.
pub open spec fn swipe_matches(b: Binding, fingers: u32, dir: SwipeDir) -> bool {
    match b {
        Binding::Swipe { fingers: f, direction: d, .. } => f == fingers && (d == dir
            || d == SwipeDir::Any),
        _ => false,
    }
}

/// The template a pinch binding holds for a phase.
pub open spec fn pinch_template(b: Binding, ph: Phase) -> Seq<char> {
    match b {
        Binding::Pinch { start, update, end, .. } => match ph {
            Phase::Start => opt_template(start),
            Phase::Update => opt_template(update),
            Phase::End => opt_template(end),
        },
        _ => Seq::empty(),
    }
}

/// The template a swipe binding holds for a phase.
pub open spec fn swipe_template(b: Binding, ph: Phase) -> Seq<char> {
    match b {
        Binding::Swipe { start, update, end, .. } => match ph {
            Phase::Start => opt_template(start),
            Phase::Update => opt_template(update),
            Phase::End => opt_template(end),
        },
        _ => Seq::empty(),
    }
}

/// The template a hold binding holds for its one action slot.
pub open spec fn hold_template(b: Binding) -> Seq<char> {
    match b {
        Binding::Hold { action, .. } => opt_template(action),
        _ => Seq::empty(),
    }
}

/// The continuation delay a swipe binding asks for, defaulting to zero.
pub open spec fn swipe_delay(b: Binding) -> u32 {
    match b {
        Binding::Swipe { allow_continue_delay, .. } => match allow_continue_delay {
            Some(d) => d,
            None => 0,
        },
        _ => 0,
    }
}

/// Whether a swipe binding also fires on a cancelled end, defaulting to no.
pub open spec fn swipe_include_cancelled(b: Binding) -> bool {
    match b {
        Binding::Swipe { include_cancelled, .. } => match include_cancelled {
            Some(c) => c,
            None => false,
        },
        _ => false,
    }
}

/// The command a matched binding contributes: the rendered template, or
/// nothing when the binding does not match or its template is absent.
pub open spec fn maybe_cmd(m: bool, tmpl: Seq<char>, dx: int, dy: int, da: int, scale: int) -> Seq<
    Seq<char>,
> {
    if m && tmpl.len() > 0 {
        seq![spec_render(tmpl, dx, dy, da, scale)]
    } else {
        Seq::empty()
    }
}

/// The commands a hold end dispatches: one per matching binding with a
/// configured action, in configuration order, rendered with no motion
/// context.
pub open spec fn hold_end_cmds(bs: Seq<Binding>, fingers: u32) -> Seq<Seq<char>>
    decreases bs.len(),
{
    if bs.len() == 0 {
        Seq::empty()
    } else {
        hold_end_cmds(bs.drop_last(), fingers) + maybe_cmd(
            hold_matches(bs.last(), fingers),
            hold_template(bs.last()),
            0,
            0,
            0,
            0,
        )
    }
}

/// The commands a pinch phase dispatches: one per matching binding with a
/// template for that phase, in configuration order, rendered against the
/// sample's angle delta and scale.
pub open spec fn pinch_cmds(
    bs: Seq<Binding>,
    fingers: u32,
    dir: PinchDir,
    ph: Phase,
    da: int,
    scale: int,
) -> Seq<Seq<char>>
    decreases bs.len(),
{
    if bs.len() == 0 {
        Seq::empty()
    } else {
        pinch_cmds(bs.drop_last(), fingers, dir, ph, da, scale) + maybe_cmd(
            pinch_matches(bs.last(), fingers, dir),
            pinch_template(bs.last(), ph),
            0,
            0,
            da,
            scale,
        )
    }
}

/// The commands a swipe start or update dispatches: one per matching
/// binding with a template for that phase, in configuration order,
/// rendered against the sample's deltas.
pub open spec fn swipe_cmds(
    bs: Seq<Binding>,
    fingers: u32,
    dir: SwipeDir,
    ph: Phase,
    dx: int,
    dy: int,
) -> Seq<Seq<char>>
    decreases bs.len(),
{
    if bs.len() == 0 {
        Seq::empty()
    } else {
        swipe_cmds(bs.drop_last(), fingers, dir, ph, dx, dy) + maybe_cmd(
            swipe_matches(bs.last(), fingers, dir),
            swipe_template(bs.last(), ph),
            dx,
            dy,
            0,
            0,
        )
    }
}

/// Whether a swipe end acts on this binding: it must match the gesture,
/// and a platform-cancelled end fires only bindings that opted in.
pub open spec fn swipe_end_applies(b: Binding, fingers: u32, dir: SwipeDir, cancelled: bool) -> bool {
    swipe_matches(b, fingers, dir) && (!cancelled || swipe_include_cancelled(b))
}

/// What a swipe end does to the scheduler slot: each applicable binding's
/// end template is rendered (no motion context) and handed to the
/// scheduler with the binding's continuation delay, in configuration
/// order. Zero delays dispatch at once; nonzero delays supersede the slot.
/// Returns the final slot and the immediately dispatched commands.
pub open spec fn swipe_end_fold(
    bs: Seq<Binding>,
    fingers: u32,
    dir: SwipeDir,
    cancelled: bool,
    slot0: Option<(u32, Seq<char>)>,
) -> (Option<(u32, Seq<char>)>, Seq<Seq<char>>)
    decreases bs.len(),
{
    if bs.len() == 0 {
        (slot0, Seq::empty())
    } else {
        let (slot1, cmds1) = swipe_end_fold(bs.drop_last(), fingers, dir, cancelled, slot0);
        let b = bs.last();
        if swipe_end_applies(b, fingers, dir, cancelled) {
            let (slot2, d) = spec_schedule(
                slot1,
                swipe_delay(b),
                spec_render0(swipe_template(b, Phase::End)),
            );
            (
                slot2,
                cmds1 + (match d {
                    Some(t) => seq![t],
                    None => Seq::empty(),
                }),
            )
        } else {
            (slot1, cmds1)
        }
    }
}

/// Whether a swipe end armed the timer: some applicable binding asked for
/// a nonzero continuation delay.
pub open spec fn swipe_end_armed(bs: Seq<Binding>, fingers: u32, dir: SwipeDir, cancelled: bool) -> bool
    decreases bs.len(),
{
    if bs.len() == 0 {
        false
    } else {
        swipe_end_armed(bs.drop_last(), fingers, dir, cancelled) || (swipe_end_applies(
            bs.last(),
            fingers,
            dir,
            cancelled,
        ) && swipe_delay(bs.last()) != 0)
    }
}

/// The complete outcome of one transition, as mathematical values.
pub ghost struct StepResult {
    /// The active gesture afterwards.
    pub event: ActiveGesture,
    /// The scheduler slot afterwards.
    pub slot: Option<(u32, Seq<char>)>,
    /// The continuation flag afterwards.
    pub delayed: bool,
    /// The views of the commands dispatched now, in order.
    pub commands: Seq<Seq<char>>,
    /// What happens to the one real timer.
    pub timer: TimerOp,
}

/// A transition that only dispatches: gesture, slot and flag stay as they
/// were.
pub open spec fn step_dispatch(
    active: ActiveGesture,
    slot: Option<(u32, Seq<char>)>,
    delayed: bool,
    commands: Seq<Seq<char>>,
) -> StepResult {
    StepResult { event: active, slot, delayed, commands, timer: TimerOp::Keep }
}

/// The tracker's transition function. `bs` is the binding table, the next
/// three arguments the tracker state, `ev` the decoded inbound event.
pub open spec fn spec_step(
    bs: Seq<Binding>,
    active: ActiveGesture,
    slot: Option<(u32, Seq<char>)>,
    delayed: bool,
    ev: InputEvent,
) -> StepResult {
    match ev {
        InputEvent::HoldBegin { fingers } => StepResult {
            event: ActiveGesture::Hold { fingers },
            slot,
            delayed,
            commands: Seq::empty(),
            timer: TimerOp::Keep,
        },
        InputEvent::HoldEnd { .. } => match active {
            ActiveGesture::Hold { fingers } => step_dispatch(
                active,
                slot,
                delayed,
                hold_end_cmds(bs, fingers),
            ),
            _ => step_dispatch(active, slot, delayed, Seq::empty()),
        },
        InputEvent::PinchBegin { fingers } => StepResult {
            event: ActiveGesture::Pinch { fingers, direction: PinchDir::Any },
            slot,
            delayed,
            commands: pinch_cmds(bs, fingers, PinchDir::Any, Phase::Start, 0, 0),
            timer: TimerOp::Keep,
        },
        InputEvent::PinchUpdate { scale, angle_delta } => match active {
            ActiveGesture::Pinch { fingers, .. } => {
                let dir = spec_pinch_dir(scale as int, angle_delta as int);
                StepResult {
                    event: ActiveGesture::Pinch { fingers, direction: dir },
                    slot,
                    delayed,
                    commands: pinch_cmds(
                        bs,
                        fingers,
                        dir,
                        Phase::Update,
                        angle_delta as int,
                        scale as int,
                    ),
                    timer: TimerOp::Keep,
                }
            },
            _ => step_dispatch(active, slot, delayed, Seq::empty()),
        },
        InputEvent::PinchEnd { .. } => match active {
            ActiveGesture::Pinch { fingers, direction } => step_dispatch(
                active,
                slot,
                delayed,
                pinch_cmds(bs, fingers, direction, Phase::End, 0, 0),
            ),
            _ => step_dispatch(active, slot, delayed, Seq::empty()),
        },
        InputEvent::SwipeBegin { fingers } => {
            let was_pending = slot is Some;
            StepResult {
                event: ActiveGesture::Swipe { fingers, direction: SwipeDir::Any },
                slot: None,
                delayed: false,
                commands: if was_pending {
                    Seq::empty()
                } else {
                    swipe_cmds(bs, fingers, SwipeDir::Any, Phase::Start, 0, 0)
                },
                timer: if was_pending {
                    TimerOp::Disarm
                } else {
                    TimerOp::Keep
                },
            }
        },
        InputEvent::SwipeUpdate { dx, dy } => match active {
            ActiveGesture::Swipe { fingers, .. } => {
                let dir = spec_swipe_dir(dx as int, dy as int);
                StepResult {
                    event: ActiveGesture::Swipe { fingers, direction: dir },
                    slot,
                    delayed,
                    commands: swipe_cmds(bs, fingers, dir, Phase::Update, dx as int, dy as int),
                    timer: TimerOp::Keep,
                }
            },
            _ => step_dispatch(active, slot, delayed, Seq::empty()),
        },
        InputEvent::SwipeEnd { cancelled } => match active {
            ActiveGesture::Swipe { fingers, direction } => {
                let (slot2, cmds) = swipe_end_fold(bs, fingers, direction, cancelled, slot);
                let armed = swipe_end_armed(bs, fingers, direction, cancelled);
                StepResult {
                    event: active,
                    slot: slot2,
                    delayed: slot2 is Some,
                    commands: cmds,
                    timer: if armed {
                        match slot2 {
                            Some((d, _)) => TimerOp::Arm { delay: d },
                            None => TimerOp::Keep,
                        }
                    } else {
                        TimerOp::Keep
                    },
                }
            },
            _ => step_dispatch(active, slot, delayed, Seq::empty()),
        },
        InputEvent::Other => {
            if delayed {
                let (_, d) = spec_exec_delayed(slot);
                StepResult {
                    event: active,
                    slot: None,
                    delayed: false,
                    commands: match d {
                        Some(t) => seq![t],
                        None => Seq::empty(),
                    },
                    timer: TimerOp::Disarm,
                }
            } else {
                step_dispatch(active, slot, delayed, Seq::empty())
            }
        },
    }
}

/// The gesture tracker. It owns the active gesture descriptor, the
/// scheduler slot and the continuation flag; every inbound event is one
/// call of [`EventHandler::handle_event`].
#[derive(Debug)]
pub struct EventHandler {
    pub config: BindingStore,
    pub event: ActiveGesture,
    pub exec_handler: Scheduler,
    pub swipe_gesture_delayed: bool,
}

impl EventHandler {
    /// The continuation flag is set exactly while a delayed swipe end
    /// action is pending.
    pub open spec fn wf(self) -> bool {
        self.swipe_gesture_delayed == (self.exec_handler.pending is Some)
    }

    /// A tracker with no active gesture, an empty scheduler slot and the
    /// continuation flag cleared.
    pub fn new(config: BindingStore) -> (h: EventHandler)
        ensures
            h.config == config,
            h.event == ActiveGesture::Idle,
            slot_view(h.exec_handler.pending) is None,
            h.swipe_gesture_delayed == false,
            h.wf(),
    {
        EventHandler {
            config,
            event: ActiveGesture::Idle,
            exec_handler: Scheduler::new(),
            swipe_gesture_delayed: false,
        }
    }

    /// Consumes one decoded inbound event and returns the effects to
    /// perform, exactly as [`spec_step`] prescribes.
    pub fn handle_event(&mut self, ev: &InputEvent) -> (eff: Effects)
        ensures
            final(self).config == old(self).config,
            old(self).wf() ==> final(self).wf(),
            ({
                let r = spec_step(
                    old(self).config.gestures@,
                    old(self).event,
                    slot_view(old(self).exec_handler.pending),
                    old(self).swipe_gesture_delayed,
                    *ev,
                );
                &&& final(self).event == r.event
                &&& slot_view(final(self).exec_handler.pending) == r.slot
                &&& final(self).swipe_gesture_delayed == r.delayed
                &&& cmd_views(eff.commands@) == r.commands
                &&& eff.timer == r.timer
            }),
    {
        proof {
            if self.swipe_gesture_delayed == (self.exec_handler.pending is Some) {
                lemma_step_preserves_continuation_invariant(
                    self.config.gestures@,
                    self.event,
                    slot_view(self.exec_handler.pending),
                    self.swipe_gesture_delayed,
                    *ev,
                );
            }
        }
        match *ev {
            InputEvent::HoldBegin { fingers } => {
                self.event = ActiveGesture::Hold { fingers };
                Effects { commands: Vec::new(), timer: TimerOp::Keep }
            },
            InputEvent::HoldEnd { .. } => {
                match self.event {
                    ActiveGesture::Hold { fingers } => {
                        let commands = collect_hold(&self.config.gestures, fingers);
                        Effects { commands, timer: TimerOp::Keep }
                    },
                    _ => Effects { commands: Vec::new(), timer: TimerOp::Keep },
                }
            },
            InputEvent::PinchBegin { fingers } => {
                self.event = ActiveGesture::Pinch { fingers, direction: PinchDir::Any };
                let commands = collect_pinch(
                    &self.config.gestures,
                    fingers,
                    PinchDir::Any,
                    Phase::Start,
                    0,
                    0,
                );
                Effects { commands, timer: TimerOp::Keep }
            },
            InputEvent::PinchUpdate { scale, angle_delta } => {
                match self.event {
                    ActiveGesture::Pinch { fingers, .. } => {
                        let dir = PinchDir::dir(scale, angle_delta);
                        self.event = ActiveGesture::Pinch { fingers, direction: dir };
                        let commands = collect_pinch(
                            &self.config.gestures,
                            fingers,
                            dir,
                            Phase::Update,
                            angle_delta,
                            scale,
                        );
                        Effects { commands, timer: TimerOp::Keep }
                    },
                    _ => Effects { commands: Vec::new(), timer: TimerOp::Keep },
                }
            },
            InputEvent::PinchEnd { .. } => {
                match self.event {
                    ActiveGesture::Pinch { fingers, direction } => {
                        let commands = collect_pinch(
                            &self.config.gestures,
                            fingers,
                            direction,
                            Phase::End,
                            0,
                            0,
                        );
                        Effects { commands, timer: TimerOp::Keep }
                    },
                    _ => Effects { commands: Vec::new(), timer: TimerOp::Keep },
                }
            },
            InputEvent::SwipeBegin { fingers } => {
                self.event = ActiveGesture::Swipe { fingers, direction: SwipeDir::Any };
                let was_pending = self.exec_handler.cancel_delay();
                self.swipe_gesture_delayed = false;
                if was_pending {
                    Effects { commands: Vec::new(), timer: TimerOp::Disarm }
                } else {
                    let commands = collect_swipe(
                        &self.config.gestures,
                        fingers,
                        SwipeDir::Any,
                        Phase::Start,
                        0,
                        0,
                    );
                    Effects { commands, timer: TimerOp::Keep }
                }
            },
            InputEvent::SwipeUpdate { dx, dy } => {
                match self.event {
                    ActiveGesture::Swipe { fingers, .. } => {
                        let dir = SwipeDir::dir(dx, dy);
                        self.event = ActiveGesture::Swipe { fingers, direction: dir };
                        let commands = collect_swipe(
                            &self.config.gestures,
                            fingers,
                            dir,
                            Phase::Update,
                            dx,
                            dy,
                        );
                        Effects { commands, timer: TimerOp::Keep }
                    },
                    _ => Effects { commands: Vec::new(), timer: TimerOp::Keep },
                }
            },
            InputEvent::SwipeEnd { cancelled } => {
                match self.event {
                    ActiveGesture::Swipe { fingers, direction } => {
                        self.apply_swipe_end(fingers, direction, cancelled)
                    },
                    _ => Effects { commands: Vec::new(), timer: TimerOp::Keep },
                }
            },
            InputEvent::Other => {
                if self.swipe_gesture_delayed {
                    let d = self.exec_handler.exec_delayed_command();
                    self.swipe_gesture_delayed = false;
                    let mut commands: Vec<String> = Vec::new();
                    if let Some(c) = d {
                        commands.push(c);
                    }
                    proof {
                        let r = spec_step(
                            old(self).config.gestures@,
                            old(self).event,
                            slot_view(old(self).exec_handler.pending),
                            old(self).swipe_gesture_delayed,
                            *ev,
                        );
                        assert(cmd_views(commands@) =~= r.commands);
                    }
                    Effects { commands, timer: TimerOp::Disarm }
                } else {
                    Effects { commands: Vec::new(), timer: TimerOp::Keep }
                }
            },
        }
    }

    /// Processes a swipe end for the active gesture: schedules or fires
    /// each applicable binding's end action and reconciles the
    /// continuation flag with the slot.
    fn apply_swipe_end(&mut self, fingers: u32, direction: SwipeDir, cancelled: bool) -> (eff:
        Effects)
        ensures
            final(self).config == old(self).config,
            final(self).event == old(self).event,
            ({
                let (slot2, cmds) = swipe_end_fold(
                    old(self).config.gestures@,
                    fingers,
                    direction,
                    cancelled,
                    slot_view(old(self).exec_handler.pending),
                );
                let armed = swipe_end_armed(
                    old(self).config.gestures@,
                    fingers,
                    direction,
                    cancelled,
                );
                &&& slot_view(final(self).exec_handler.pending) == slot2
                &&& final(self).swipe_gesture_delayed == (slot2 is Some)
                &&& cmd_views(eff.commands@) == cmds
                &&& eff.timer == (if armed {
                    match slot2 {
                        Some((d, _)) => TimerOp::Arm { delay: d },
                        None => TimerOp::Keep,
                    }
                } else {
                    TimerOp::Keep
                })
            }),
    {
        let ghost bs = self.config.gestures@;
        let ghost slot0 = slot_view(self.exec_handler.pending);
        let mut commands: Vec<String> = Vec::new();
        let mut armed = false;
        let n = self.config.gestures.len();
        let mut idx: usize = 0;
        while idx < n
            invariant
                idx <= n,
                n == self.config.gestures.len(),
                self.config == old(self).config,
                self.event == old(self).event,
                self.swipe_gesture_delayed == old(self).swipe_gesture_delayed,
                bs == self.config.gestures@,
                slot0 == slot_view(old(self).exec_handler.pending),
                (slot_view(self.exec_handler.pending), cmd_views(commands@)) == swipe_end_fold(
                    bs.take(idx as int),
                    fingers,
                    direction,
                    cancelled,
                    slot0,
                ),
                armed == swipe_end_armed(bs.take(idx as int), fingers, direction, cancelled),
            decreases n - idx,
        {
            let ghost i0 = idx as int;
            let ghost pre_cmds = commands@;
            let mut scheduled: Option<(u32, String)> = None;
            let b = &self.config.gestures[idx];
            if let Binding::Swipe {
                fingers: f,
                direction: d,
                end,
                allow_continue_delay,
                include_cancelled,
                ..
            } = b {
                let applies = *f == fingers && (*d == direction || matches!(*d, SwipeDir::Any))
                    && (!cancelled || (*include_cancelled).unwrap_or(false));
                if applies {
                    let args = match end {
                        Some(t) => t.clone(),
                        None => String::new(),
                    };
                    let rendered = render_command(&ExecArgs::new_args_only(args));
                    let delay = (*allow_continue_delay).unwrap_or(0);
                    scheduled = Some((delay, rendered));
                }
            }
            proof {
                assert(bs.take(i0 + 1).drop_last() =~= bs.take(i0));
                assert(bs.take(i0 + 1).last() == bs[i0]);
            }
            if let Some((delay, rendered)) = scheduled {
                let disp = self.exec_handler.schedule_command(delay, rendered);
                if delay != 0 {
                    armed = true;
                }
                if let Some(c) = disp {
                    commands.push(c);
                    proof {
                        assert(cmd_views(commands@) =~= cmd_views(pre_cmds).push(c@));
                    }
                }
            }
            idx += 1;
        }
        proof {
            assert(bs.take(n as int) =~= bs);
        }
        self.swipe_gesture_delayed = self.exec_handler.pending.is_some();
        let timer = if armed {
            match &self.exec_handler.pending {
                Some(pa) => TimerOp::Arm { delay: pa.delay },
                None => TimerOp::Keep,
            }
        } else {
            TimerOp::Keep
        };
        Effects { commands, timer }
    }

    /// Reconciles state after the armed timer expired on its own: the slot
    /// is emptied and the continuation flag cleared, and the pending
    /// command, if it was nonempty, is returned for dispatch.
    pub fn timer_expired(&mut self) -> (r: Option<String>)
        ensures
            final(self).config == old(self).config,
            final(self).event == old(self).event,
            final(self).exec_handler.pending is None,
            final(self).swipe_gesture_delayed == false,
            final(self).wf(),
            dispatch_view(r) == spec_exec_delayed(slot_view(old(self).exec_handler.pending)).1,
    {
        let r = self.exec_handler.exec_delayed_command();
        self.swipe_gesture_delayed = false;
        r
    }
}

/// Law: the active gesture's finger count is invariant across updates
/// within one gesture lifetime; an update only reclassifies the direction.
pub proof fn lemma_update_preserves_fingers(
    bs: Seq<Binding>,
    active: ActiveGesture,
    slot: Option<(u32, Seq<char>)>,
    delayed: bool,
    dx: i64,
    dy: i64,
    scale: i64,
    angle_delta: i64,
)
    ensures
        active matches ActiveGesture::Swipe { fingers, .. } ==> spec_step(
            bs,
            active,
            slot,
            delayed,
            InputEvent::SwipeUpdate { dx, dy },
        ).event == (ActiveGesture::Swipe {
            fingers,
            direction: spec_swipe_dir(dx as int, dy as int),
        }),
        active matches ActiveGesture::Pinch { fingers, .. } ==> spec_step(
            bs,
            active,
            slot,
            delayed,
            InputEvent::PinchUpdate { scale, angle_delta },
        ).event == (ActiveGesture::Pinch {
            fingers,
            direction: spec_pinch_dir(scale as int, angle_delta as int),
        }),
{
}

/// Law: every transition keeps the continuation flag true exactly while a
/// pending action sits in the scheduler slot.
pub proof fn lemma_step_preserves_continuation_invariant(
    bs: Seq<Binding>,
    active: ActiveGesture,
    slot: Option<(u32, Seq<char>)>,
    delayed: bool,
    ev: InputEvent,
)
    requires
        delayed == (slot is Some),
    ensures
        ({
            let r = spec_step(bs, active, slot, delayed, ev);
            r.delayed == (r.slot is Some)
        }),
{
}

fn collect_hold(bs: &Vec<Binding>, fingers: u32) -> (r: Vec<String>)
    ensures
        cmd_views(r@) == hold_end_cmds(bs@, fingers),
{
    let mut out: Vec<String> = Vec::new();
    let mut idx: usize = 0;
    while idx < bs.len()
        invariant
            idx <= bs.len(),
            cmd_views(out@) == hold_end_cmds(bs@.take(idx as int), fingers),
        decreases bs.len() - idx,
    {
        let ghost i0 = idx as int;
        let ghost pre = out@;
        let b = &bs[idx];
        if let Binding::Hold { fingers: f, action } = b {
            if *f == fingers {
                if let Some(t) = action {
                    if t.as_str().unicode_len() > 0 {
                        let rendered = render_command(&ExecArgs::new_args_only(t.clone()));
                        out.push(rendered);
                        proof {
                            assert(cmd_views(out@) =~= cmd_views(pre).push(rendered@));
                        }
                    }
                }
            }
        }
        proof {
            assert(bs@.take(i0 + 1).drop_last() =~= bs@.take(i0));
            assert(bs@.take(i0 + 1).last() == bs@[i0]);
        }
        idx += 1;
    }
    proof {
        assert(bs@.take(bs@.len() as int) =~= bs@);
    }
    out
}

fn collect_pinch(
    bs: &Vec<Binding>,
    fingers: u32,
    dir: PinchDir,
    ph: Phase,
    da: i64,
    scale: i64,
) -> (r: Vec<String>)
    ensures
        cmd_views(r@) == pinch_cmds(bs@, fingers, dir, ph, da as int, scale as int),
{
    let mut out: Vec<String> = Vec::new();
    let mut idx: usize = 0;
    while idx < bs.len()
        invariant
            idx <= bs.len(),
            cmd_views(out@) == pinch_cmds(bs@.take(idx as int), fingers, dir, ph, da as int, scale as int),
        decreases bs.len() - idx,
    {
        let ghost i0 = idx as int;
        let ghost pre = out@;
        let b = &bs[idx];
        if let Binding::Pinch { fingers: f, direction: d, start, update, end } = b {
            if *f == fingers && (*d == dir || matches!(*d, PinchDir::Any)) {
                let tmpl = match ph {
                    Phase::Start => start,
                    Phase::Update => update,
                    Phase::End => end,
                };
                if let Some(t) = tmpl {
                    if t.as_str().unicode_len() > 0 {
                        let rendered = render_command(
                            &ExecArgs { args: t.clone(), dx: 0, dy: 0, da, scale },
                        );
                        out.push(rendered);
                        proof {
                            assert(cmd_views(out@) =~= cmd_views(pre).push(rendered@));
                        }
                    }
                }
            }
        }
        proof {
            assert(bs@.take(i0 + 1).drop_last() =~= bs@.take(i0));
            assert(bs@.take(i0 + 1).last() == bs@[i0]);
        }
        idx += 1;
    }
    proof {
        assert(bs@.take(bs@.len() as int) =~= bs@);
    }
    out
}

fn collect_swipe(
    bs: &Vec<Binding>,
    fingers: u32,
    dir: SwipeDir,
    ph: Phase,
    dx: i64,
    dy: i64,
) -> (r: Vec<String>)
    ensures
        cmd_views(r@) == swipe_cmds(bs@, fingers, dir, ph, dx as int, dy as int),
{
    let mut out: Vec<String> = Vec::new();
    let mut idx: usize = 0;
    while idx < bs.len()
        invariant
            idx <= bs.len(),
            cmd_views(out@) == swipe_cmds(bs@.take(idx as int), fingers, dir, ph, dx as int, dy as int),
        decreases bs.len() - idx,
    {
        let ghost i0 = idx as int;
        let ghost pre = out@;
        let b = &bs[idx];
        if let Binding::Swipe { fingers: f, direction: d, start, update, end, .. } = b {
            if *f == fingers && (*d == dir || matches!(*d, SwipeDir::Any)) {
                let tmpl = match ph {
                    Phase::Start => start,
                    Phase::Update => update,
                    Phase::End => end,
                };
                if let Some(t) = tmpl {
                    if t.as_str().unicode_len() > 0 {
                        let rendered = render_command(
                            &ExecArgs { args: t.clone(), dx, dy, da: 0, scale: 0 },
                        );
                        out.push(rendered);
                        proof {
                            assert(cmd_views(out@) =~= cmd_views(pre).push(rendered@));
                        }
                    }
                }
            }
        }
        proof {
            assert(bs@.take(i0 + 1).drop_last() =~= bs@.take(i0));
            assert(bs@.take(i0 + 1).last() == bs@[i0]);
        }
        idx += 1;
    }
    proof {
        assert(bs@.take(bs@.len() as int) =~= bs@);
    }
    out
}

} // verus!
