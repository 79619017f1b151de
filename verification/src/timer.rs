//! A single countdown with pause/resume time accounting, an epoch stamp that
//! invalidates stale scheduled expirations, and per-event handler lists.
//!
//! The timer never touches a clock or a scheduler itself: every operation
//! takes the current instant as a millisecond count and returns a
//! [`TimerEffect`] naming what the caller must do — which handlers to notify,
//! what expiration to schedule and under which epoch stamp, and whether a
//! previously scheduled expiration should be cancelled.

use vstd::prelude::*;

verus! {

/// The kind of interval a timer counts down. A long break is a duration
/// variant of a break chosen by a counting rule, not a distinct cycle
/// position.
#[derive(Copy, Clone, PartialEq, Eq, Structural, Debug)]
pub enum TimerType {
    Work,
    Break,
    LongBreak,
}

impl TimerType {
    /// The name handed to hook scripts: `"work"` for a work interval,
    /// `"break"` for either kind of break.
    pub fn label(&self) -> (s: &'static str)
        ensures
            *self is Work ==> s@ == "work"@,
            !(*self is Work) ==> s@ == "break"@,
    {
        match self {
            TimerType::Work => "work",
            TimerType::Break => "break",
            TimerType::LongBreak => "break",
        }
    }
}

/// The lifecycle events a timer reports to registered handlers.
#[derive(Copy, Clone, PartialEq, Eq, Structural, Debug)]
pub enum TimerEvent {
    Finish,
    Start,
    Pause,
    Stop,
}

/// The run state of a timer. A timer that expires becomes `Stopped` and is
/// never resumed; the next phase gets a fresh timer.
#[derive(Copy, Clone, PartialEq, Eq, Structural, Debug)]
pub enum TimerState {
    Running,
    Paused,
    Stopped,
}

/// Per-event ordered lists of handler identifiers. The process around the
/// library maps each identifier to the callback it stands for; the order of a
/// list is the order of registration and the order of notification.
pub struct HandlerTable {
    pub on_finish: Vec<u64>,
    pub on_start: Vec<u64>,
    pub on_pause: Vec<u64>,
    pub on_stop: Vec<u64>,
}

impl HandlerTable {
    /// The handlers registered for `event`, in registration order.
    pub open spec fn list(self, event: TimerEvent) -> Seq<u64> {
        match event {
            TimerEvent::Finish => self.on_finish@,
            TimerEvent::Start => self.on_start@,
            TimerEvent::Pause => self.on_pause@,
            TimerEvent::Stop => self.on_stop@,
        }
    }

    /// A table with no handlers registered.
    pub fn new() -> (table: HandlerTable)
        ensures
            forall|e: TimerEvent| table.list(e) == Seq::<u64>::empty(),
    {
        HandlerTable { on_finish: Vec::new(), on_start: Vec::new(), on_pause: Vec::new(), on_stop: Vec::new() }
    }

    /// Append `handler` to the list for `event`; the other lists keep their
    /// contents.
    pub fn push(&mut self, event: TimerEvent, handler: u64)
        ensures
            final(self).list(event) == old(self).list(event).push(handler),
            forall|e: TimerEvent| e != event ==> final(self).list(e) == old(self).list(e),
    {
        match event {
            TimerEvent::Finish => self.on_finish.push(handler),
            TimerEvent::Start => self.on_start.push(handler),
            TimerEvent::Pause => self.on_pause.push(handler),
            TimerEvent::Stop => self.on_stop.push(handler),
        }
    }

    /// The list for `event`, for iteration.
    pub fn get(&self, event: TimerEvent) -> (list: &Vec<u64>)
        ensures
            list@ == self.list(event),
    {
        match event {
            TimerEvent::Finish => &self.on_finish,
            TimerEvent::Start => &self.on_start,
            TimerEvent::Pause => &self.on_pause,
            TimerEvent::Stop => &self.on_stop,
        }
    }

}

/// One notification owed to a handler: which handler, which event, and the
/// timer's kind and stored remainder at the moment of emission.
#[derive(Copy, Clone, PartialEq, Eq, Structural, Debug)]
pub struct Emit {
    pub handler: u64,
    pub event: TimerEvent,
    pub timer_type: TimerType,
    pub remaining: u64,
}

/// A request to schedule an expiration: fire after `delay` milliseconds and
/// then deliver a completion stamped with `epoch`.
#[derive(Copy, Clone, PartialEq, Eq, Structural, Debug)]
pub struct Schedule {
    pub delay: u64,
    pub epoch: u64,
}

/// What the caller must do after a timer operation: cancel the outstanding
/// scheduled expiration, schedule a new one, deliver notifications, and —
/// only for a genuine (non-stale) completion — report the finish onward.
pub struct TimerEffect {
    pub cancel: bool,
    pub schedule: Option<Schedule>,
    pub emits: Vec<Emit>,
    pub finished: bool,
}

/// An effect demanding nothing of the caller.
pub open spec fn effect_empty(eff: TimerEffect) -> bool {
    &&& !eff.cancel
    &&& eff.schedule is None
    &&& eff.emits@ == Seq::<Emit>::empty()
    &&& !eff.finished
}

impl TimerEffect {
    /// The effect of a structural no-op.
    pub fn none() -> (eff: TimerEffect)
        ensures
            effect_empty(eff),
    {
        TimerEffect { cancel: false, schedule: None, emits: Vec::new(), finished: false }
    }
}

/// A countdown over milliseconds of a monotonic clock.
///
/// `remaining` is the time left as of the instant the timer last stopped
/// running (creation, pause, stop or expiry); while `Running`, the live value
/// is `remaining - (now - last_started_at)`, clamped at zero. `epoch` grows
/// on every start, pause and stop, so a scheduled completion stamped under an
/// earlier epoch no longer matches and is discarded.
pub struct Timer {
    pub timer_type: TimerType,
    pub total_duration: u64,
    pub remaining: u64,
    pub state: TimerState,
    pub last_started_at: Option<u64>,
    pub epoch: u64,
    pub handlers: HandlerTable,
}

impl Timer {
    /// Well-formedness: the start instant is recorded exactly while running,
    /// and the countdown never exceeds the full duration.
    pub open spec fn wf(self) -> bool {
        &&& self.state is Running <==> self.last_started_at is Some
        &&& self.remaining <= self.total_duration
    }

    /// The instant the current run began; meaningful only while `Running`.
    pub open spec fn started_at(self) -> u64
        recommends
            self.state is Running,
    {
        self.last_started_at->0
    }

    /// The time left at instant `now`: while running, the stored remainder
    /// less the time elapsed since the run began, clamped at zero; otherwise
    /// the stored remainder itself.
    pub open spec fn spec_time_left(self, now: u64) -> u64
        recommends
            self.state is Running ==> self.started_at() <= now,
    {
        if self.state is Running {
            if now - self.started_at() <= self.remaining {
                (self.remaining - (now - self.started_at())) as u64
            } else {
                0
            }
        } else {
            self.remaining
        }
    }

    /// The notifications owed for `event`: one per registered handler, in
    /// registration order, carrying the timer's kind and stored remainder.
    pub open spec fn spec_emits(self, event: TimerEvent) -> Seq<Emit> {
        Seq::new(
            self.handlers.list(event).len(),
            |i: int| Emit {
                handler: self.handlers.list(event)[i],
                event,
                timer_type: self.timer_type,
                remaining: self.remaining,
            },
        )
    }

    /// The timer after `start` at instant `now`: a no-op while running;
    /// otherwise the stored remainder keeps counting down from `now` under
    /// the next epoch.
    pub open spec fn spec_start(self, now: u64) -> Timer
        recommends
            self.epoch < u64::MAX,
    {
        if self.state is Running {
            self
        } else {
            Timer {
                state: TimerState::Running,
                last_started_at: Some(now),
                epoch: (self.epoch + 1) as u64,
                ..self
            }
        }
    }

    /// The timer after `pause` at instant `now`: a no-op unless running;
    /// otherwise the live time left is stored and the run's epoch retired.
    pub open spec fn spec_pause(self, now: u64) -> Timer
        recommends
            self.state is Running ==> self.started_at() <= now && self.epoch < u64::MAX,
    {
        if self.state is Running {
            Timer {
                remaining: self.spec_time_left(now),
                state: TimerState::Paused,
                last_started_at: None,
                epoch: (self.epoch + 1) as u64,
                ..self
            }
        } else {
            self
        }
    }

    /// The timer after `stop`: stopped with its stored remainder untouched,
    /// under a retired epoch.
    pub open spec fn spec_stop(self) -> Timer
        recommends
            self.epoch < u64::MAX,
    {
        Timer {
            state: TimerState::Stopped,
            last_started_at: None,
            epoch: (self.epoch + 1) as u64,
            ..self
        }
    }

    /// The timer after a completion stamped `scheduled_epoch` is delivered:
    /// unchanged when the stamp is stale, expired otherwise.
    pub open spec fn spec_complete(self, scheduled_epoch: u64) -> Timer {
        if scheduled_epoch == self.epoch {
            Timer { remaining: 0, state: TimerState::Stopped, last_started_at: None, ..self }
        } else {
            self
        }
    }

    /// A fresh timer: stopped, full duration remaining, epoch zero, no
    /// handlers.
    pub fn new(timer_type: TimerType, duration: u64) -> (t: Timer)
        ensures
            t.timer_type == timer_type,
            t.total_duration == duration,
            t.remaining == duration,
            t.state is Stopped,
            t.last_started_at is None,
            t.epoch == 0,
            forall|e: TimerEvent| t.handlers.list(e) == Seq::<u64>::empty(),
            t.wf(),
    {
        Timer {
            timer_type,
            total_duration: duration,
            remaining: duration,
            state: TimerState::Stopped,
            last_started_at: None,
            epoch: 0,
            handlers: HandlerTable::new(),
        }
    }

    /// The time left at instant `now` of the monotonic clock.
    pub fn time_left(&self, now: u64) -> (left: u64)
        requires
            self.wf(),
            self.state is Running ==> self.started_at() <= now,
        ensures
            left == self.spec_time_left(now),
    {
        match self.state {
            TimerState::Running => {
                let started = match self.last_started_at {
                    Some(s) => s,
                    None => 0,
                };
                let elapsed = now - started;
                if elapsed <= self.remaining {
                    self.remaining - elapsed
                } else {
                    0
                }
            },
            _ => self.remaining,
        }
    }

    /// Begin (or resume) counting down at instant `now`. A no-op while
    /// already running; otherwise the timer runs under a fresh epoch and the
    /// caller must schedule an expiration after the stored remainder, stamped
    /// with that epoch, and notify the `Start` handlers.
    pub fn start(&mut self, now: u64) -> (eff: TimerEffect)
        requires
            old(self).wf(),
            old(self).epoch < u64::MAX,
        ensures
            *final(self) == old(self).spec_start(now),
            final(self).wf(),
            old(self).state is Running ==> effect_empty(eff),
            !(old(self).state is Running) ==> ({
                &&& !eff.cancel
                &&& eff.schedule == (Some(Schedule { delay: old(self).remaining, epoch: final(self).epoch }))
                &&& eff.emits@ == final(self).spec_emits(TimerEvent::Start)
                &&& !eff.finished
            }),
    {
        match self.state {
            TimerState::Running => {
                return TimerEffect::none();
            },
            _ => {},
        }
        self.state = TimerState::Running;
        self.last_started_at = Some(now);
        self.epoch = self.epoch + 1;
        let emits = self.emit_all(TimerEvent::Start);
        TimerEffect {
            cancel: false,
            schedule: Some(Schedule { delay: self.remaining, epoch: self.epoch }),
            emits,
            finished: false,
        }
    }

    /// Pause at instant `now`. Only a running timer can pause: the live time
    /// left becomes the stored remainder, the run's epoch is retired, and the
    /// caller must cancel the scheduled expiration and notify the `Pause`
    /// handlers. A no-op otherwise.
    pub fn pause(&mut self, now: u64) -> (eff: TimerEffect)
        requires
            old(self).wf(),
            old(self).state is Running ==> old(self).started_at() <= now && old(self).epoch
                < u64::MAX,
        ensures
            *final(self) == old(self).spec_pause(now),
            final(self).wf(),
            !(old(self).state is Running) ==> effect_empty(eff),
            old(self).state is Running ==> ({
                &&& eff.cancel
                &&& eff.schedule is None
                &&& eff.emits@ == final(self).spec_emits(TimerEvent::Pause)
                &&& !eff.finished
            }),
    {
        match self.state {
            TimerState::Running => {},
            _ => {
                return TimerEffect::none();
            },
        }
        let left = self.time_left(now);
        self.remaining = left;
        self.state = TimerState::Paused;
        self.last_started_at = None;
        self.epoch = self.epoch + 1;
        let emits = self.emit_all(TimerEvent::Pause);
        TimerEffect { cancel: true, schedule: None, emits, finished: false }
    }

    /// Stop counting. The stored remainder is kept as it is, the epoch is
    /// retired so a pending completion becomes stale, and the caller must
    /// cancel the scheduled expiration and notify the `Stop` handlers — a
    /// stop emits `Stop`, never `Finish`.
    pub fn stop(&mut self) -> (eff: TimerEffect)
        requires
            old(self).wf(),
            old(self).epoch < u64::MAX,
        ensures
            *final(self) == old(self).spec_stop(),
            final(self).wf(),
            eff.cancel,
            eff.schedule is None,
            eff.emits@ == final(self).spec_emits(TimerEvent::Stop),
            !eff.finished,
    {
        self.state = TimerState::Stopped;
        self.last_started_at = None;
        self.epoch = self.epoch + 1;
        let emits = self.emit_all(TimerEvent::Stop);
        TimerEffect { cancel: true, schedule: None, emits, finished: false }
    }

    /// Deliver a scheduled completion stamped `scheduled_epoch`. A stamp that
    /// no longer matches the timer's epoch is stale — a pause, stop or
    /// restart intervened — and changes nothing. A matching stamp expires the
    /// timer: no time left, stopped, and the caller must notify the `Finish`
    /// handlers and report the finish onward.
    pub fn complete(&mut self, scheduled_epoch: u64) -> (eff: TimerEffect)
        requires
            old(self).wf(),
        ensures
            *final(self) == old(self).spec_complete(scheduled_epoch),
            final(self).wf(),
            scheduled_epoch != old(self).epoch ==> *final(self) == *old(self) && effect_empty(
                eff,
            ),
            scheduled_epoch == old(self).epoch ==> ({
                &&& !eff.cancel
                &&& eff.schedule is None
                &&& eff.emits@ == final(self).spec_emits(TimerEvent::Finish)
                &&& eff.finished
            }),
    {
        if scheduled_epoch != self.epoch {
            return TimerEffect::none();
        }
        self.remaining = 0;
        self.state = TimerState::Stopped;
        self.last_started_at = None;
        let emits = self.emit_all(TimerEvent::Finish);
        TimerEffect { cancel: false, schedule: None, emits, finished: true }
    }

    /// Register `handler` for `event`, after those already registered.
    pub fn on(&mut self, event: TimerEvent, handler: u64)
        ensures
            final(self).handlers.list(event) == old(self).handlers.list(event).push(handler),
            forall|e: TimerEvent| e != event ==> final(self).handlers.list(e) == old(
                self,
            ).handlers.list(e),
            *final(self) == (Timer { handlers: final(self).handlers, ..*old(self) }),
    {
        self.handlers.push(event, handler);
    }

    /// The kind of interval this timer counts down.
    pub fn timer_type(&self) -> (t: TimerType)
        ensures
            t == self.timer_type,
    {
        self.timer_type
    }

    /// A snapshot for reporting: the same countdown fields, but no handlers —
    /// a copy never notifies anyone.
    pub fn clone(&self) -> (t: Timer)
        ensures
            t == (Timer { handlers: t.handlers, ..*self }),
            forall|e: TimerEvent| t.handlers.list(e) == Seq::<u64>::empty(),
    {
        Timer {
            timer_type: self.timer_type,
            total_duration: self.total_duration,
            remaining: self.remaining,
            state: self.state,
            last_started_at: self.last_started_at,
            epoch: self.epoch,
            handlers: HandlerTable::new(),
        }
    }

    /// The notifications owed to the handlers of `event`, built in
    /// registration order.
    fn emit_all(&self, event: TimerEvent) -> (v: Vec<Emit>)
        ensures
            v@ == self.spec_emits(event),
    {
        let list = self.handlers.get(event);
        let mut v: Vec<Emit> = Vec::new();
        let mut i: usize = 0;
        while i < list.len()
            invariant
                i <= list.len(),
                list@ == self.handlers.list(event),
                v@.len() == i,
                forall|j: int| 0 <= j < i ==> v@[j] == self.spec_emits(event)[j],
            decreases list.len() - i,
        {
            v.push(
                Emit {
                    handler: list[i],
                    event,
                    timer_type: self.timer_type,
                    remaining: self.remaining,
                },
            );
            i = i + 1;
        }
        proof {
            assert(v@ =~= self.spec_emits(event));
        }
        v
    }
}

/// Law: while a timer runs, the reported time left never increases as the
/// clock advances, and it is exactly zero from the instant the full remainder
/// has elapsed.
pub proof fn lemma_time_left_monotonic(t: Timer, early: u64, late: u64)
    requires
        t.wf(),
        t.state is Running,
        t.started_at() <= early <= late,
    ensures
        t.spec_time_left(late) <= t.spec_time_left(early),
        late >= t.started_at() + t.remaining ==> t.spec_time_left(late) == 0,
{
}

/// Law: pausing a running timer and starting it again at the same instant
/// leaves the time left exactly unchanged.
pub proof fn lemma_pause_then_start_lossless(t: Timer, now: u64)
    requires
        t.wf(),
        t.state is Running,
        t.started_at() <= now,
        t.epoch + 2 <= u64::MAX,
    ensures
        t.spec_pause(now).spec_start(now).spec_time_left(now) == t.spec_time_left(now),
{
}

/// Law: a completion stamped during a run that has since been paused or
/// stopped carries a retired epoch, so delivering it changes nothing.
pub proof fn lemma_stale_completion_after_interrupt(t: Timer, now: u64, stamp: u64)
    requires
        t.wf(),
        t.state is Running,
        t.started_at() <= now,
        stamp <= t.epoch,
        t.epoch < u64::MAX,
    ensures
        t.spec_pause(now).spec_complete(stamp) == t.spec_pause(now),
        t.spec_stop().spec_complete(stamp) == t.spec_stop(),
{
}

/// Law: starting a timer notifies exactly the handlers registered for
/// `Start`, once each, in registration order.
pub proof fn lemma_start_notifies_in_order(t: Timer, now: u64)
    requires
        t.wf(),
        !(t.state is Running),
    ensures
        ({
            let emits = t.spec_start(now).spec_emits(TimerEvent::Start);
            &&& emits.len() == t.handlers.list(TimerEvent::Start).len()
            &&& forall|i: int|
                0 <= i < emits.len() ==> emits[i].handler == t.handlers.list(TimerEvent::Start)[i]
                    && emits[i].event == TimerEvent::Start
        }),
{
}

} // verus!
