//! The orchestrator: owns exactly one live [`Timer`], sequences the
//! work / break / long-break cycle, keeps a persistent handler registry that
//! is re-attached to every replacement timer, and decides what each external
//! command and each internal message does to that timer.
//!
//! Serialization — one exclusive lock around the controller, one consumer
//! loop draining an ordered message stream — is the surrounding process's
//! job; every decision it has to make is a method here.

use vstd::prelude::*;

use crate::timer::{
    effect_empty, HandlerTable, Schedule, Timer, TimerEffect, TimerEvent, TimerState, TimerType,
};

verus! {

/// Session configuration, immutable for the controller's lifetime. Durations
/// are milliseconds; `long_break_interval` is the cadence of long breaks in
/// break slots (0 disables them); `auto` makes a finished timer advance to
/// the next phase without an explicit command.
#[derive(Copy, Clone, PartialEq, Eq, Structural, Debug)]
pub struct Config {
    pub work_duration: u64,
    pub break_duration: u64,
    pub long_break_duration: u64,
    pub long_break_interval: u64,
    pub auto: bool,
}

/// A snapshot of the current timer: its kind and its time left.
#[derive(Copy, Clone, PartialEq, Eq, Structural, Debug)]
pub struct Status {
    pub timer_type: TimerType,
    pub remaining: u64,
}

/// The two messages the controller's consumer loop serializes: a timer
/// reported that it finished, or an external command asked to skip ahead.
#[derive(Copy, Clone, PartialEq, Eq, Structural, Debug)]
pub enum ControllerMsg {
    TimerFinished,
    SkipRequested,
}

/// Which break slot a transition out of `Work` enters, counting from 1.
///
/// `count_after` is the completed-phase count with this transition already
/// counted; phases alternate strictly, so out of `Work` that count is odd
/// and every work phase so far — this one included — opened one break slot.
pub open spec fn spec_break_index(count_after: u64) -> u64 {
    (count_after / 2 + 1) as u64
}

/// The kind of the phase entered by a transition: out of a work phase, a
/// break — the long variant on every `interval`-th break slot (never, if
/// `interval` is 0); out of either kind of break, work.
pub open spec fn spec_next_type(cur: TimerType, count_after: u64, interval: u64) -> TimerType {
    if cur is Work {
        if interval > 0 && spec_break_index(count_after) % interval == 0 {
            TimerType::LongBreak
        } else {
            TimerType::Break
        }
    } else {
        TimerType::Work
    }
}

/// The configured duration of the phase entered by a transition.
pub open spec fn spec_next_duration(cur: TimerType, count_after: u64, config: Config) -> u64 {
    match spec_next_type(cur, count_after, config.long_break_interval) {
        TimerType::Work => config.work_duration,
        TimerType::Break => config.break_duration,
        TimerType::LongBreak => config.long_break_duration,
    }
}

/// Everything a phase transition does, relating the controller before
/// (`pre`) and after (`post`) and the actions it hands back: the count grows
/// by one, the old timer is stopped and its `Stop` handlers notified, the
/// replacement timer for the phase the selection rule picks runs from `now`
/// with the persistent handlers attached and its `Start` handlers notified,
/// and the caller must cancel the old schedule and create the new one. The
/// replacement's epoch continues past the old timer's, so every stamp issued
/// for the old timer is stale against it.
pub open spec fn next_rel(pre: Controller, post: Controller, eff: TimerEffect, now: u64) -> bool {
    let count = (pre.completed_count + 1) as u64;
    let stopped = pre.timer.spec_stop();
    let ntype = spec_next_type(pre.timer.timer_type, count, pre.config.long_break_interval);
    let ndur = spec_next_duration(pre.timer.timer_type, count, pre.config);
    &&& post.config == pre.config
    &&& post.completed_count == count
    &&& forall|e: TimerEvent| post.event_handlers.list(e) == pre.event_handlers.list(e)
    &&& post.timer.timer_type == ntype
    &&& post.timer.total_duration == ndur
    &&& post.timer.remaining == ndur
    &&& post.timer.state is Running
    &&& post.timer.last_started_at == Some(now)
    &&& post.timer.epoch == pre.timer.epoch + 2
    &&& forall|e: TimerEvent| post.timer.handlers.list(e) == pre.event_handlers.list(e)
    &&& eff.cancel
    &&& eff.schedule == (Some(Schedule { delay: ndur, epoch: (pre.timer.epoch + 2) as u64 }))
    &&& eff.emits@ == stopped.spec_emits(TimerEvent::Stop) + post.timer.spec_emits(
        TimerEvent::Start,
    )
    &&& !eff.finished
}

/// The orchestrator's state: the immutable session configuration, the one
/// live timer, the persistent handler registry, and the count of completed
/// phase transitions.
pub struct Controller {
    pub config: Config,
    pub timer: Timer,
    pub event_handlers: HandlerTable,
    pub completed_count: u64,
}

impl Controller {
    /// Well-formedness: the timer is well-formed, and — because phases
    /// strictly alternate from an initial work phase — the live timer counts
    /// work exactly when the completed-phase count is even.
    pub open spec fn wf(self) -> bool {
        &&& self.timer.wf()
        &&& (self.timer.timer_type is Work <==> self.completed_count % 2 == 0)
    }

    /// A controller holding a fresh, stopped work timer, an empty persistent
    /// registry, and a zero completed-phase count.
    pub fn new(config: Config) -> (c: Controller)
        ensures
            c.config == config,
            c.completed_count == 0,
            c.timer.timer_type is Work,
            c.timer.total_duration == config.work_duration,
            c.timer.remaining == config.work_duration,
            c.timer.state is Stopped,
            c.timer.last_started_at is None,
            c.timer.epoch == 0,
            forall|e: TimerEvent| c.timer.handlers.list(e) == Seq::<u64>::empty(),
            forall|e: TimerEvent| c.event_handlers.list(e) == Seq::<u64>::empty(),
            c.wf(),
    {
        Controller {
            config,
            timer: Timer::new(TimerType::Work, config.work_duration),
            event_handlers: HandlerTable::new(),
            completed_count: 0,
        }
    }

    /// Start the current timer at instant `now`; a no-op while it already
    /// runs. Everything else about the controller keeps its value.
    pub fn start(&mut self, now: u64) -> (eff: TimerEffect)
        requires
            old(self).wf(),
            old(self).timer.epoch < u64::MAX,
        ensures
            final(self).wf(),
            final(self).timer == old(self).timer.spec_start(now),
            final(self).config == old(self).config,
            final(self).completed_count == old(self).completed_count,
            final(self).event_handlers == old(self).event_handlers,
            old(self).timer.state is Running ==> effect_empty(eff),
            !(old(self).timer.state is Running) ==> ({
                &&& !eff.cancel
                &&& eff.schedule == (Some(
                    Schedule { delay: old(self).timer.remaining, epoch: final(self).timer.epoch },
                ))
                &&& eff.emits@ == final(self).timer.spec_emits(TimerEvent::Start)
                &&& !eff.finished
            }),
    {
        self.timer.start(now)
    }

    /// Resume a paused session: resuming is starting the current timer.
    pub fn resume(&mut self, now: u64) -> (eff: TimerEffect)
        requires
            old(self).wf(),
            old(self).timer.epoch < u64::MAX,
        ensures
            final(self).wf(),
            final(self).timer == old(self).timer.spec_start(now),
            final(self).config == old(self).config,
            final(self).completed_count == old(self).completed_count,
            final(self).event_handlers == old(self).event_handlers,
            old(self).timer.state is Running ==> effect_empty(eff),
            !(old(self).timer.state is Running) ==> ({
                &&& !eff.cancel
                &&& eff.schedule == (Some(
                    Schedule { delay: old(self).timer.remaining, epoch: final(self).timer.epoch },
                ))
                &&& eff.emits@ == final(self).timer.spec_emits(TimerEvent::Start)
                &&& !eff.finished
            }),
    {
        self.start(now)
    }

    /// Pause the current timer at instant `now`; a no-op unless it runs.
    pub fn pause(&mut self, now: u64) -> (eff: TimerEffect)
        requires
            old(self).wf(),
            old(self).timer.state is Running ==> old(self).timer.started_at() <= now && old(
                self,
            ).timer.epoch < u64::MAX,
        ensures
            final(self).wf(),
            final(self).timer == old(self).timer.spec_pause(now),
            final(self).config == old(self).config,
            final(self).completed_count == old(self).completed_count,
            final(self).event_handlers == old(self).event_handlers,
            !(old(self).timer.state is Running) ==> effect_empty(eff),
            old(self).timer.state is Running ==> ({
                &&& eff.cancel
                &&& eff.schedule is None
                &&& eff.emits@ == final(self).timer.spec_emits(TimerEvent::Pause)
                &&& !eff.finished
            }),
    {
        self.timer.pause(now)
    }

    /// Stop the current timer, keeping its stored remainder.
    pub fn stop(&mut self) -> (eff: TimerEffect)
        requires
            old(self).wf(),
            old(self).timer.epoch < u64::MAX,
        ensures
            final(self).wf(),
            final(self).timer == old(self).timer.spec_stop(),
            final(self).config == old(self).config,
            final(self).completed_count == old(self).completed_count,
            final(self).event_handlers == old(self).event_handlers,
            eff.cancel,
            eff.schedule is None,
            eff.emits@ == final(self).timer.spec_emits(TimerEvent::Stop),
            !eff.finished,
    {
        self.timer.stop()
    }

    /// Force-advance to the next phase, whatever time is left: stop the
    /// current timer, count the transition, build the replacement the
    /// selection rule picks, re-attach the persistent handlers, start it.
    pub fn next(&mut self, now: u64) -> (eff: TimerEffect)
        requires
            old(self).wf(),
            old(self).completed_count < u64::MAX,
            old(self).timer.epoch + 2 <= u64::MAX,
        ensures
            final(self).wf(),
            next_rel(*old(self), *final(self), eff, now),
    {
        self.completed_count = self.completed_count + 1;
        let stop_eff = self.timer.stop();
        let (ntype, ndur) = match self.timer.timer_type() {
            TimerType::Work => {
                let idx = self.completed_count / 2 + 1;
                if self.config.long_break_interval > 0 && idx % self.config.long_break_interval
                    == 0 {
                    (TimerType::LongBreak, self.config.long_break_duration)
                } else {
                    (TimerType::Break, self.config.break_duration)
                }
            },
            _ => (TimerType::Work, self.config.work_duration),
        };
        self.timer = Self::create_timer(ntype, ndur, self.timer.epoch);
        self.attach_timer_handlers();
        let start_eff = self.timer.start(now);
        let mut emits = stop_eff.emits;
        let mut start_emits = start_eff.emits;
        emits.append(&mut start_emits);
        TimerEffect { cancel: true, schedule: start_eff.schedule, emits, finished: false }
    }

    /// Handle one message from the internal stream: a skip request advances
    /// unconditionally; a finished timer advances only when the session is
    /// configured to auto-advance, and otherwise changes nothing.
    pub fn on_message(&mut self, msg: ControllerMsg, now: u64) -> (eff: TimerEffect)
        requires
            old(self).wf(),
            msg is SkipRequested || old(self).config.auto ==> old(self).completed_count < u64::MAX
                && old(self).timer.epoch + 2 <= u64::MAX,
        ensures
            final(self).wf(),
            msg is SkipRequested ==> next_rel(*old(self), *final(self), eff, now),
            msg is TimerFinished && old(self).config.auto ==> next_rel(
                *old(self),
                *final(self),
                eff,
                now,
            ),
            msg is TimerFinished && !old(self).config.auto ==> *final(self) == *old(self)
                && effect_empty(eff),
    {
        match msg {
            ControllerMsg::SkipRequested => self.next(now),
            ControllerMsg::TimerFinished => {
                if self.config.auto {
                    self.next(now)
                } else {
                    TimerEffect::none()
                }
            },
        }
    }

    /// Deliver a scheduled completion stamped `scheduled_epoch` to the
    /// current timer. A stale stamp — retired by a pause, stop or
    /// replacement since it was issued — changes nothing; a matching one
    /// expires the timer, and the finish must be reported onward so the
    /// consumer loop can decide about auto-advance.
    pub fn complete(&mut self, scheduled_epoch: u64) -> (eff: TimerEffect)
        requires
            old(self).wf(),
        ensures
            final(self).wf(),
            final(self).timer == old(self).timer.spec_complete(scheduled_epoch),
            final(self).config == old(self).config,
            final(self).completed_count == old(self).completed_count,
            final(self).event_handlers == old(self).event_handlers,
            scheduled_epoch != old(self).timer.epoch ==> *final(self) == *old(self)
                && effect_empty(eff),
            scheduled_epoch == old(self).timer.epoch ==> ({
                &&& !eff.cancel
                &&& eff.schedule is None
                &&& eff.emits@ == final(self).timer.spec_emits(TimerEvent::Finish)
                &&& eff.finished
            }),
    {
        self.timer.complete(scheduled_epoch)
    }

    /// A snapshot of the current timer's kind and time left at instant
    /// `now`.
    pub fn status(&self, now: u64) -> (s: Status)
        requires
            self.wf(),
            self.timer.state is Running ==> self.timer.started_at() <= now,
        ensures
            s.timer_type == self.timer.timer_type,
            s.remaining == self.timer.spec_time_left(now),
    {
        Status { timer_type: self.timer.timer_type(), remaining: self.timer.time_left(now) }
    }

    /// Register `handler` for `event` in the persistent registry — so every
    /// future timer gets it — and on the current timer, so it applies to the
    /// present phase too.
    pub fn on(&mut self, event: TimerEvent, handler: u64)
        ensures
            final(self).event_handlers.list(event) == old(self).event_handlers.list(event).push(
                handler,
            ),
            forall|e: TimerEvent|
                e != event ==> final(self).event_handlers.list(e) == old(self).event_handlers.list(
                    e,
                ),
            final(self).timer.handlers.list(event) == old(self).timer.handlers.list(event).push(
                handler,
            ),
            forall|e: TimerEvent|
                e != event ==> final(self).timer.handlers.list(e) == old(self).timer.handlers.list(
                    e,
                ),
            final(self).timer == (Timer { handlers: final(self).timer.handlers, ..old(self).timer }),
            final(self).config == old(self).config,
            final(self).completed_count == old(self).completed_count,
            old(self).wf() ==> final(self).wf(),
    {
        self.event_handlers.push(event, handler);
        self.timer.on(event, handler);
    }

    /// The timer the controller currently owns.
    pub fn get_current_timer(&self) -> (t: &Timer)
        ensures
            *t == self.timer,
    {
        &self.timer
    }

    /// A stopped timer whose epoch continues the controller's chain, so that
    /// every stamp issued for a replaced timer stays stale against it.
    fn create_timer(timer_type: TimerType, duration: u64, epoch: u64) -> (t: Timer)
        ensures
            t.timer_type == timer_type,
            t.total_duration == duration,
            t.remaining == duration,
            t.state is Stopped,
            t.last_started_at is None,
            t.epoch == epoch,
            forall|e: TimerEvent| t.handlers.list(e) == Seq::<u64>::empty(),
            t.wf(),
    {
        let mut t = Timer::new(timer_type, duration);
        t.epoch = epoch;
        t
    }

    /// Append every persistently registered handler to the current timer's
    /// lists, in registration order.
    fn attach_timer_handlers(&mut self)
        ensures
            forall|e: TimerEvent|
                final(self).timer.handlers.list(e) == old(self).timer.handlers.list(e) + old(
                    self,
                ).event_handlers.list(e),
            final(self).timer == (Timer {
                handlers: final(self).timer.handlers,
                ..old(self).timer
            }),
            final(self).config == old(self).config,
            final(self).completed_count == old(self).completed_count,
            final(self).event_handlers == old(self).event_handlers,
    {
        append_ids(&mut self.timer.handlers.on_finish, &self.event_handlers.on_finish);
        append_ids(&mut self.timer.handlers.on_start, &self.event_handlers.on_start);
        append_ids(&mut self.timer.handlers.on_pause, &self.event_handlers.on_pause);
        append_ids(&mut self.timer.handlers.on_stop, &self.event_handlers.on_stop);
    }
}

/// Append the contents of `src` to `dst`, keeping both orders.
fn append_ids(dst: &mut Vec<u64>, src: &Vec<u64>)
    ensures
        final(dst)@ == old(dst)@ + src@,
{
    let mut i: usize = 0;
    while i < src.len()
        invariant
            i <= src.len(),
            dst@ == old(dst)@ + src@.take(i as int),
        decreases src.len() - i,
    {
        proof {
            assert(old(dst)@ + src@.take(i as int) + seq![src@[i as int]] =~= old(dst)@
                + src@.take(i as int + 1));
        }
        dst.push(src[i]);
        i = i + 1;
    }
    proof {
        assert(src@.take(src@.len() as int) =~= src@);
    }
}

/// Law: a forced advance always counts exactly one more completed phase and
/// always changes the phase kind — out of work into a break, out of either
/// break into work — no matter how much time was left.
pub proof fn lemma_next_always_advances(pre: Controller, post: Controller, eff: TimerEffect, now: u64)
    requires
        next_rel(pre, post, eff, now),
        pre.completed_count < u64::MAX,
    ensures
        post.completed_count == pre.completed_count + 1,
        pre.timer.timer_type is Work ==> !(post.timer.timer_type is Work),
        !(pre.timer.timer_type is Work) ==> post.timer.timer_type is Work,
{
}

/// Law: handlers registered on the controller survive a phase transition —
/// the replacement timer carries exactly the persistent registry, in
/// registration order.
pub proof fn lemma_handlers_persist_across_next(
    pre: Controller,
    post: Controller,
    eff: TimerEffect,
    now: u64,
)
    requires
        next_rel(pre, post, eff, now),
    ensures
        forall|e: TimerEvent| post.timer.handlers.list(e) == pre.event_handlers.list(e),
{
}

/// Law: a completion stamped for the timer a phase transition replaced is
/// stale against the replacement, so delivering it changes nothing.
pub proof fn lemma_stale_after_replacement(
    pre: Controller,
    post: Controller,
    eff: TimerEffect,
    now: u64,
    stamp: u64,
)
    requires
        next_rel(pre, post, eff, now),
        stamp <= pre.timer.epoch,
    ensures
        post.timer.spec_complete(stamp) == post.timer,
{
}

} // verus!
