//! The decisions of a paced serial stream.
//!
//! A paced stream keeps a moment of silence between traffic in one direction
//! and the next operation in the other: after a write (or flush) completes, a
//! read-paced stream holds the next read back until `delay` has passed; after
//! a read completes, a write-paced stream holds the next write or flush back.
//!
//! The `Pacer` below is that policy as a state machine. The code that owns the
//! stream and the timer feeds it events (an operation begins, the timer or the
//! stream answered) and performs the action it returns (poll the timer, poll
//! the stream, answer pending, hand back the stream's result). Whenever the
//! pacer's deadline moves, the timer is reset to the new deadline.
use vstd::prelude::*;
use crate::time::{Moment, Span, NANOS_PER_MILLI};

verus! {

/// Which direction waits for which.
#[derive(Clone, Copy, Debug, PartialEq, Eq, Structural)]
pub enum Direction {
    /// Reads wait for `delay` after the last completed write or flush.
    ReadAfterWrite,
    /// Writes and flushes wait for `delay` after the last completed read.
    WriteAfterRead,
}

/// An operation on the underlying stream.
#[derive(Clone, Copy, Debug, PartialEq, Eq, Structural)]
pub enum Operation {
    Read,
    Write,
    Flush,
    Shutdown,
}

/// What the driving code observed.
#[derive(Clone, Copy, Debug, PartialEq, Eq, Structural)]
pub enum Event {
    /// An operation is polled, at the given moment.
    Begin(Operation, Moment),
    /// The timer was polled and has not reached its deadline.
    TimerPending,
    /// The timer was polled and has reached its deadline.
    TimerElapsed,
    /// The stream was polled for the operation and is not ready.
    InnerPending,
    /// The stream completed the operation (successfully or with an error),
    /// observed at the given moment.
    InnerReady(Operation, Moment),
}

/// What the driving code is to do next.
#[derive(Clone, Copy, Debug, PartialEq, Eq, Structural)]
pub enum Action {
    /// Poll the timer, which is set to the pacer's deadline.
    PollTimer,
    /// Poll the underlying stream for the operation.
    PollInner,
    /// Answer that the operation is pending.
    ReturnPending,
    /// Answer with the result that the stream gave.
    ReturnInnerResult,
}

/// The state of a pacer: its direction, the moment until which guarded
/// operations wait (in nanoseconds), and the delay used when it is re-armed.
pub struct PacerView {
    pub direction: Direction,
    pub deadline: int,
    pub delay: int,
}

/// One millisecond before `now`, or `now` itself where the clock cannot
/// count back that far.
pub open spec fn past_nanos(now: int) -> int {
    if now >= NANOS_PER_MILLI {
        now - NANOS_PER_MILLI
    } else {
        now
    }
}

impl PacerView {
    /// A pacer made at `now`: its deadline is already in the past, so the
    /// first operation does not wait, and its delay is zero.
    pub open spec fn fresh(direction: Direction, now: int) -> PacerView {
        PacerView { direction, deadline: past_nanos(now), delay: 0 }
    }

    /// Operations that wait for the deadline.
    pub open spec fn guards(self, op: Operation) -> bool {
        match self.direction {
            Direction::ReadAfterWrite => op == Operation::Read,
            Direction::WriteAfterRead => op == Operation::Write || op == Operation::Flush,
        }
    }

    /// Operations whose completion moves the deadline to `delay` later.
    pub open spec fn arms(self, op: Operation) -> bool {
        match self.direction {
            Direction::ReadAfterWrite => op == Operation::Write || op == Operation::Flush,
            Direction::WriteAfterRead => op == Operation::Read,
        }
    }

    /// The state with the delay replaced.
    pub open spec fn with_delay(self, delay: int) -> PacerView {
        PacerView { delay, ..self }
    }

    /// The state after the stream completed `op` at `now`.
    pub open spec fn completed(self, op: Operation, now: int) -> PacerView {
        if self.arms(op) {
            PacerView { deadline: now + self.delay, ..self }
        } else {
            self
        }
    }

    /// The first action for `op` polled at `now`: wait on the timer while a
    /// guarded operation's deadline has not passed, else go to the stream.
    pub open spec fn begin(self, op: Operation, now: int) -> Action {
        if self.guards(op) && self.deadline >= now {
            Action::PollTimer
        } else {
            Action::PollInner
        }
    }

    /// Whether the pacer can take `event`: re-arming must not take the
    /// deadline past the end of the clock.
    pub open spec fn accepts(self, event: Event) -> bool {
        match event {
            Event::InnerReady(op, now) => self.arms(op) ==> now.nanos + self.delay <= u128::MAX,
            _ => true,
        }
    }

    /// The state after taking `events` in order.
    pub open spec fn after(self, events: Seq<Event>) -> PacerView
        decreases events.len(),
    {
        if events.len() == 0 {
            self
        } else {
            self.next(events[0]).0.after(events.drop_first())
        }
    }

    /// The next state and the action for `event`.
    pub open spec fn next(self, event: Event) -> (PacerView, Action) {
        match event {
            Event::Begin(op, now) => (self, self.begin(op, now.nanos as int)),
            Event::TimerPending => (self, Action::ReturnPending),
            Event::TimerElapsed => (self, Action::PollInner),
            Event::InnerPending => (self, Action::ReturnPending),
            Event::InnerReady(op, now) => (
                self.completed(op, now.nanos as int),
                Action::ReturnInnerResult,
            ),
        }
    }
}

/// One millisecond before `now`, or `now` where that lies before the clock's
/// origin. A fresh pacer's deadline, so that its timer has already expired.
pub fn past(now: Moment) -> (earlier: Moment)
    ensures
        earlier.nanos == past_nanos(now.nanos as int),
{
    match now.checked_sub(Span::from_millis(1)) {
        Some(earlier) => earlier,
        None => now,
    }
}

/// Setting the delay of a paced stream, which is zero until it is set.
pub trait SerialPacing {
    /// Set the delay that the stream waits after traffic in one direction
    /// before the next operation in the other.
    fn set_delay(&mut self, delay: Span);
}

/// The pacing state machine of one stream.
#[derive(Debug)]
pub struct Pacer {
    direction: Direction,
    deadline: Moment,
    delay: Span,
}

impl View for Pacer {
    type V = PacerView;

    closed spec fn view(&self) -> PacerView {
        PacerView {
            direction: self.direction,
            deadline: self.deadline.nanos as int,
            delay: self.delay.nanos as int,
        }
    }
}

impl Pacer {
    /// A pacer made at `now`, with zero delay and a deadline in the past.
    pub fn new(direction: Direction, now: Moment) -> (pacer: Pacer)
        ensures
            pacer@ == PacerView::fresh(direction, now.nanos as int),
    {
        Pacer { direction, deadline: past(now), delay: Span::zero() }
    }

    /// The direction of this pacer.
    pub fn direction(&self) -> (direction: Direction)
        ensures
            direction == self@.direction,
    {
        self.direction
    }

    /// The moment until which guarded operations wait; the timer is set to it.
    pub fn deadline(&self) -> (deadline: Moment)
        ensures
            deadline.nanos == self@.deadline,
    {
        self.deadline
    }

    /// The delay used when the pacer is re-armed.
    pub fn delay(&self) -> (delay: Span)
        ensures
            delay.nanos == self@.delay,
    {
        self.delay
    }

    /// Whether the pacer can take `event` (see `PacerView::accepts`).
    pub fn accepts(&self, event: Event) -> (ok: bool)
        ensures
            ok == self@.accepts(event),
    {
        match event {
            Event::InnerReady(op, now) => {
                !self.arms(op) || now.checked_add(self.delay).is_some()
            },
            _ => true,
        }
    }

    /// Whether completing `op` moves the deadline.
    pub fn arms(&self, op: Operation) -> (arms: bool)
        ensures
            arms == self@.arms(op),
    {
        match self.direction {
            Direction::ReadAfterWrite => op == Operation::Write || op == Operation::Flush,
            Direction::WriteAfterRead => op == Operation::Read,
        }
    }

    /// Whether `op` waits for the deadline.
    pub fn guards(&self, op: Operation) -> (guards: bool)
        ensures
            guards == self@.guards(op),
    {
        match self.direction {
            Direction::ReadAfterWrite => op == Operation::Read,
            Direction::WriteAfterRead => op == Operation::Write || op == Operation::Flush,
        }
    }

    /// Take `event`: update the state and say what to do next.
    pub fn handle(&mut self, event: Event) -> (action: Action)
        requires
            old(self)@.accepts(event),
        ensures
            (final(self)@, action) == old(self)@.next(event),
    {
        match event {
            Event::Begin(op, now) => {
                if self.guards(op) && self.deadline.nanos >= now.nanos {
                    Action::PollTimer
                } else {
                    Action::PollInner
                }
            },
            Event::TimerPending => Action::ReturnPending,
            Event::TimerElapsed => Action::PollInner,
            Event::InnerPending => Action::ReturnPending,
            Event::InnerReady(op, now) => {
                if self.arms(op) {
                    self.deadline = Moment { nanos: now.nanos + self.delay.nanos };
                }
                Action::ReturnInnerResult
            },
        }
    }
}

impl SerialPacing for Pacer {
    /// Set the delay; the deadline and direction stay as they are.
    fn set_delay(&mut self, delay: Span)
        ensures
            final(self)@ == old(self)@.with_delay(delay.nanos as int),
    {
        self.delay = delay;
    }
}

} // verus!
