//! Properties of the wait-time computation and of the pacing state machine
//! that hold for every input, proved over the models that the executable
//! functions' contracts use.
use vstd::prelude::*;
use vstd::arithmetic::div_mod::{
    lemma_div_is_ordered, lemma_div_is_ordered_by_denominator, lemma_fundamental_div_mod,
    lemma_mod_pos_bound,
};
use crate::line::{
    effective_baud_rate, frame_bits, inter_frame_micros, DataBits, LineSettings, Parity, StopBits,
};
use crate::pacing::{Action, Direction, Event, Operation, PacerView};
use crate::time::Moment;

verus! {

// ---------------------------------------------------------------------------
// Wait time
// ---------------------------------------------------------------------------

/// A character takes between 6 bits (5N1) and 11 bits (8 data, 2 stop,
/// parity) on the line.
pub proof fn lemma_frame_bits_bounds(settings: LineSettings)
    ensures
        6 <= frame_bits(settings) <= 11,
{
}

/// The shortest character, 5 data bits, one stop bit and no parity, is six
/// bits long at any baud rate.
pub proof fn lemma_five_n_one_is_six_bits(settings: LineSettings)
    requires
        settings.data_bits == Some(DataBits::Five),
        settings.stop_bits == Some(StopBits::One),
        settings.parity == Some(Parity::Disabled),
    ensures
        frame_bits(settings) == 6,
{
}

/// Each step up in data bits adds exactly one bit to a character, whatever
/// the stop bits, parity and baud rate.
pub proof fn lemma_each_data_bit_counts_once(settings: LineSettings)
    ensures
        frame_bits(LineSettings { data_bits: Some(DataBits::Six), ..settings })
            == frame_bits(LineSettings { data_bits: Some(DataBits::Five), ..settings }) + 1,
        frame_bits(LineSettings { data_bits: Some(DataBits::Seven), ..settings })
            == frame_bits(LineSettings { data_bits: Some(DataBits::Six), ..settings }) + 1,
        frame_bits(LineSettings { data_bits: Some(DataBits::Eight), ..settings })
            == frame_bits(LineSettings { data_bits: Some(DataBits::Seven), ..settings }) + 1,
{
}

/// Two stop bits count exactly one bit more than one stop bit, whatever the
/// data bits, parity and baud rate.
pub proof fn lemma_second_stop_bit_counts_once(settings: LineSettings)
    ensures
        frame_bits(LineSettings { stop_bits: Some(StopBits::Two), ..settings })
            == frame_bits(LineSettings { stop_bits: Some(StopBits::One), ..settings }) + 1,
{
}

/// Even or odd parity adds exactly one bit to a character, whatever the data
/// and stop bits and baud rate.
pub proof fn lemma_parity_adds_one_bit(settings: LineSettings)
    ensures
        frame_bits(LineSettings { parity: Some(Parity::Even), ..settings })
            == frame_bits(LineSettings { parity: Some(Parity::Disabled), ..settings }) + 1,
        frame_bits(LineSettings { parity: Some(Parity::Odd), ..settings })
            == frame_bits(LineSettings { parity: Some(Parity::Disabled), ..settings }) + 1,
{
}

/// The baud rate does not change the length of a character.
pub proof fn lemma_frame_bits_ignore_baud_rate(settings: LineSettings, baud_rate: Option<u32>)
    ensures
        frame_bits(LineSettings { baud_rate, ..settings }) == frame_bits(settings),
{
}

/// Each setting that the port cannot report counts as its default on its
/// own, whatever the others are: 8 data bits, one stop bit, no parity, 9600
/// baud; a reported baud rate is used as it is.
pub proof fn lemma_unreported_setting_takes_its_default(settings: LineSettings)
    ensures
        frame_bits(LineSettings { data_bits: None, ..settings })
            == frame_bits(LineSettings { data_bits: Some(DataBits::Eight), ..settings }),
        frame_bits(LineSettings { stop_bits: None, ..settings })
            == frame_bits(LineSettings { stop_bits: Some(StopBits::One), ..settings }),
        frame_bits(LineSettings { parity: None, ..settings })
            == frame_bits(LineSettings { parity: Some(Parity::Disabled), ..settings }),
        inter_frame_micros(LineSettings { baud_rate: None, ..settings })
            == inter_frame_micros(LineSettings { baud_rate: Some(9600u32), ..settings }),
        settings.baud_rate is Some ==> effective_baud_rate(settings) == settings.baud_rate->0,
{
}

/// Every line faster than 19200 baud uses the fixed 1.75 ms delay, whatever
/// its framing.
pub proof fn lemma_fast_lines_use_fixed_delay(settings: LineSettings)
    requires
        effective_baud_rate(settings) > 19200,
    ensures
        inter_frame_micros(settings) == 1750,
{
}

/// On a line of at most 19200 baud the delay is 3.5 character times rounded
/// down to whole microseconds: it is the largest whole number of
/// microseconds that does not exceed 3.5 characters.
pub proof fn lemma_slow_line_delay_is_three_and_a_half_characters(settings: LineSettings)
    requires
        0 < effective_baud_rate(settings) <= 19200,
    ensures
        inter_frame_micros(settings) * effective_baud_rate(settings)
            <= 3_500_000 * frame_bits(settings),
        3_500_000 * frame_bits(settings)
            < (inter_frame_micros(settings) + 1) * effective_baud_rate(settings),
{
    let x: int = 3_500_000int * frame_bits(settings);
    let b: int = effective_baud_rate(settings) as int;
    let q: int = x / b;
    let r: int = x % b;
    lemma_fundamental_div_mod(x, b);
    lemma_mod_pos_bound(x, b);
    assert(q * b <= x < (q + 1) * b) by (nonlinear_arith)
        requires
            x == b * q + r,
            0 <= r < b,
    ;
}

/// At or below 19200 baud, a faster line never waits longer than a slower
/// one with the same framing.
pub proof fn lemma_slow_line_delay_shrinks_as_baud_grows(
    slower: LineSettings,
    faster: LineSettings,
)
    requires
        frame_bits(slower) == frame_bits(faster),
        0 < effective_baud_rate(slower) <= effective_baud_rate(faster),
        effective_baud_rate(faster) <= 19200,
    ensures
        inter_frame_micros(faster) <= inter_frame_micros(slower),
{
    let x: int = 3_500_000int * frame_bits(slower);
    lemma_div_is_ordered_by_denominator(
        x,
        effective_baud_rate(slower) as int,
        effective_baud_rate(faster) as int,
    );
}

/// At a given baud rate, a longer character never waits less.
pub proof fn lemma_delay_grows_with_frame_bits(shorter: LineSettings, longer: LineSettings)
    requires
        effective_baud_rate(shorter) == effective_baud_rate(longer),
        effective_baud_rate(shorter) > 0,
        frame_bits(shorter) <= frame_bits(longer),
    ensures
        inter_frame_micros(shorter) <= inter_frame_micros(longer),
{
    let b: int = effective_baud_rate(shorter) as int;
    if b <= 19200 {
        lemma_div_is_ordered(
            3_500_000int * frame_bits(shorter),
            3_500_000int * frame_bits(longer),
            b,
        );
    }
}

/// Settings that the port cannot report count as 8 data bits, one stop bit,
/// no parity, at 9600 baud: 3281 microseconds.
pub proof fn lemma_unreported_settings_count_as_8n1_at_9600()
    ensures
        ({
            let unknown = LineSettings {
                data_bits: None,
                stop_bits: None,
                parity: None,
                baud_rate: None,
            };
            let known = LineSettings {
                data_bits: Some(DataBits::Eight),
                stop_bits: Some(StopBits::One),
                parity: Some(Parity::Disabled),
                baud_rate: Some(9600u32),
            };
            &&& inter_frame_micros(unknown) == inter_frame_micros(known)
            &&& inter_frame_micros(unknown) == 3281
        }),
{
}

// ---------------------------------------------------------------------------
// Pacing
// ---------------------------------------------------------------------------

/// After an arming operation completes at `t0`, a guarded operation polled at
/// any `t` up to `t0 + delay` waits on the timer, and the timer's deadline is
/// `t0 + delay`: the silence lasts at least `delay`.
pub proof fn lemma_guarded_operation_waits_out_the_delay(
    state: PacerView,
    armed_by: Operation,
    done_at: Moment,
    op: Operation,
    polled_at: Moment,
)
    requires
        state.arms(armed_by),
        state.guards(op),
        done_at.nanos <= polled_at.nanos <= done_at.nanos + state.delay,
    ensures
        ({
            let (after, action) = state.next(Event::InnerReady(armed_by, done_at));
            &&& action == Action::ReturnInnerResult
            &&& after.deadline == done_at.nanos + state.delay
            &&& after.next(Event::Begin(op, polled_at)) == (after, Action::PollTimer)
        }),
{
}

/// Taking events whose completions are observed no earlier than `since`
/// keeps the direction and delay, and never moves the deadline below
/// `since + delay` once it is there.
pub proof fn lemma_events_keep_deadline_from(state: PacerView, since: int, events: Seq<Event>)
    requires
        state.deadline >= since + state.delay,
        forall|i: int|
            0 <= i < events.len() ==> match #[trigger] events[i] {
                Event::InnerReady(_, seen) => seen.nanos >= since,
                _ => true,
            },
    ensures
        state.after(events).direction == state.direction,
        state.after(events).delay == state.delay,
        state.after(events).deadline >= since + state.delay,
    decreases events.len(),
{
    if events.len() > 0 {
        let rest = events.drop_first();
        assert forall|i: int| 0 <= i < rest.len() implies match #[trigger] rest[i] {
            Event::InnerReady(_, seen) => seen.nanos >= since,
            _ => true,
        } by {
            assert(rest[i] == events[i + 1]);
        }
        lemma_events_keep_deadline_from(state.next(events[0]).0, since, rest);
    }
}

/// The silence after a completed arming operation is never cut short: with
/// the clock running forward, whatever events follow, a guarded operation
/// polled up to `delay` after the arming completed still waits on the timer.
pub proof fn lemma_silence_is_never_cut_short(
    state: PacerView,
    armed_by: Operation,
    done_at: Moment,
    events: Seq<Event>,
    op: Operation,
    polled_at: Moment,
)
    requires
        state.arms(armed_by),
        state.guards(op),
        forall|i: int|
            0 <= i < events.len() ==> match #[trigger] events[i] {
                Event::InnerReady(_, seen) => seen.nanos >= done_at.nanos,
                _ => true,
            },
        done_at.nanos <= polled_at.nanos <= done_at.nanos + state.delay,
    ensures
        state.next(Event::InnerReady(armed_by, done_at)).0.after(events).next(
            Event::Begin(op, polled_at),
        ).1 == Action::PollTimer,
{
    let armed = state.next(Event::InnerReady(armed_by, done_at)).0;
    lemma_events_keep_deadline_from(armed, done_at.nanos as int, events);
}

/// A guarded operation reaches the stream straight away only when its
/// deadline has passed; otherwise only after the timer reports its deadline
/// reached. A pending timer answers pending and changes nothing.
pub proof fn lemma_guarded_operation_reaches_stream_only_after_deadline(
    state: PacerView,
    op: Operation,
    now: Moment,
)
    requires
        state.guards(op),
    ensures
        state.next(Event::Begin(op, now)).1 == Action::PollInner ==> now.nanos > state.deadline,
        state.next(Event::TimerPending) == (state, Action::ReturnPending),
        state.next(Event::TimerElapsed) == (state, Action::PollInner),
{
}

/// Operations that the pacer does not guard are never delayed: a
/// write-paced stream reads at once, a read-paced stream writes and flushes at
/// once, and shutdown always goes straight to the stream.
pub proof fn lemma_unguarded_operations_never_wait(
    state: PacerView,
    op: Operation,
    now: Moment,
)
    ensures
        !state.guards(op) ==> state.next(Event::Begin(op, now)) == (state, Action::PollInner),
        state.direction == Direction::WriteAfterRead ==> !state.guards(Operation::Read),
        state.direction == Direction::ReadAfterWrite ==> !state.guards(Operation::Write)
            && !state.guards(Operation::Flush),
        !state.guards(Operation::Shutdown),
{
}

/// Once its deadline has passed, a pacer lets every operation through.
pub proof fn lemma_no_wait_after_deadline(state: PacerView, op: Operation, now: Moment)
    requires
        now.nanos > state.deadline,
    ensures
        state.next(Event::Begin(op, now)) == (state, Action::PollInner),
{
}

/// A fresh pacer has zero delay and lets the first operation through without
/// touching the timer, when made at least a millisecond after the clock's
/// origin.
pub proof fn lemma_fresh_pacer_does_not_wait(
    direction: Direction,
    made_at: Moment,
    op: Operation,
    polled_at: Moment,
)
    requires
        made_at.nanos >= 1_000_000,
        made_at.nanos <= polled_at.nanos,
    ensures
        PacerView::fresh(direction, made_at.nanos as int).delay == 0,
        PacerView::fresh(direction, made_at.nanos as int).next(Event::Begin(op, polled_at)).1
            == Action::PollInner,
{
}

/// Only the completion of an arming operation changes the pacer; every other
/// event leaves it as it was.
pub proof fn lemma_only_arming_completions_change_state(state: PacerView, event: Event)
    ensures
        state.next(event).0 == state || (match event {
            Event::InnerReady(op, _) => state.arms(op),
            _ => false,
        }),
        state.next(event).0.direction == state.direction,
        state.next(event).0.delay == state.delay,
{
}

/// A new delay leaves the current deadline alone and is the one used by the
/// next arming operation.
pub proof fn lemma_new_delay_applies_from_next_arming(
    state: PacerView,
    delay: int,
    armed_by: Operation,
    done_at: Moment,
)
    requires
        state.arms(armed_by),
    ensures
        state.with_delay(delay).deadline == state.deadline,
        state.with_delay(delay).next(Event::InnerReady(armed_by, done_at)).0.deadline
            == done_at.nanos + delay,
{
}

/// The two directions are mirror images: what one guards the other arms on,
/// and no operation both waits and arms in the same pacer.
pub proof fn lemma_directions_mirror(deadline: int, delay: int, op: Operation)
    ensures
        ({
            let reads_wait = PacerView { direction: Direction::ReadAfterWrite, deadline, delay };
            let writes_wait = PacerView { direction: Direction::WriteAfterRead, deadline, delay };
            &&& reads_wait.guards(op) == writes_wait.arms(op)
            &&& writes_wait.guards(op) == reads_wait.arms(op)
            &&& !(reads_wait.guards(op) && reads_wait.arms(op))
            &&& !(writes_wait.guards(op) && writes_wait.arms(op))
        }),
{
}

/// A pacer is made with the direction asked for and zero delay; its
/// deadline is one millisecond before the moment it was made, or that moment
/// itself when made within the clock's first millisecond.
pub proof fn lemma_fresh_pacer_state(direction: Direction, made_at: Moment)
    ensures
        PacerView::fresh(direction, made_at.nanos as int).direction == direction,
        PacerView::fresh(direction, made_at.nanos as int).delay == 0,
        made_at.nanos >= 1_000_000 ==> PacerView::fresh(
            direction,
            made_at.nanos as int,
        ).deadline + 1_000_000 == made_at.nanos,
        made_at.nanos < 1_000_000 ==> PacerView::fresh(
            direction,
            made_at.nanos as int,
        ).deadline == made_at.nanos,
{
}

/// Which operations wait and which ones re-arm, by direction: a read-paced
/// stream holds reads back and is re-armed by completed writes and flushes;
/// a write-paced stream holds writes and flushes back and is re-armed by
/// completed reads; shutdown neither waits nor re-arms.
pub proof fn lemma_which_operations_wait_and_arm(state: PacerView)
    ensures
        state.direction == Direction::ReadAfterWrite ==> {
            &&& state.guards(Operation::Read)
            &&& !state.guards(Operation::Write)
            &&& !state.guards(Operation::Flush)
            &&& !state.arms(Operation::Read)
            &&& state.arms(Operation::Write)
            &&& state.arms(Operation::Flush)
        },
        state.direction == Direction::WriteAfterRead ==> {
            &&& !state.guards(Operation::Read)
            &&& state.guards(Operation::Write)
            &&& state.guards(Operation::Flush)
            &&& state.arms(Operation::Read)
            &&& !state.arms(Operation::Write)
            &&& !state.arms(Operation::Flush)
        },
        !state.guards(Operation::Shutdown),
        !state.arms(Operation::Shutdown),
{
}

/// A guarded operation polled at or before the deadline waits on the timer,
/// and beginning an operation never changes the pacer.
pub proof fn lemma_guarded_operation_waits_until_deadline(
    state: PacerView,
    op: Operation,
    now: Moment,
)
    ensures
        state.next(Event::Begin(op, now)).0 == state,
        state.guards(op) && now.nanos <= state.deadline ==> state.next(Event::Begin(op, now)).1
            == Action::PollTimer,
{
}

/// Every completion, armed or not, is answered with the stream's own result.
/// A completed arming operation moves the deadline to `delay` after the
/// moment it completed; any other completion leaves the pacer as it was.
pub proof fn lemma_completion_hands_back_result(state: PacerView, op: Operation, now: Moment)
    ensures
        state.next(Event::InnerReady(op, now)).1 == Action::ReturnInnerResult,
        state.arms(op) ==> state.next(Event::InnerReady(op, now)).0 == (PacerView {
            deadline: now.nanos + state.delay,
            ..state
        }),
        !state.arms(op) ==> state.next(Event::InnerReady(op, now)).0 == state,
{
}

/// A stream that is not ready is answered pending, in either direction, and
/// the pacer is left as it was.
pub proof fn lemma_stream_not_ready_answers_pending(state: PacerView)
    ensures
        state.next(Event::InnerPending) == (state, Action::ReturnPending),
{
}

/// The pacer takes every event but the completion of an arming operation
/// whose re-armed deadline would pass the end of the clock.
pub proof fn lemma_accepted_events(state: PacerView, event: Event)
    ensures
        !(event is InnerReady) ==> state.accepts(event),
        (event matches Event::InnerReady(op, now) ==> (state.accepts(event) <==> (!state.arms(op)
            || now.nanos + state.delay <= u128::MAX))),
{
}

/// Setting the delay changes only the delay.
pub proof fn lemma_set_delay_changes_only_delay(state: PacerView, delay: int)
    ensures
        state.with_delay(delay).delay == delay,
        state.with_delay(delay).deadline == state.deadline,
        state.with_delay(delay).direction == state.direction,
{
}

} // verus!
