//! Laws of the monitor over whole sequences of polls: a run model that folds
//! the single-step transition over a sequence of (position, time) samples,
//! and proofs that idle periods notify exactly once, that observed movement
//! resets the idle timer, and that the threshold comparison is strict.

use vstd::prelude::*;

use crate::monitor::{Monitor, Position, step_moves, step_notifies, step_state};

verus! {

/// The monitor's state after a whole sequence of polls, each a sampled
/// position paired with its time, applied in order.
pub open spec fn run_state(m: Monitor, polls: Seq<(Position, u64)>) -> Monitor
    decreases polls.len(),
{
    if polls.len() == 0 {
        m
    } else {
        run_state(step_state(m, polls[0].0, polls[0].1), polls.drop_first())
    }
}

/// How many inactivity notifications a whole sequence of polls emits.
pub open spec fn run_notifications(m: Monitor, polls: Seq<(Position, u64)>) -> nat
    decreases polls.len(),
{
    if polls.len() == 0 {
        0
    } else {
        (if step_notifies(m, polls[0].0, polls[0].1) {
            1nat
        } else {
            0nat
        }) + run_notifications(step_state(m, polls[0].0, polls[0].1), polls.drop_first())
    }
}

/// Once idle, polls that show no movement emit nothing and change nothing:
/// a second notification can only follow renewed activity.
pub proof fn lemma_idle_stays_silent(m: Monitor, polls: Seq<(Position, u64)>)
    requires
        !m.is_active,
        forall|i: int| 0 <= i < polls.len() ==> (#[trigger] polls[i]).0 == m.last_position,
    ensures
        run_state(m, polls) == m,
        run_notifications(m, polls) == 0,
    decreases polls.len(),
{
    if polls.len() > 0 {
        assert(step_state(m, polls[0].0, polls[0].1) == m);
        assert(forall|i: int|
            0 <= i < polls.drop_first().len() ==> (#[trigger] polls.drop_first()[i]).0
                == m.last_position);
        lemma_idle_stays_silent(m, polls.drop_first());
    }
}

/// While the pointer stays put and no poll falls strictly past the threshold,
/// the monitor emits nothing and changes nothing, whatever its current state.
/// In particular, elapsed time exactly equal to the threshold does not count
/// as idle.
pub proof fn lemma_within_threshold_stays_silent(m: Monitor, polls: Seq<(Position, u64)>)
    requires
        forall|i: int| 0 <= i < polls.len() ==> (#[trigger] polls[i]).0 == m.last_position,
        forall|i: int|
            0 <= i < polls.len() ==> (#[trigger] polls[i]).1 <= m.last_activity
                + m.idle_threshold,
    ensures
        run_state(m, polls) == m,
        run_notifications(m, polls) == 0,
    decreases polls.len(),
{
    if polls.len() > 0 {
        assert(step_state(m, polls[0].0, polls[0].1) == m);
        assert(forall|i: int|
            0 <= i < polls.drop_first().len() ==> (#[trigger] polls.drop_first()[i]).0
                == m.last_position);
        assert(forall|i: int|
            0 <= i < polls.drop_first().len() ==> (#[trigger] polls.drop_first()[i]).1
                <= m.last_activity + m.idle_threshold);
        lemma_within_threshold_stays_silent(m, polls.drop_first());
    }
}

/// An active monitor that never sees the pointer move emits exactly one
/// inactivity notification as soon as some poll falls strictly past the
/// threshold, and none thereafter: one notification per idle period.
pub proof fn lemma_constant_position_notifies_once(m: Monitor, polls: Seq<(Position, u64)>)
    requires
        m.is_active,
        forall|i: int| 0 <= i < polls.len() ==> (#[trigger] polls[i]).0 == m.last_position,
        exists|i: int|
            0 <= i < polls.len() && (#[trigger] polls[i]).1 > m.last_activity + m.idle_threshold,
    ensures
        run_notifications(m, polls) == 1,
        !run_state(m, polls).is_active,
        run_state(m, polls).last_position == m.last_position,
    decreases polls.len(),
{
    let m1 = step_state(m, polls[0].0, polls[0].1);
    assert(forall|i: int|
        0 <= i < polls.drop_first().len() ==> (#[trigger] polls.drop_first()[i]).0
            == m.last_position);
    if polls[0].1 > m.last_activity + m.idle_threshold {
        assert(step_notifies(m, polls[0].0, polls[0].1));
        lemma_idle_stays_silent(m1, polls.drop_first());
    } else {
        assert(m1 == m);
        let j = choose|i: int|
            0 <= i < polls.len() && (#[trigger] polls[i]).1 > m.last_activity + m.idle_threshold;
        assert(polls.drop_first()[j - 1] == polls[j]);
        lemma_constant_position_notifies_once(m, polls.drop_first());
    }
}

/// After the polls taken so far, the numbered poll either shows movement or
/// falls within the threshold measured from the monitor's last activity at
/// that point.
pub open spec fn poll_moves_or_in_time(m: Monitor, polls: Seq<(Position, u64)>, i: int) -> bool {
    step_moves(run_state(m, polls.take(i)), polls[i].0) || polls[i].1 <= run_state(
        m,
        polls.take(i),
    ).last_activity + m.idle_threshold
}

/// Movement resets the idle timer: as long as every poll either shows a
/// changed position or comes within the threshold of the most recent
/// activity, the monitor never notifies and stays active indefinitely.
pub proof fn lemma_movement_resets_timer(m: Monitor, polls: Seq<(Position, u64)>)
    requires
        m.is_active,
        forall|i: int| 0 <= i < polls.len() ==> #[trigger] poll_moves_or_in_time(m, polls, i),
    ensures
        run_notifications(m, polls) == 0,
        run_state(m, polls).is_active,
    decreases polls.len(),
{
    if polls.len() > 0 {
        assert(polls.take(0) =~= Seq::<(Position, u64)>::empty());
        assert(poll_moves_or_in_time(m, polls, 0));
        let m1 = step_state(m, polls[0].0, polls[0].1);
        assert(!step_notifies(m, polls[0].0, polls[0].1));
        assert(m1.is_active);
        assert(m1.idle_threshold == m.idle_threshold);
        assert forall|i: int|
            0 <= i < polls.drop_first().len() implies #[trigger] poll_moves_or_in_time(
            m1,
            polls.drop_first(),
            i,
        ) by {
            assert(poll_moves_or_in_time(m, polls, i + 1));
            assert(polls.drop_first()[i] == polls[i + 1]);
            assert(polls.take(i + 1)[0] == polls[0]);
            assert(polls.take(i + 1).drop_first() =~= polls.drop_first().take(i));
            assert(run_state(m, polls.take(i + 1)) == run_state(m1, polls.drop_first().take(i)));
        };
        lemma_movement_resets_timer(m1, polls.drop_first());
    }
}

/// Re-activation is idempotent: from any state, however many notifications
/// came before, one poll that shows movement followed by polls at the new
/// position emits exactly one notification for the fresh idle period, as soon
/// as one of those polls falls strictly past the threshold measured from the
/// movement's time.
pub proof fn lemma_reactivation_notifies_once(
    m: Monitor,
    first: (Position, u64),
    rest: Seq<(Position, u64)>,
)
    requires
        first.0 != m.last_position,
        forall|i: int| 0 <= i < rest.len() ==> (#[trigger] rest[i]).0 == first.0,
        exists|i: int| 0 <= i < rest.len() && (#[trigger] rest[i]).1 > first.1 + m.idle_threshold,
    ensures
        run_notifications(m, seq![first] + rest) == 1,
        !run_state(m, seq![first] + rest).is_active,
{
    let polls = seq![first] + rest;
    assert(polls[0] == first);
    assert(polls.drop_first() =~= rest);
    let m1 = step_state(m, first.0, first.1);
    assert(step_moves(m, first.0));
    assert(!step_notifies(m, first.0, first.1));
    assert(m1.is_active && m1.last_position == first.0 && m1.last_activity == first.1
        && m1.idle_threshold == m.idle_threshold);
    lemma_constant_position_notifies_once(m1, rest);
}

/// The threshold comparison is strict: with the pointer unmoved, elapsed time
/// exactly equal to the threshold triggers nothing, while one tick past it
/// flips an active monitor to idle and emits the notification.
pub proof fn lemma_threshold_boundary(m: Monitor, at_threshold: u64, past_threshold: u64)
    requires
        m.is_active,
        at_threshold == m.last_activity + m.idle_threshold,
        past_threshold == m.last_activity + m.idle_threshold + 1,
    ensures
        !step_notifies(m, m.last_position, at_threshold),
        step_state(m, m.last_position, at_threshold) == m,
        step_notifies(m, m.last_position, past_threshold),
        !step_state(m, m.last_position, past_threshold).is_active,
{
}

} // verus!
