//! Laws of the timer, stated over the model that every transition of the
//! engine is held to.

use crate::command::Command;
use crate::model::TimerModel;
use crate::phase::{Phase, RunState};
use vstd::prelude::*;

verus! {

/// The state after a run of ticks, handled one after the other.
pub open spec fn after_ticks(state: TimerModel, ticks: Seq<u64>) -> TimerModel
    decreases ticks.len(),
{
    if ticks.len() == 0 {
        state
    } else {
        after_ticks(state, ticks.drop_last()).tick(ticks.last())
    }
}

/// Whether some tick of the run completed a phase.
pub open spec fn some_tick_completes(state: TimerModel, ticks: Seq<u64>) -> bool
    decreases ticks.len(),
{
    if ticks.len() == 0 {
        false
    } else {
        some_tick_completes(state, ticks.drop_last()) || after_ticks(
            state,
            ticks.drop_last(),
        ).completes(ticks.last())
    }
}

/// Each timestamp is at least the one before it.
pub open spec fn nondecreasing(ticks: Seq<u64>) -> bool {
    forall|i: int, j: int| 0 <= i <= j < ticks.len() ==> ticks[i] <= ticks[j]
}

/// One tick on a running timer either completes the phase, which starts the
/// other phase with nothing elapsed, or leaves the elapsed time no smaller
/// than it was and below the interval. When it completes a phase that had
/// not yet reached its interval, the time counted goes beyond the interval
/// by less than what this one tick added.
pub proof fn lemma_tick_bounds(state: TimerModel, now: u64)
    requires
        state.wf(),
        state.is_running(),
    ensures
        state.completes(now) ==> {
            &&& state.tick(now).phase == state.phase.spec_other()
            &&& state.tick(now).elapsed == 0
        },
        !state.completes(now) ==> {
            &&& state.tick(now).phase == state.phase
            &&& state.tick(now).is_running()
            &&& state.elapsed <= state.tick(now).elapsed
            &&& state.tick(now).elapsed == state.elapsed + state.tick_delta(now)
        },
        state.tick(now).elapsed < state.tick(now).active_interval(),
        state.completes(now) && state.elapsed < state.active_interval() ==> state.accumulated(now)
            - state.active_interval() < state.tick_delta(now),
{
}

/// A tick whose timestamp lies before the last counted one leaves the
/// elapsed time as it is, unless the interval has been reached already.
pub proof fn lemma_backwards_tick_adds_nothing(state: TimerModel, last_tick: u64, now: u64)
    requires
        state.wf(),
        state.run_state == (RunState::Running { last_tick }),
        now < last_tick,
        state.elapsed < state.active_interval(),
    ensures
        state.tick(now) == state,
{
}

/// Over a run of ticks on a timer, as long as no tick completes a phase,
/// the timer stays in its phase and the elapsed time never gets smaller;
/// after every tick of a running timer it lies below the interval.
pub proof fn lemma_ticks_monotonic(state: TimerModel, ticks: Seq<u64>)
    requires
        state.wf(),
        state.is_running(),
    ensures
        after_ticks(state, ticks).wf(),
        after_ticks(state, ticks).settings == state.settings,
        !some_tick_completes(state, ticks) ==> {
            &&& after_ticks(state, ticks).is_running()
            &&& after_ticks(state, ticks).phase == state.phase
            &&& state.elapsed <= after_ticks(state, ticks).elapsed
            &&& ticks.len() > 0 ==> after_ticks(state, ticks).elapsed < state.active_interval()
        },
        forall|k: int|
            0 <= k <= ticks.len() && !some_tick_completes(state, ticks) ==> after_ticks(
                state,
                #[trigger] ticks.take(k),
            ).elapsed <= after_ticks(state, ticks).elapsed,
    decreases ticks.len(),
{
    if ticks.len() > 0 {
        let front = ticks.drop_last();
        lemma_ticks_monotonic(state, front);
        let before = after_ticks(state, front);
        if !some_tick_completes(state, ticks) {
            lemma_tick_bounds(before, ticks.last());
            assert forall|k: int| 0 <= k <= ticks.len() implies after_ticks(
                state,
                #[trigger] ticks.take(k),
            ).elapsed <= after_ticks(state, ticks).elapsed by {
                if k == ticks.len() {
                    assert(ticks.take(k) =~= ticks);
                } else {
                    assert(ticks.take(k) =~= front.take(k));
                }
            }
        }
    } else {
        assert forall|k: int| 0 <= k <= ticks.len() implies after_ticks(
            state,
            #[trigger] ticks.take(k),
        ).elapsed <= after_ticks(state, ticks).elapsed by {
            assert(ticks.take(k) =~= ticks);
        }
    }
}

/// With timestamps that never go back, starting at or after the last
/// counted tick, and no phase completing, the elapsed time after the run is
/// what it was plus the time from the last counted tick to the last
/// timestamp of the run.
pub proof fn lemma_ticks_accumulate(state: TimerModel, last_tick: u64, ticks: Seq<u64>)
    requires
        state.wf(),
        state.run_state == (RunState::Running { last_tick }),
        nondecreasing(ticks),
        ticks.len() > 0,
        last_tick <= ticks[0],
        !some_tick_completes(state, ticks),
    ensures
        after_ticks(state, ticks).elapsed == state.elapsed + (ticks.last() - last_tick),
        after_ticks(state, ticks).run_state == (RunState::Running { last_tick: ticks.last() }),
    decreases ticks.len(),
{
    let front = ticks.drop_last();
    if front.len() > 0 {
        assert(nondecreasing(front));
        assert(front[0] == ticks[0]);
        lemma_ticks_accumulate(state, last_tick, front);
        assert(front.last() == ticks[ticks.len() - 2]);
    }
    lemma_ticks_monotonic(state, front);
}

/// Starting an idle timer that has nothing elapsed and pausing it again
/// leaves it exactly as it was.
pub proof fn lemma_toggle_twice_from_idle(state: TimerModel, started: u64, paused: u64)
    requires
        state.run_state is Idle,
        state.elapsed == 0,
    ensures
        state.toggle(started).toggle(paused) == state,
{
}

/// Starting an idle timer and pausing it again gives an idle timer in the
/// same phase, with the same settings and nothing elapsed.
pub proof fn lemma_toggle_twice_is_idle(state: TimerModel, started: u64, paused: u64)
    requires
        state.run_state is Idle,
    ensures
        state.toggle(started).toggle(paused) == (TimerModel { elapsed: 0, ..state }),
{
}

/// Pausing keeps the elapsed time.
pub proof fn lemma_pause_keeps_elapsed(state: TimerModel, now: u64)
    requires
        state.is_running(),
    ensures
        state.toggle(now).run_state is Idle,
        state.toggle(now).elapsed == state.elapsed,
{
}

/// A reset always gives an idle timer with nothing elapsed, in the phase
/// and with the settings it had.
pub proof fn lemma_reset(state: TimerModel)
    ensures
        state.reset().elapsed == 0,
        state.reset().run_state is Idle,
        state.reset().phase == state.phase,
        state.reset().settings == state.settings,
        state.reset().reset() == state.reset(),
{
}

/// Switching the phase flips it exactly once and leaves nothing elapsed;
/// switching twice comes back to the phase it began in.
pub proof fn lemma_switch_phase(state: TimerModel)
    ensures
        state.switch_phase().phase != state.phase,
        state.switch_phase().phase == state.phase.spec_other(),
        state.switch_phase().elapsed == 0,
        state.switch_phase().run_state is Idle,
        state.switch_phase().active_interval() == state.settings.spec_duration_of(
            state.phase.spec_other(),
        ),
        state.switch_phase().switch_phase().phase == state.phase,
{
}

/// Changing the length of the phase that is not the current one leaves the
/// interval of the current phase as it is; changing the length of the
/// current phase changes the interval at once.
pub proof fn lemma_duration_change(state: TimerModel, duration: u64)
    ensures
        state.phase == Phase::Break ==> state.set_work_duration(duration).active_interval()
            == state.active_interval(),
        state.phase == Phase::Work ==> state.set_break_duration(duration).active_interval()
            == state.active_interval(),
        state.phase == Phase::Work ==> state.set_work_duration(duration).active_interval()
            == duration,
        state.phase == Phase::Break ==> state.set_break_duration(duration).active_interval()
            == duration,
{
}

/// Every command keeps well-formed settings well formed, and only the
/// commands that set something change the settings at all.
pub proof fn lemma_step_preserves_wf(state: TimerModel, command: Command, now: u64)
    requires
        state.wf(),
        command.wf(),
    ensures
        state.step(command, now).wf(),
        !command.changes_settings() ==> state.step(command, now).settings == state.settings,
        state.step(Command::ToggleSettingsPanel, now) == state,
{
}

} // verus!
