//! The selector: roll a six-sided die (zero-indexed) to pick the next
//! activity and its duration, then draw one task by weighted random
//! sampling over the candidates' urgency.
//!
//! A roll of zero is the break sentinel — worth one-in-six odds of a fixed
//! ten-minute rest — unless a break is already running, in which case it is
//! re-read as the minimum work bucket so breaks never chain by themselves.
//! Any other roll buys `roll * 10` minutes of work, capped by the chosen
//! task's declared estimate.

use vstd::prelude::*;
use rand::seq::IndexedRandom;
use crate::activity::Activity;
use crate::error::RunError;
use crate::task::Task;
use crate::time::{Timer, MAX_SECS};

verus! {

/// Nominal length of a break, in seconds (ten minutes).
pub const BREAK_SECS: i64 = 600;

/// Seconds of work bought by each point of the die (ten minutes).
pub const WORK_UNIT_SECS: i64 = 600;

/// The sum of the candidates' urgency weights.
pub open spec fn spec_sum_urgency(s: Seq<Task>) -> int
    decreases s.len(),
{
    if s.len() == 0 {
        0
    } else {
        spec_sum_urgency(s.drop_last()) + s.last().urgency
    }
}

/// Whether any candidate carries a positive weight.
pub open spec fn has_positive_weight(s: Seq<Task>) -> bool {
    exists|i: int| 0 <= i < s.len() && s[i].urgency > 0
}

/// Whether a weighted draw over the candidates can succeed: some weight is
/// positive and the weights can be summed in a machine word.
pub open spec fn selectable(s: Seq<Task>) -> bool {
    has_positive_weight(s) && spec_sum_urgency(s) <= u64::MAX
}

/// The target work duration bought by a roll: `max(roll, 1)` work units.
pub open spec fn spec_target_secs(roll: u8) -> int {
    if roll < 1 {
        WORK_UNIT_SECS as int
    } else {
        roll * (WORK_UNIT_SECS as int)
    }
}

/// The length of a work session on `t` against a rolled target: the
/// declared estimate caps the target; without an estimate the target
/// stands as it is.
pub open spec fn spec_work_length(t: Task, target: int) -> int {
    match t.estimate {
        Some(e) => if e <= target { e as int } else { target },
        None => target,
    }
}

/// What a selection for a given roll must produce.
///
/// Roll zero while not on a break yields the fixed-length break. Every
/// other case is a work pick: it succeeds exactly when the candidates admit
/// a weighted draw, the chosen task is a positive-weight candidate, the
/// session starts at `now`, and its planned and original lengths are both
/// the estimate-capped target. Failure is always `SelectionFailure`.
pub open spec fn selection_ok(
    now: int,
    roll: u8,
    on_break: bool,
    tasks: Seq<Task>,
    r: Result<Activity, RunError>,
) -> bool {
    if roll == 0 && !on_break {
        r == Ok::<Activity, RunError>(Activity::OnBreak {
            timer: Timer {
                started_at: now as i64,
                planned_length: BREAK_SECS,
                original_length: BREAK_SECS,
            },
        })
    } else {
        &&& (r is Ok <==> selectable(tasks))
        &&& (r matches Ok(a) ==> {
            &&& a is Working
            &&& exists|i: int|
                0 <= i < tasks.len() && a->Working_task == tasks[i] && tasks[i].urgency > 0
            &&& a->Working_timer.started_at == now
            &&& a->Working_timer.planned_length == spec_work_length(
                a->Working_task,
                spec_target_secs(roll),
            )
            &&& a->Working_timer.original_length == a->Working_timer.planned_length
        })
        &&& (r is Err ==> r == Err::<Activity, RunError>(RunError::SelectionFailure))
    }
}

/// Weighted selection over a two-task candidate set, when a work pick was
/// asked: with weights ten and zero it always picks the first task, and
/// with two zero weights it always fails with `SelectionFailure`.
pub proof fn lemma_two_task_weights(
    now: int,
    roll: u8,
    on_break: bool,
    tasks: Seq<Task>,
    r: Result<Activity, RunError>,
)
    requires
        tasks.len() == 2,
        !(roll == 0 && !on_break),
        selection_ok(now, roll, on_break, tasks, r),
    ensures
        tasks[0].urgency == 10 && tasks[1].urgency == 0 ==> (r matches Ok(a)
            && a->Working_task == tasks[0]),
        tasks[0].urgency == 0 && tasks[1].urgency == 0 ==> r == Err::<Activity, RunError>(
            RunError::SelectionFailure,
        ),
{
    let dl = tasks.drop_last();
    assert(dl.len() == 1);
    assert(dl.drop_last() =~= Seq::<Task>::empty());
    assert(spec_sum_urgency(dl.drop_last()) == 0);
    assert(dl.last() == tasks[0]);
    assert(spec_sum_urgency(dl) == tasks[0].urgency);
    assert(tasks.last() == tasks[1]);
    assert(spec_sum_urgency(tasks) == tasks[0].urgency + tasks[1].urgency);
}

/// Relies on rand's `IndexedRandom::choose_weighted` over the tasks'
/// urgency weights: it samples one element with probability proportional
/// to its weight, a zero-weight element is never returned, and it reports
/// an error exactly when the slice is empty, every weight is zero, or the
/// weights' sum overflows. Nothing is assumed about which positive-weight
/// element comes back.
#[verifier::external_body]
fn choose_weighted_by_urgency(tasks: &Vec<Task>) -> (r: Option<Task>)
    ensures
        (r is Some) == selectable(tasks@),
        r matches Some(t) ==> exists|i: int|
            0 <= i < tasks@.len() && t == tasks@[i] && tasks@[i].urgency > 0,
{
    let mut rng = rand::rng();
    match tasks.as_slice().choose_weighted(&mut rng, |t| t.urgency) {
        Ok(t) => Some(t.clone()),
        Err(_) => None,
    }
}

/// Relies on rand's `random_range` over `0..=5`: one uniformly distributed
/// value of the zero-indexed six-sided die. Nothing beyond its range is
/// assumed of the outcome.
#[verifier::external_body]
fn roll_die() -> (r: u8)
    ensures
        r <= 5,
{
    rand::random_range(0..=5u8)
}

/// The work-pick transition for a known roll and a known draw outcome:
/// what a selection does once the weighted draw has returned `chosen`.
/// Deterministic, so a caller that supplies the draw gets the session
/// pinned exactly.
pub fn select_work_pick(now: i64, roll: u8, chosen: Task) -> (a: Activity)
    requires
        0 <= now <= MAX_SECS,
        roll <= 5,
        chosen.wf(),
    ensures
        a.wf(),
        a is Working,
        a->Working_task == chosen,
        a->Working_timer.started_at == now,
        a->Working_timer.planned_length == spec_work_length(chosen, spec_target_secs(roll)),
        a->Working_timer.original_length == a->Working_timer.planned_length,
{
    let target: i64 = if roll < 1 {
        WORK_UNIT_SECS
    } else {
        (roll as i64) * WORK_UNIT_SECS
    };
    let length: i64 = match chosen.estimate {
        Some(e) => if e <= target {
            e
        } else {
            target
        },
        None => target,
    };
    Activity::Working { timer: Timer::new(now, length), task: chosen }
}

/// Select the next activity for a known roll of the die.
pub fn select_with_roll(now: i64, roll: u8, on_break: bool, tasks: &Vec<Task>) -> (r: Result<
    Activity,
    RunError,
>)
    requires
        0 <= now <= MAX_SECS,
        roll <= 5,
        forall|i: int| 0 <= i < tasks@.len() ==> (#[trigger] tasks@[i]).wf(),
    ensures
        selection_ok(now as int, roll, on_break, tasks@, r),
        r matches Ok(a) ==> a.wf() && !(a is Nothing),
{
    if roll == 0 && !on_break {
        Ok(Activity::OnBreak { timer: Timer::new(now, BREAK_SECS) })
    } else {
        match choose_weighted_by_urgency(tasks) {
            Some(task) => Ok(select_work_pick(now, roll, task)),
            None => Err(RunError::SelectionFailure),
        }
    }
}

/// Roll the die and select the next activity.
///
/// Whatever the die shows: a break comes back only when none is running,
/// always with its fixed length; a work session starts at `now` on a
/// positive-weight candidate with its planned length equal to its original
/// length; and the only failure is `SelectionFailure`, exactly when no
/// weighted draw over the candidates can succeed and a work pick was asked.
pub fn select(now: i64, on_break: bool, tasks: &Vec<Task>) -> (r: Result<Activity, RunError>)
    requires
        0 <= now <= MAX_SECS,
        forall|i: int| 0 <= i < tasks@.len() ==> (#[trigger] tasks@[i]).wf(),
    ensures
        exists|roll: u8| roll <= 5 && selection_ok(now as int, roll, on_break, tasks@, r),
        r matches Ok(a) ==> a.wf() && !(a is Nothing),
        on_break ==> !(r matches Ok(a) && a is OnBreak),
        r matches Ok(a) ==> (a is OnBreak ==> a->OnBreak_timer == (Timer {
            started_at: now,
            planned_length: BREAK_SECS,
            original_length: BREAK_SECS,
        })),
        !selectable(tasks@) ==> !(r matches Ok(a) && a is Working),
        r is Err ==> r == Err::<Activity, RunError>(RunError::SelectionFailure)
            && !selectable(tasks@),
{
    let roll = roll_die();
    let r = select_with_roll(now, roll, on_break, tasks);
    proof {
        assert(selection_ok(now as int, roll, on_break, tasks@, r));
    }
    r
}

} // verus!

