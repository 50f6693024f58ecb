//! Workout plans built around one expensive calculation.
//!
//! The calculation is slow: it announces itself and takes its time before it
//! gives its result, which is the intensity it was asked for. Waiting and
//! writing are left to the caller. The first three planners therefore hand
//! out the steps of a workout in order, with a step for each run of the slow
//! calculation, and the caller performs them one by one. The planners differ
//! in where and how often that step occurs, and their contracts give the
//! steps exactly.
//!
//! The last planner works through a [`Cacher`] around a calculation that the
//! caller passes in, slow part and all. It hands out the plan together with
//! the cache's record of the invocations it made. That record is the cache's
//! own and exists in proofs only, as the cache's own text explains.
use crate::cacher::Cacher;
use vstd::prelude::*;

verus! {

/// What to do today.
#[derive(Debug, Clone, Copy, PartialEq, Eq, Structural)]
pub enum Workout {
    /// Low intensity: push-ups first, sit-ups next.
    Strength { pushups: u32, situps: u32 },
    /// A day off.
    Rest,
    /// High intensity: a run, in minutes.
    Run { minutes: u32 },
}

/// Intensities below this get a strength workout.
pub const HIGH_INTENSITY: u32 = 25;

/// The random number that turns a high-intensity day into a day off.
pub const REST_NUMBER: u32 = 3;

/// `workout` is a plan for `intensity` and `random_number` whose counts all
/// come from `calculation` applied to `intensity`.
pub open spec fn plans<F: Fn(u32) -> u32>(
    calculation: F,
    intensity: u32,
    random_number: u32,
    workout: Workout,
) -> bool {
    if intensity < HIGH_INTENSITY {
        &&& workout is Strength
        &&& call_ensures(calculation, (intensity,), workout->pushups)
        &&& call_ensures(calculation, (intensity,), workout->situps)
    } else if random_number == REST_NUMBER {
        workout == Workout::Rest
    } else {
        &&& workout is Run
        &&& call_ensures(calculation, (intensity,), workout->minutes)
    }
}

/// `workout` uses a single result of the calculation wherever it needs one.
pub open spec fn reuses_one_result(workout: Workout) -> bool {
    workout is Strength ==> workout->pushups == workout->situps
}

/// One step of a workout as it is announced, in the order of performing.
#[derive(Debug, Clone, Copy, PartialEq, Eq, Structural)]
pub enum Step {
    /// Run the slow calculation for this intensity: say so, and wait for it.
    Calculate(u32),
    /// Announce this many push-ups.
    Pushups(u32),
    /// Announce this many sit-ups.
    Situps(u32),
    /// Announce a day off.
    Rest,
    /// Announce a run of this many minutes.
    Run(u32),
}

/// The steps of a workout whose every count comes from a run of its own of
/// the slow calculation: two runs for a strength workout, each right before
/// the count it gives, none for a day off, one for a run.
pub open spec fn steps_afresh(intensity: u32, random_number: u32) -> Seq<Step> {
    if intensity < HIGH_INTENSITY {
        seq![
            Step::Calculate(intensity),
            Step::Pushups(intensity),
            Step::Calculate(intensity),
            Step::Situps(intensity),
        ]
    } else if random_number == REST_NUMBER {
        seq![Step::Rest]
    } else {
        seq![Step::Calculate(intensity), Step::Run(intensity)]
    }
}

/// The steps of a workout that runs the slow calculation once, before
/// anything else and whether or not a count is needed: also on a day off.
pub open spec fn steps_up_front(intensity: u32, random_number: u32) -> Seq<Step> {
    if intensity < HIGH_INTENSITY {
        seq![Step::Calculate(intensity), Step::Pushups(intensity), Step::Situps(intensity)]
    } else if random_number == REST_NUMBER {
        seq![Step::Calculate(intensity), Step::Rest]
    } else {
        seq![Step::Calculate(intensity), Step::Run(intensity)]
    }
}

/// The keys that the caching planner asks its calculation for, in order: the
/// intensity, once, unless the day is a day off, which needs no count.
pub open spec fn invoked_through_cache(intensity: u32, random_number: u32) -> Seq<u32> {
    if intensity >= HIGH_INTENSITY && random_number == REST_NUMBER {
        Seq::empty()
    } else {
        seq![intensity]
    }
}

/// Runs the slow calculation for `intensity`: adds the step that stands for
/// the run to `steps`, and gives its result, the intensity itself.
pub fn simulated_expensive_calculation(steps: &mut Vec<Step>, intensity: u32) -> (result: u32)
    ensures
        final(steps)@ == old(steps)@.push(Step::Calculate(intensity)),
        result == intensity,
{
    steps.push(Step::Calculate(intensity));
    intensity
}

/// Plans a workout, running the slow calculation afresh wherever a count is
/// needed: twice for a strength workout, once for a run, never for a day off.
pub fn generate_workout_old1(intensity: u32, random_number: u32) -> (steps: Vec<Step>)
    ensures
        steps@ == steps_afresh(intensity, random_number),
{
    let mut steps: Vec<Step> = Vec::new();
    if intensity < HIGH_INTENSITY {
        let pushups = simulated_expensive_calculation(&mut steps, intensity);
        steps.push(Step::Pushups(pushups));
        let situps = simulated_expensive_calculation(&mut steps, intensity);
        steps.push(Step::Situps(situps));
    } else {
        if random_number == REST_NUMBER {
            steps.push(Step::Rest);
        } else {
            let minutes = simulated_expensive_calculation(&mut steps, intensity);
            steps.push(Step::Run(minutes));
        }
    }
    proof {
        assert(steps@ =~= steps_afresh(intensity, random_number));
    }
    steps
}

/// Plans a workout from one result of the slow calculation, which is run up
/// front, also on a day off that has no use for it.
pub fn generate_workout_old2(intensity: u32, random_number: u32) -> (steps: Vec<Step>)
    ensures
        steps@ == steps_up_front(intensity, random_number),
{
    let mut steps: Vec<Step> = Vec::new();
    let expensive_result = simulated_expensive_calculation(&mut steps, intensity);
    if intensity < HIGH_INTENSITY {
        steps.push(Step::Pushups(expensive_result));
        steps.push(Step::Situps(expensive_result));
    } else {
        if random_number == REST_NUMBER {
            steps.push(Step::Rest);
        } else {
            steps.push(Step::Run(expensive_result));
        }
    }
    proof {
        assert(steps@ =~= steps_up_front(intensity, random_number));
    }
    steps
}

/// Plans a workout through a closure that stands for the slow calculation:
/// each call of it gives the step for one run together with the result. The
/// closure is called wherever a count is needed, so the steps are those of
/// [`generate_workout_old1`].
pub fn generate_workout_old3(intensity: u32, random_number: u32) -> (steps: Vec<Step>)
    ensures
        steps@ == steps_afresh(intensity, random_number),
{
    let expensive_closure = |num: u32| -> (run: (Step, u32))
        ensures
            run.0 == Step::Calculate(num),
            run.1 == num,
        { (Step::Calculate(num), num) };

    let mut steps: Vec<Step> = Vec::new();
    if intensity < HIGH_INTENSITY {
        let (run, pushups) = expensive_closure(intensity);
        steps.push(run);
        steps.push(Step::Pushups(pushups));
        let (run, situps) = expensive_closure(intensity);
        steps.push(run);
        steps.push(Step::Situps(situps));
    } else {
        if random_number == REST_NUMBER {
            steps.push(Step::Rest);
        } else {
            let (run, minutes) = expensive_closure(intensity);
            steps.push(run);
            steps.push(Step::Run(minutes));
        }
    }
    proof {
        assert(steps@ =~= steps_afresh(intensity, random_number));
    }
    steps
}

/// Plans a workout through a [`Cacher`] around `calculation`: the calculation
/// is invoked at most once, with the intensity, and only when a count is
/// needed. Beside the plan stands the cache's record of its invocations.
pub fn generate_workout<F: Fn(u32) -> u32>(
    calculation: F,
    intensity: u32,
    random_number: u32,
) -> (planned: (Workout, Ghost<Seq<u32>>))
    requires
        invoked_through_cache(intensity, random_number).len() > 0 ==> call_requires(
            calculation,
            (intensity,),
        ),
    ensures
        plans(calculation, intensity, random_number, planned.0),
        reuses_one_result(planned.0),
        planned.1@ == invoked_through_cache(intensity, random_number),
{
    let mut expensive_result = Cacher::new(calculation);

    if intensity < HIGH_INTENSITY {
        let pushups = expensive_result.value(intensity);
        let situps = expensive_result.value(intensity);
        proof {
            assert(expensive_result@.calls =~= seq![intensity]);
        }
        (Workout::Strength { pushups, situps }, Ghost(expensive_result@.calls))
    } else {
        if random_number == REST_NUMBER {
            (Workout::Rest, Ghost(expensive_result@.calls))
        } else {
            let minutes = expensive_result.value(intensity);
            proof {
                assert(expensive_result@.calls =~= seq![intensity]);
            }
            (Workout::Run { minutes }, Ghost(expensive_result@.calls))
        }
    }
}

} // verus!
