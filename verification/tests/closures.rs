use std::cell::RefCell;

use rust_primer::closures::{
    generate_workout, generate_workout_old1, generate_workout_old2, generate_workout_old3,
    simulated_expensive_calculation, Step, Workout, HIGH_INTENSITY, REST_NUMBER,
};

/// What is written when the steps are performed in order.
fn written(steps: &[Step]) -> Vec<String> {
    steps
        .iter()
        .map(|step| match step {
            Step::Calculate(_) => String::from("calculating slowly..."),
            Step::Pushups(pushups) => format!("Today, do {} pushups!", pushups),
            Step::Situps(situps) => format!("Next, do {} situps!", situps),
            Step::Rest => String::from("Take a break today! Remember to stay hydrated!"),
            Step::Run(minutes) => format!("Today, run for {} minutes!", minutes),
        })
        .collect()
}

/// How often the steps run the slow calculation, and with which intensities.
fn calculated(steps: &[Step]) -> Vec<u32> {
    steps
        .iter()
        .filter_map(|step| match step {
            Step::Calculate(intensity) => Some(*intensity),
            _ => None,
        })
        .collect()
}

/// Plans through the cache with a calculation that writes its line, and
/// writes the lines of the plan behind it: everything written, in order, and
/// the arguments that the calculation was invoked with.
fn written_through_cache(intensity: u32, random_number: u32) -> (Vec<String>, Vec<u32>) {
    let lines = RefCell::new(Vec::new());
    let invoked = RefCell::new(Vec::new());
    let (workout, _record) = generate_workout(
        |num| {
            lines.borrow_mut().push(String::from("calculating slowly..."));
            invoked.borrow_mut().push(num);
            num
        },
        intensity,
        random_number,
    );
    match workout {
        Workout::Strength { pushups, situps } => {
            lines.borrow_mut().push(format!("Today, do {} pushups!", pushups));
            lines.borrow_mut().push(format!("Next, do {} situps!", situps));
        }
        Workout::Rest => lines
            .borrow_mut()
            .push(String::from("Take a break today! Remember to stay hydrated!")),
        Workout::Run { minutes } => {
            lines.borrow_mut().push(format!("Today, run for {} minutes!", minutes))
        }
    }
    (lines.into_inner(), invoked.into_inner())
}

#[test]
fn thresholds_are_25_and_3() {
    assert_eq!(HIGH_INTENSITY, 25);
    assert_eq!(REST_NUMBER, 3);
}

#[test]
fn expensive_calculation_records_its_run_and_returns_the_intensity() {
    let mut steps = vec![Step::Rest];
    assert_eq!(simulated_expensive_calculation(&mut steps, 10), 10);
    assert_eq!(steps, vec![Step::Rest, Step::Calculate(10)]);
    assert_eq!(simulated_expensive_calculation(&mut steps, u32::MAX), u32::MAX);
    assert_eq!(steps, vec![Step::Rest, Step::Calculate(10), Step::Calculate(u32::MAX)]);
    let mut none = Vec::new();
    assert_eq!(simulated_expensive_calculation(&mut none, 0), 0);
    assert_eq!(none, vec![Step::Calculate(0)]);
}

#[test]
fn first_planner_on_a_day_off_never_calculates() {
    let steps = generate_workout_old1(25, 3);
    assert_eq!(steps, vec![Step::Rest]);
    assert_eq!(written(&steps), vec!["Take a break today! Remember to stay hydrated!"]);
}

#[test]
fn first_planner_calculates_before_each_count() {
    let steps = generate_workout_old1(24, 3);
    assert_eq!(
        steps,
        vec![Step::Calculate(24), Step::Pushups(24), Step::Calculate(24), Step::Situps(24)]
    );
    assert_eq!(
        written(&steps),
        vec![
            "calculating slowly...",
            "Today, do 24 pushups!",
            "calculating slowly...",
            "Next, do 24 situps!",
        ]
    );
}

#[test]
fn first_planner_calculates_two_times_or_none_or_once() {
    for intensity in [0u32, 1, 10, 24, 25, 26, 100, u32::MAX] {
        for random_number in [0u32, 2, 3, 4, 7, u32::MAX] {
            let expected = if intensity < 25 {
                vec![intensity, intensity]
            } else if random_number == 3 {
                vec![]
            } else {
                vec![intensity]
            };
            let steps = generate_workout_old1(intensity, random_number);
            assert_eq!(calculated(&steps), expected);
            for step in steps {
                match step {
                    Step::Calculate(n) | Step::Pushups(n) | Step::Situps(n) | Step::Run(n) => {
                        assert_eq!(n, intensity)
                    }
                    Step::Rest => {}
                }
            }
        }
    }
}

#[test]
fn first_planner_runs_after_one_calculation() {
    let steps = generate_workout_old1(30, 7);
    assert_eq!(steps, vec![Step::Calculate(30), Step::Run(30)]);
    assert_eq!(written(&steps), vec!["calculating slowly...", "Today, run for 30 minutes!"]);
}

#[test]
fn second_planner_always_calculates_once_up_front() {
    let steps = generate_workout_old2(25, 3);
    assert_eq!(steps, vec![Step::Calculate(25), Step::Rest]);
    assert_eq!(
        written(&steps),
        vec!["calculating slowly...", "Take a break today! Remember to stay hydrated!"]
    );
    assert_eq!(
        generate_workout_old2(10, 7),
        vec![Step::Calculate(10), Step::Pushups(10), Step::Situps(10)]
    );
    assert_eq!(generate_workout_old2(30, 7), vec![Step::Calculate(30), Step::Run(30)]);
    for intensity in [0u32, 24, 25, u32::MAX] {
        for random_number in [0u32, 3, 4] {
            assert_eq!(calculated(&generate_workout_old2(intensity, random_number)), vec![intensity]);
        }
    }
}

#[test]
fn third_planner_calls_its_closure_twice_for_a_strength_workout() {
    let steps = generate_workout_old3(10, 7);
    assert_eq!(
        steps,
        vec![Step::Calculate(10), Step::Pushups(10), Step::Calculate(10), Step::Situps(10)]
    );
    assert_eq!(
        written(&steps),
        vec![
            "calculating slowly...",
            "Today, do 10 pushups!",
            "calculating slowly...",
            "Next, do 10 situps!",
        ]
    );
}

#[test]
fn third_planner_takes_the_steps_of_the_first() {
    for intensity in [0u32, 10, 24, 25, 30, u32::MAX] {
        for random_number in [0u32, 3, 7] {
            assert_eq!(
                generate_workout_old3(intensity, random_number),
                generate_workout_old1(intensity, random_number)
            );
        }
    }
    assert_eq!(generate_workout_old3(25, 3), vec![Step::Rest]);
    assert_eq!(generate_workout_old3(25, 4), vec![Step::Calculate(25), Step::Run(25)]);
}

#[test]
fn caching_planner_calculates_once_for_both_counts() {
    let (lines, invoked) = written_through_cache(10, 7);
    assert_eq!(
        lines,
        vec!["calculating slowly...", "Today, do 10 pushups!", "Next, do 10 situps!"]
    );
    assert_eq!(invoked, vec![10]);
}

#[test]
fn caching_planner_calculates_once_for_a_run() {
    let (lines, invoked) = written_through_cache(25, 7);
    assert_eq!(lines, vec!["calculating slowly...", "Today, run for 25 minutes!"]);
    assert_eq!(invoked, vec![25]);
}

#[test]
fn caching_planner_calculates_at_most_once_and_never_on_a_day_off() {
    for intensity in [0u32, 10, 24, 25, 30, u32::MAX] {
        for random_number in [0u32, 3, 4, 7] {
            let (lines, invoked) = written_through_cache(intensity, random_number);
            if intensity >= 25 && random_number == 3 {
                assert!(invoked.is_empty());
                assert_eq!(lines, vec!["Take a break today! Remember to stay hydrated!"]);
            } else {
                assert_eq!(invoked, vec![intensity]);
            }
        }
    }
}

#[test]
fn caching_planner_plans_from_what_the_calculation_gives() {
    assert_eq!(
        generate_workout(|n| n * 2, 12, 3).0,
        Workout::Strength { pushups: 24, situps: 24 }
    );
    assert_eq!(generate_workout(|n| n, 24, 3).0, Workout::Strength { pushups: 24, situps: 24 });
    assert_eq!(generate_workout(|n| n, 25, 3).0, Workout::Rest);
    assert_eq!(generate_workout(|n| n + 1, 25, 4).0, Workout::Run { minutes: 26 });
}
