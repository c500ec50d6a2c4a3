use datalab::command::{Command, Execution, execute};
use datalab::update::{Speed, animation_positions, build_update_plan, summary_line};

/// The three integer facts the library reads of a floating-point speed;
/// the same conversion the surrounding program makes.
fn speed_model(speed: f32) -> Speed {
    Speed {
        positive: speed > 0.0,
        delay_ms: (50.0 / speed) as u64,
        total_secs: (5.0 / speed).round() as u32,
    }
}

#[test]
fn doubled_speed_halves_the_delay() {
    let speed = speed_model(2.0);
    assert!(speed.positive);
    assert_eq!(speed.delay_ms, 25);
    assert_eq!(speed.total_secs, 3);
    let plan = build_update_plan(&speed).unwrap();
    assert_eq!(plan.positions.len(), 101);
    for (i, p) in plan.positions.iter().enumerate() {
        assert_eq!(*p, i as u64);
    }
    assert_eq!(plan.delay_ms, 25);
    assert_eq!(plan.start_message, "==> Updating datalab");
    assert_eq!(plan.finish_message, "==> Update completed");
    assert_eq!(plan.summary_line, "[INFO]: Completed in 3s");
}

#[test]
fn default_speed_plan() {
    let speed = speed_model(1.0);
    let plan = build_update_plan(&speed).unwrap();
    assert_eq!(plan.delay_ms, 50);
    assert_eq!(plan.summary_line, "[INFO]: Completed in 5s");
}

#[test]
fn zero_speed_is_rejected() {
    let speed = speed_model(0.0);
    assert!(!speed.positive);
    let err = build_update_plan(&speed).unwrap_err();
    assert_eq!(err, "[ERROR]: Speed must be greater than 0");
    let e = execute(Command::Update { speed: speed_model(0.0) });
    assert_eq!(e.exit_code(), 1);
    match e {
        Execution::Reject(m) => assert_eq!(m, "[ERROR]: Speed must be greater than 0"),
        _ => panic!("a zero speed must be rejected"),
    }
}

#[test]
fn negative_speed_is_rejected() {
    let e = execute(Command::Update { speed: speed_model(-1.5) });
    assert_eq!(e.exit_code(), 1);
    assert!(matches!(e, Execution::Reject(_)));
}

#[test]
fn positive_speed_animates_and_exits_zero() {
    let e = execute(Command::Update { speed: speed_model(2.0) });
    assert_eq!(e.exit_code(), 0);
    match e {
        Execution::Animate(plan) => {
            assert_eq!(plan.positions.len(), 101);
            assert_eq!(plan.positions[0], 0);
            assert_eq!(plan.positions[100], 100);
        }
        _ => panic!("a positive speed must animate"),
    }
}

#[test]
fn animation_steps_are_zero_to_one_hundred() {
    let v = animation_positions();
    assert_eq!(v.len(), 101);
    assert_eq!(v[0], 0);
    assert_eq!(v[50], 50);
    assert_eq!(v[100], 100);
}

#[test]
fn summary_line_renders_the_total() {
    assert_eq!(summary_line(0), "[INFO]: Completed in 0s");
    assert_eq!(summary_line(12), "[INFO]: Completed in 12s");
}
