use watering_backend::actuator::DriveStep;
use watering_backend::actuator::GpioController;
use watering_backend::text::u64_to_string;

#[test]
fn new_with_line_available_is_live() {
    let c = GpioController::new(17, true);
    assert!(!c.is_dummy());
}

#[test]
fn new_without_line_falls_back_to_dummy() {
    let c = GpioController::new(17, false);
    assert!(c.is_dummy());
}

#[test]
fn live_plan_drives_line_around_wait() {
    let c = GpioController::new(17, true);
    let plan = c.run_motor_plan(5);
    assert_eq!(
        plan,
        vec![
            DriveStep::SetActive,
            DriveStep::Wait { secs: 5 },
            DriveStep::SetInactive,
        ]
    );
}

#[test]
fn dummy_plan_only_waits() {
    let c = GpioController::new(17, false);
    let plan = c.run_motor_plan(5);
    assert_eq!(plan, vec![DriveStep::Wait { secs: 5 }]);
}

#[test]
fn dummy_drive_reports_simulated_execution() {
    let c = GpioController::new(17, false);
    let r = c.run_motor_result(5, None);
    assert_eq!(
        r,
        Ok(String::from("ダミー実行: 5秒間モーターを制御しました"))
    );
}

#[test]
fn dummy_drive_always_succeeds() {
    let c = GpioController::new(17, false);
    let r = c.run_motor_result(5, Some(String::from("spurious")));
    assert!(r.is_ok());
}

#[test]
fn live_drive_reports_live_execution() {
    let c = GpioController::new(17, true);
    let r = c.run_motor_result(5, None);
    assert_eq!(
        r,
        Ok(String::from("実機実行: 5秒間モーターを制御しました"))
    );
}

#[test]
fn live_drive_surfaces_driver_error() {
    let c = GpioController::new(17, true);
    let r = c.run_motor_result(5, Some(String::from("line stuck")));
    assert_eq!(r, Err(String::from("line stuck")));
}

#[test]
fn decimal_rendering_is_exact() {
    assert_eq!(u64_to_string(0), "0");
    assert_eq!(u64_to_string(5), "5");
    assert_eq!(u64_to_string(10), "10");
    assert_eq!(u64_to_string(100), "100");
    assert_eq!(u64_to_string(12345), "12345");
    assert_eq!(u64_to_string(u64::MAX), "18446744073709551615");
}

#[test]
fn plans_wait_exactly_the_requested_duration() {
    for line_available in [true, false] {
        let c = GpioController::new(17, line_available);
        let total: u64 = c
            .run_motor_plan(7)
            .iter()
            .map(|s| match s {
                DriveStep::Wait { secs } => *secs,
                _ => 0,
            })
            .sum();
        assert_eq!(total, 7);
    }
}
