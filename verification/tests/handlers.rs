use watering_backend::actuator::DriveStep;
use watering_backend::actuator::GpioController;
use watering_backend::auth::validate_api_key;
use watering_backend::handlers::status_handler;
use watering_backend::handlers::water_begin;
use watering_backend::handlers::water_finish;
use watering_backend::handlers::WaterAction;
use watering_backend::responses::WaterRequest;

fn secret() -> String {
    String::from("0228")
}

#[test]
fn gate_accepts_matching_key() {
    let key = secret();
    assert!(validate_api_key(Some(&key), &secret()).is_ok());
}

#[test]
fn gate_rejects_missing_key() {
    let e = validate_api_key(None, &secret()).unwrap_err();
    assert_eq!(e.code, 401);
    assert_eq!(e.body.error, "Unauthorized: Invalid API Key");
}

#[test]
fn gate_rejects_wrong_key() {
    let wrong = String::from("0229");
    let e = validate_api_key(Some(&wrong), &secret()).unwrap_err();
    assert_eq!(e.code, 401);
    assert!(!e.body.error.is_empty());
}

#[test]
fn status_with_invalid_key_is_unauthorized() {
    let c = GpioController::new(17, true);
    let wrong = String::from("wrong");
    let e = status_handler(&c, Some(&wrong), &secret(), 17).unwrap_err();
    assert_eq!(e.code, 401);
    assert!(!e.body.error.is_empty());
}

#[test]
fn status_reports_live_mode() {
    let c = GpioController::new(17, true);
    let key = secret();
    let s = status_handler(&c, Some(&key), &secret(), 17).unwrap();
    assert_eq!(s.status, "Ready");
    assert_eq!(s.message, "Server is ready");
    assert_eq!(s.server_mode, "LIVE RPi.GPIO MODE");
    assert_eq!(s.controlled_pin, 17);
}

#[test]
fn status_reports_dummy_mode_after_fallback() {
    let c = GpioController::new(17, false);
    let key = secret();
    let s = status_handler(&c, Some(&key), &secret(), 17).unwrap();
    assert_eq!(s.server_mode, "DUMMY MODE");
}

#[test]
fn water_without_key_never_drives() {
    let req = WaterRequest {
        action: String::from("start"),
    };
    match water_begin(None, &secret(), &req, 5) {
        WaterAction::Reply(e) => {
            assert_eq!(e.code, 401);
            assert!(!e.body.error.is_empty());
        }
        WaterAction::Drive { .. } => panic!("drive owed to an unauthenticated request"),
    }
}

#[test]
fn water_with_wrong_key_never_drives() {
    let wrong = String::from("0000");
    let req = WaterRequest {
        action: String::from("start"),
    };
    match water_begin(Some(&wrong), &secret(), &req, 5) {
        WaterAction::Reply(e) => assert_eq!(e.code, 401),
        WaterAction::Drive { .. } => panic!("drive owed to an unauthenticated request"),
    }
}

#[test]
fn water_with_stop_action_is_rejected() {
    let key = secret();
    let req = WaterRequest {
        action: String::from("stop"),
    };
    match water_begin(Some(&key), &secret(), &req, 5) {
        WaterAction::Reply(e) => {
            assert_eq!(e.code, 400);
            assert_eq!(
                e.body.error,
                "Invalid request body. Expected {'action': 'start'}"
            );
        }
        WaterAction::Drive { .. } => panic!("drive owed to an invalid request"),
    }
}

#[test]
fn water_with_start_action_earns_the_drive() {
    let key = secret();
    let req = WaterRequest {
        action: String::from("start"),
    };
    assert!(matches!(
        water_begin(Some(&key), &secret(), &req, 5),
        WaterAction::Drive { duration_secs: 5 }
    ));
}

#[test]
fn water_finish_builds_success_reply() {
    let r = water_finish(Ok(String::from("実機実行: 5秒間モーターを制御しました")), 5)
        .unwrap();
    assert_eq!(r.status, "success");
    assert_eq!(r.message, "水やり (5秒) が完了しました");
    assert_eq!(r.gpio_result, "実機実行: 5秒間モーターを制御しました");
}

#[test]
fn water_finish_surfaces_driver_failure() {
    let e = water_finish(Err(String::from("line stuck")), 5).unwrap_err();
    assert_eq!(e.code, 500);
    assert_eq!(e.body.error, "GPIO操作エラー: line stuck");
}

#[test]
fn simulated_fallback_serves_a_full_watering() {
    // Startup with no reachable output line: the controller falls back
    // to simulation, reports it, and still serves a valid actuation.
    let c = GpioController::new(17, false);
    let key = secret();

    let s = status_handler(&c, Some(&key), &secret(), 17).unwrap();
    assert_eq!(s.server_mode, "DUMMY MODE");

    let req = WaterRequest {
        action: String::from("start"),
    };
    let duration = match water_begin(Some(&key), &secret(), &req, 5) {
        WaterAction::Drive { duration_secs } => duration_secs,
        WaterAction::Reply(_) => panic!("valid request was rejected"),
    };
    assert_eq!(c.run_motor_plan(duration), vec![DriveStep::Wait { secs: 5 }]);

    let outcome = c.run_motor_result(duration, None);
    let reply = water_finish(outcome, duration).unwrap();
    assert_eq!(reply.status, "success");
    assert_eq!(
        reply.gpio_result,
        "ダミー実行: 5秒間モーターを制御しました"
    );
}
