use live_subtitles::capture::{CaptureSetup, DeviceFormat};
use live_subtitles::config::AppConfig;
use live_subtitles::lifecycle::{model_for_session, SessionController, StartError};

fn setup() -> CaptureSetup {
    CaptureSetup::new(DeviceFormat { sample_rate: 48000, channels: 2, bits_per_sample: 32 }, 16000)
}

fn message(r: Result<bool, StartError>) -> Option<String> {
    r.err().map(|e| e.message())
}

#[test]
fn new_controller_runs_nothing() {
    let controller = SessionController::new();
    assert!(!controller.is_running());
    assert!(!controller.is_capturing());
}

#[test]
fn second_start_is_rejected_and_leaves_the_session_running() {
    let mut controller = SessionController::new();
    assert!(matches!(controller.request_start(), Ok(false)));
    assert!(controller.capture_started(Ok(setup())).is_ok());
    assert!(controller.is_running());
    assert!(controller.is_capturing());

    let second = controller.request_start();
    assert!(matches!(second, Err(StartError::AlreadyRunning)));
    assert_eq!(message(second), Some("Recognition is already running".to_string()));
    assert!(controller.is_running());
    assert!(controller.is_capturing());
}

#[test]
fn start_after_stop_is_admitted() {
    let mut controller = SessionController::new();
    controller.request_start().unwrap();
    controller.capture_started(Ok(setup())).unwrap();
    assert!(controller.stop());
    assert!(matches!(controller.request_start(), Ok(false)));
}

#[test]
fn stop_without_a_session_is_a_no_op() {
    let mut controller = SessionController::new();
    assert!(!controller.stop());
    assert!(!controller.is_running());
    assert!(!controller.is_capturing());
    assert!(!controller.stop());
}

#[test]
fn stop_twice_asks_for_one_join() {
    let mut controller = SessionController::new();
    controller.request_start().unwrap();
    controller.capture_started(Ok(setup())).unwrap();
    assert!(controller.stop());
    assert!(!controller.is_running());
    assert!(!controller.stop());
    assert!(!controller.is_running());
}

#[test]
fn failed_capture_is_fatal_to_the_start() {
    let mut controller = SessionController::new();
    controller.request_start().unwrap();
    let r = controller.capture_started(Err("No default output device found".to_string()));
    let error = r.unwrap_err();
    assert!(matches!(error, StartError::CaptureFailed(_)));
    assert_eq!(
        error.message(),
        "Failed to start audio capture: No default output device found"
    );
    assert!(!controller.is_running());
    assert!(!controller.is_capturing());
    // and the next start is admitted
    assert!(matches!(controller.request_start(), Ok(false)));
}

#[test]
fn capture_started_hands_the_setup_on() {
    let mut controller = SessionController::new();
    controller.request_start().unwrap();
    assert_eq!(controller.capture_started(Ok(setup())).unwrap(), setup());
}

#[test]
fn worker_exit_leaves_the_capture_for_the_next_start_to_stop() {
    let mut controller = SessionController::new();
    controller.request_start().unwrap();
    controller.capture_started(Ok(setup())).unwrap();
    controller.worker_exited();
    assert!(!controller.is_running());
    assert!(controller.is_capturing());
    assert!(matches!(controller.request_start(), Ok(true)));
    assert!(!controller.is_capturing());
}

#[test]
fn recognizer_failure_ends_the_session() {
    let mut controller = SessionController::new();
    controller.request_start().unwrap();
    controller.capture_started(Ok(setup())).unwrap();
    let (stop_capture, error) = controller.recognizer_failed("no such model".to_string());
    assert!(stop_capture);
    assert!(matches!(error, StartError::RecognizerFailed(_)));
    assert_eq!(error.message(), "no such model");
    assert!(!controller.is_running());
    assert!(!controller.is_capturing());
}

#[test]
fn error_messages() {
    assert_eq!(StartError::AlreadyRunning.message(), "Recognition is already running");
    assert_eq!(StartError::NoModelConfigured.message(), "No ASR model configured");
    assert_eq!(StartError::UnsupportedModel.message(), "Only Transducer models are supported");
    assert_eq!(
        StartError::CaptureFailed("x".to_string()).message(),
        "Failed to start audio capture: x"
    );
    assert_eq!(StartError::RecognizerFailed("y".to_string()).message(), "y");
}

#[test]
fn model_for_session_is_the_model_in_use() {
    let mut config = AppConfig::default();
    assert_eq!(model_for_session(&config).unwrap().id, "default");
    config.current_model_id = "missing".to_string();
    let error = model_for_session(&config).unwrap_err();
    assert!(matches!(error, StartError::NoModelConfigured));
}
