use sentiric_uac::engine::{after_loop, after_panic, Stage, WorkerAction};
use sentiric_uac::{RtpEngine, UacEvent};

fn failed(cause: &str) -> Result<(), String> {
    Err(cause.to_string())
}

#[test]
fn a_new_engine_rests() {
    let engine = RtpEngine::new(false);
    assert!(!engine.is_running());
    assert_eq!((engine.rx_count, engine.tx_count), (0, 0));
    assert_eq!((engine.received(), engine.sent()), (0, 0));
}

#[test]
fn a_headless_engine_starts_virtual_audio() {
    let mut engine = RtpEngine::new(true);
    let actions = engine.start().unwrap();
    assert!(engine.is_running());
    assert_eq!(actions.len(), 2);
    assert!(matches!(
        &actions[0],
        WorkerAction::Emit(UacEvent::Log(text)) if text == "👻 Booting Virtual DSP (Headless)"
    ));
    assert!(matches!(actions[1], WorkerAction::Run(Stage::Headless)));
}

#[test]
fn an_engine_starts_the_hardware() {
    let mut engine = RtpEngine::new(false);
    let actions = engine.start().unwrap();
    assert_eq!(actions.len(), 2);
    assert!(matches!(
        &actions[0],
        WorkerAction::Emit(UacEvent::Log(text))
            if text == "🎤 Connecting to Hardware Mic/Speaker..."
    ));
    assert!(matches!(actions[1], WorkerAction::Run(Stage::Hardware)));
}

#[test]
fn a_running_engine_starts_no_second_worker() {
    let mut engine = RtpEngine::new(true);
    assert!(engine.start().is_some());
    assert!(engine.start().is_none());
    assert!(engine.is_running());
}

#[test]
fn a_stopped_engine_can_start_again() {
    let mut engine = RtpEngine::new(true);
    engine.start();
    engine.stop();
    assert!(!engine.is_running());
    assert!(engine.start().is_some());
}

#[test]
fn a_loop_that_ends_well_ends_the_worker() {
    for stage in [Stage::Headless, Stage::Hardware, Stage::Fallback] {
        let actions = after_loop(stage, Ok(()));
        assert_eq!(actions.len(), 1);
        assert!(matches!(actions[0], WorkerAction::Rest));
    }
}

#[test]
fn failed_hardware_falls_back_to_virtual_audio() {
    let actions = after_loop(Stage::Hardware, failed("no mic"));
    assert_eq!(actions.len(), 2);
    assert!(matches!(
        &actions[0],
        WorkerAction::Emit(UacEvent::Log(text))
            if text == "⚠️ Hardware Audio Failed: no mic. FALLING BACK TO VIRTUAL AUDIO!"
    ));
    assert!(matches!(actions[1], WorkerAction::Run(Stage::Fallback)));

    let actions = after_loop(Stage::Fallback, failed("no net"));
    assert_eq!(actions.len(), 2);
    assert!(matches!(
        &actions[0],
        WorkerAction::Emit(UacEvent::Error(text)) if text == "Fallback also failed: no net"
    ));
    assert!(matches!(actions[1], WorkerAction::Rest));
}

#[test]
fn failed_virtual_audio_is_reported() {
    let actions = after_loop(Stage::Headless, failed("no net"));
    assert_eq!(actions.len(), 2);
    assert!(matches!(
        &actions[0],
        WorkerAction::Emit(UacEvent::Error(text)) if text == "Virtual DSP Error: no net"
    ));
    assert!(matches!(actions[1], WorkerAction::Rest));
}

#[test]
fn a_panic_is_reported_with_its_reason() {
    let actions = after_panic(Some("index".to_string()));
    assert_eq!(actions.len(), 2);
    assert!(matches!(
        &actions[0],
        WorkerAction::Emit(UacEvent::Error(text))
            if text == "☠️ CRITICAL: RTP Thread Panicked! Reason: index"
    ));
    assert!(matches!(actions[1], WorkerAction::Rest));
    let actions = after_panic(None);
    assert!(matches!(
        &actions[0],
        WorkerAction::Emit(UacEvent::Error(text))
            if text == "☠️ CRITICAL: RTP Thread Panicked! Reason: Unknown panic reason"
    ));
}

#[test]
fn counters_count_and_wrap_around() {
    let mut engine = RtpEngine::new(true);
    engine.count_sent();
    engine.count_sent();
    engine.count_received();
    assert_eq!((engine.tx_count, engine.rx_count), (2, 1));
    assert_eq!((engine.sent(), engine.received()), (2, 1));
    engine.tx_count = u64::MAX;
    engine.rx_count = u64::MAX;
    engine.count_sent();
    engine.count_received();
    assert_eq!((engine.tx_count, engine.rx_count), (0, 0));
}
