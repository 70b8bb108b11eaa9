use suggestion_engine::engine::EngineState;
use suggestion_engine::failure::FailureKind;
use suggestion_engine::slot::Stage;

#[test]
fn accept_takes_text_clears_slot_and_cancels() {
    let mut eng = EngineState::new();
    let redraw = eng.install_suggestion(&"ghost text".to_string());
    assert!(redraw);
    assert!(matches!(eng.slot.stage, Stage::Ready));

    let taken = eng.accept();
    assert_eq!(taken, Some("ghost text".to_string()));
    assert!(eng.slot.text.is_empty());
    assert!(matches!(eng.slot.stage, Stage::Idle));
    assert!(eng.token.cancelled);
}

#[test]
fn accept_of_empty_slot_changes_nothing() {
    let mut eng = EngineState::new();
    let taken = eng.accept();
    assert_eq!(taken, None);
    assert!(!eng.token.cancelled);
    assert!(eng.slot.text.is_empty());
}

#[test]
fn dismiss_clears_and_cancels_and_requests_redraw() {
    let mut eng = EngineState::new();
    eng.install_suggestion(&"something".to_string());
    let redraw = eng.dismiss();
    assert!(redraw);
    assert!(eng.slot.text.is_empty());
    assert!(matches!(eng.slot.stage, Stage::Idle));
    assert!(eng.token.cancelled);
}

#[test]
fn dismiss_of_empty_slot_is_noop_without_redraw() {
    let mut eng = EngineState::new();
    let redraw = eng.dismiss();
    assert!(!redraw);
    assert!(eng.slot.text.is_empty());
    assert!(matches!(eng.slot.stage, Stage::Idle));
}

#[test]
fn fragment_of_dismissed_generation_is_discarded() {
    let mut eng = EngineState::new();
    // five completed cycles bring the generation to 5
    let mut g = 0;
    for _ in 0..5 {
        eng.retire();
        g = eng.mint();
    }
    assert_eq!(g, 5);
    assert!(eng.apply_fragment(5, &"str".to_string()));
    assert!(matches!(eng.slot.stage, Stage::Streaming));

    // a dismiss arrives: slot clears, generation 5 is marked cancelled
    let redraw = eng.dismiss();
    assert!(redraw);
    assert_eq!(eng.token.generation, 5);
    assert!(eng.token.cancelled);

    // a fragment tagged generation 5 arriving afterward is discarded
    let applied = eng.apply_fragment(5, &"streamed".to_string());
    assert!(!applied);
    assert!(eng.slot.text.is_empty());
    assert!(matches!(eng.slot.stage, Stage::Idle));
}

#[test]
fn fragment_of_superseded_generation_is_discarded() {
    let mut eng = EngineState::new();
    eng.retire();
    let g1 = eng.mint();
    assert!(eng.apply_fragment(g1, &"old cycle".to_string()));

    // a new cycle begins
    eng.retire();
    let g2 = eng.mint();
    assert!(eng.apply_fragment(g2, &"new cycle".to_string()));

    // the old cycle's late fragment cannot clobber the newer text
    assert!(!eng.apply_fragment(g1, &"stale".to_string()));
    assert_eq!(eng.slot.text, "new cycle");
}

#[test]
fn finish_stream_marks_ready_only_while_current() {
    let mut eng = EngineState::new();
    let g = eng.mint();
    assert!(eng.apply_fragment(g, &"done".to_string()));
    assert!(eng.finish_stream(g));
    assert!(matches!(eng.slot.stage, Stage::Ready));

    eng.retire();
    assert!(!eng.finish_stream(g));
}

#[test]
fn only_setup_failures_are_fatal() {
    assert!(FailureKind::RecoverableCaptureFailure.is_recoverable());
    assert!(FailureKind::RecoverableBackendFailure.is_recoverable());
    assert!(FailureKind::RecoverableInjectionFailure.is_recoverable());
    assert!(!FailureKind::FatalSetupFailure.is_recoverable());
}

#[test]
fn empty_install_keeps_prior_suggestion() {
    let mut eng = EngineState::new();
    eng.install_suggestion(&"prior".to_string());
    let redraw = eng.install_suggestion(&String::new());
    assert!(!redraw);
    assert_eq!(eng.slot.text, "prior");
}
