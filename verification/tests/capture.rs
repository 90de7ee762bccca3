use pageshot::capture::{
    marker_id, output_file_name, replay, success_message, Action, CaptureError, Phase, Session,
    JPEG_QUALITY,
};

/// Run a session to its end, telling it that step number `k` fails (every
/// earlier step succeeds); `k` past the last step means everything succeeds.
/// Returns the actions the session asked for, in order, and the session.
fn drive(url: &str, failing_step: usize) -> (Vec<Action>, Session) {
    let mut session = Session::new(String::from(url));
    let mut actions = Vec::new();
    let mut step: usize = 0;
    while let Some(action) = session.next_action() {
        actions.push(action);
        session.step(step != failing_step);
        step += 1;
    }
    (actions, session)
}

#[test]
fn capture_parameters_are_fixed() {
    assert_eq!(marker_id(), "#done");
    assert_eq!(output_file_name(), "screenshot.jpg");
    assert_eq!(JPEG_QUALITY, 75);
    assert_eq!(success_message(), "Screenshots successfully created.");
}

#[test]
fn a_fresh_session_owes_a_launch() {
    let session = Session::new(String::from("https://example.test"));
    assert_eq!(session.phase, Phase::Start);
    assert_eq!(session.url, "https://example.test");
    assert_eq!(session.next_action(), Some(Action::LaunchBrowser));
    assert_eq!(session.outcome(), None);
}

#[test]
fn six_successes_write_the_file_and_finish() {
    let (actions, session) = drive("https://example.test", usize::MAX);
    assert_eq!(
        actions,
        vec![
            Action::LaunchBrowser,
            Action::OpenTab,
            Action::Navigate,
            Action::WaitForMarker,
            Action::CaptureImage,
            Action::WriteOutput,
        ]
    );
    assert_eq!(session.phase, Phase::Written);
    assert_eq!(session.outcome(), Some(Ok(())));
    assert_eq!(session.url, "https://example.test");
}

#[test]
fn launch_failure_aborts_before_any_write() {
    let (actions, session) = drive("https://example.test", 0);
    assert_eq!(actions, vec![Action::LaunchBrowser]);
    assert!(!actions.contains(&Action::WriteOutput));
    assert_eq!(session.outcome(), Some(Err(CaptureError::Launch)));
}

#[test]
fn marker_timeout_aborts_before_any_write() {
    let (actions, session) = drive("https://example.test", 3);
    assert_eq!(
        actions,
        vec![
            Action::LaunchBrowser,
            Action::OpenTab,
            Action::Navigate,
            Action::WaitForMarker,
        ]
    );
    assert!(!actions.contains(&Action::WriteOutput));
    assert_eq!(session.outcome(), Some(Err(CaptureError::Timeout)));
}

#[test]
fn each_step_surfaces_its_own_error() {
    let expected = [
        CaptureError::Launch,
        CaptureError::Session,
        CaptureError::Navigation,
        CaptureError::Timeout,
        CaptureError::Capture,
        CaptureError::Io,
    ];
    for (step, error) in expected.iter().enumerate() {
        let (actions, session) = drive("https://example.test", step);
        assert_eq!(actions.len(), step + 1);
        assert_eq!(session.phase, Phase::Failed(*error));
        assert_eq!(session.outcome(), Some(Err(*error)));
    }
}

#[test]
fn only_a_failure_at_the_write_step_has_attempted_the_write() {
    for step in 0..6 {
        let (actions, _) = drive("https://example.test", step);
        assert_eq!(actions.contains(&Action::WriteOutput), step == 5);
    }
}

#[test]
fn a_finished_session_ignores_further_events() {
    let (_, mut session) = drive("https://example.test", 0);
    session.step(true);
    assert_eq!(session.phase, Phase::Failed(CaptureError::Launch));
    assert_eq!(session.next_action(), None);
}

#[test]
fn replay_follows_the_event_list() {
    let all_good = vec![true, true, true, true, true, true];
    let session = replay(String::from("https://example.test"), &all_good);
    assert_eq!(session.phase, Phase::Written);
    assert_eq!(session.url, "https://example.test");

    let bad_navigation = vec![true, true, false];
    let session = replay(String::from("https://example.test"), &bad_navigation);
    assert_eq!(session.phase, Phase::Failed(CaptureError::Navigation));

    let events_after_the_end = vec![false, true, true, true, true, true, true];
    let session = replay(String::from("https://example.test"), &events_after_the_end);
    assert_eq!(session.phase, Phase::Failed(CaptureError::Launch));

    let nothing = Vec::new();
    let session = replay(String::from("https://example.test"), &nothing);
    assert_eq!(session.phase, Phase::Start);
    assert_eq!(session.outcome(), None);
}
