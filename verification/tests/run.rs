use clip_form::form::App;
use clip_form::key::{Action, Key};
use clip_form::run::{ClipError, RunAction, RunEnd, RunEvent, RunPhase};

fn launched(input: &str, start: &str, end: &str, output: &str) -> App {
    let mut app = App::new();
    for c in input.chars() {
        app.process_input(Key::Char(c));
    }
    app.process_input(Key::Tab);
    for _ in 0..8 {
        app.process_input(Key::Backspace);
    }
    for c in start.chars() {
        app.process_input(Key::Char(c));
    }
    app.process_input(Key::Tab);
    for c in end.chars() {
        app.process_input(Key::Char(c));
    }
    app.process_input(Key::Tab);
    for c in output.chars() {
        app.process_input(Key::Char(c));
    }
    assert_eq!(app.process_input(Key::Enter), Action::Launch);
    app
}

fn drive(app: &mut App, events: Vec<RunEvent>) -> RunPhase {
    let mut phase = RunPhase::Starting;
    for event in events {
        phase = app.run_step(phase, event);
    }
    phase
}

#[test]
fn clip_run_logs_banner_frames_and_success() {
    let mut app = launched("in.mp4", "00:00:10", "00:00:20", "out.mp4");
    assert_eq!(app.input_file(), "in.mp4");
    assert_eq!(app.start_time(), "00:00:10");
    assert_eq!(app.end_time(), "00:00:20");
    assert_eq!(app.output_file(), "out.mp4");
    let phase = drive(
        &mut app,
        vec![
            RunEvent::Spawned,
            RunEvent::StillRunning,
            RunEvent::Line("frame=1".to_string()),
            RunEvent::NoLine,
            RunEvent::Paused,
            RunEvent::Exited,
            RunEvent::Line("frame=2".to_string()),
            RunEvent::NoLine,
            RunEvent::Status(true),
        ],
    );
    assert_eq!(phase, RunPhase::Done(RunEnd::Success));
    assert_eq!(phase.request(), RunAction::Finish);
    let log = app.message().to_string();
    let lines: Vec<&str> = log.lines().collect();
    assert_eq!(
        lines,
        vec![
            "Starting FFmpeg process...",
            "frame=1",
            "frame=2",
            "",
            "Clip created successfully!",
            "Process completed.",
        ]
    );
    assert!(!app.is_processing());
}

#[test]
fn failing_exit_ends_with_failure_line() {
    let mut app = launched("in.mp4", "00:00:10", "00:00:20", "out.mp4");
    let phase = drive(
        &mut app,
        vec![
            RunEvent::Spawned,
            RunEvent::Exited,
            RunEvent::Line("frame=1".to_string()),
            RunEvent::Line("frame=2".to_string()),
            RunEvent::NoLine,
            RunEvent::Status(false),
        ],
    );
    assert_eq!(phase, RunPhase::Done(RunEnd::Failure));
    assert_eq!(
        app.message(),
        "Starting FFmpeg process...\nframe=1\nframe=2\n\nError: FFmpeg process failed\nProcess completed."
    );
    assert!(!app.is_processing());
}

#[test]
fn each_phase_requests_its_action() {
    assert_eq!(RunPhase::Starting.request(), RunAction::Spawn);
    assert_eq!(RunPhase::Polling.request(), RunAction::CheckStatus);
    assert_eq!(RunPhase::Draining.request(), RunAction::ReceiveLine);
    assert_eq!(RunPhase::Pausing.request(), RunAction::Pause);
    assert_eq!(RunPhase::Flushing.request(), RunAction::ReceiveLine);
    assert_eq!(RunPhase::Waiting.request(), RunAction::Wait);
    assert_eq!(RunPhase::Done(RunEnd::Success).request(), RunAction::Finish);
    assert_eq!(RunPhase::Done(RunEnd::Aborted(ClipError::Wait)).request(), RunAction::Finish);
}

#[test]
fn run_walks_through_its_phases() {
    let mut app = launched("a", "b", "c", "d");
    let mut phase = RunPhase::Starting;
    phase = app.run_step(phase, RunEvent::Spawned);
    assert_eq!(phase, RunPhase::Polling);
    phase = app.run_step(phase, RunEvent::StillRunning);
    assert_eq!(phase, RunPhase::Draining);
    phase = app.run_step(phase, RunEvent::Line("x".to_string()));
    assert_eq!(phase, RunPhase::Draining);
    phase = app.run_step(phase, RunEvent::NoLine);
    assert_eq!(phase, RunPhase::Pausing);
    phase = app.run_step(phase, RunEvent::Paused);
    assert_eq!(phase, RunPhase::Polling);
    phase = app.run_step(phase, RunEvent::Exited);
    assert_eq!(phase, RunPhase::Flushing);
    phase = app.run_step(phase, RunEvent::NoLine);
    assert_eq!(phase, RunPhase::Waiting);
    assert!(app.is_processing());
    assert_eq!(app.message(), "Starting FFmpeg process...\nx\n");
    phase = app.run_step(phase, RunEvent::Status(true));
    assert_eq!(phase, RunPhase::Done(RunEnd::Success));
    assert!(!app.is_processing());
}

#[test]
fn spawn_failure_aborts_the_run() {
    let mut app = launched("a", "b", "c", "d");
    let phase = drive(&mut app, vec![RunEvent::SpawnFailed]);
    assert_eq!(phase, RunPhase::Done(RunEnd::Aborted(ClipError::Spawn)));
    assert_eq!(
        app.message(),
        "Starting FFmpeg process...\n\nError: Failed to spawn ffmpeg command"
    );
    assert!(!app.is_processing());
}

#[test]
fn status_check_failure_aborts_the_run() {
    let mut app = launched("a", "b", "c", "d");
    let phase = drive(
        &mut app,
        vec![
            RunEvent::Spawned,
            RunEvent::StillRunning,
            RunEvent::Line("x".to_string()),
            RunEvent::NoLine,
            RunEvent::Paused,
            RunEvent::StatusCheckFailed,
        ],
    );
    assert_eq!(phase, RunPhase::Done(RunEnd::Aborted(ClipError::StatusCheck)));
    assert_eq!(
        app.message(),
        "Starting FFmpeg process...\nx\n\nError: Failed to check process status"
    );
    assert!(!app.is_processing());
}

#[test]
fn wait_failure_aborts_the_run() {
    let mut app = launched("a", "b", "c", "d");
    let phase = drive(
        &mut app,
        vec![RunEvent::Spawned, RunEvent::Exited, RunEvent::NoLine, RunEvent::WaitFailed],
    );
    assert_eq!(phase, RunPhase::Done(RunEnd::Aborted(ClipError::Wait)));
    assert_eq!(app.message(), "Starting FFmpeg process...\n\nError: Failed to wait for ffmpeg");
    assert!(!app.is_processing());
}

#[test]
fn reports_that_answer_no_request_are_ignored() {
    let mut app = launched("a", "b", "c", "d");
    let mut phase = RunPhase::Starting;
    for event in [
        RunEvent::Line("early".to_string()),
        RunEvent::NoLine,
        RunEvent::Status(true),
        RunEvent::WaitFailed,
        RunEvent::Exited,
        RunEvent::Paused,
    ] {
        phase = app.run_step(phase, event);
        assert_eq!(phase, RunPhase::Starting);
        assert_eq!(app.message(), "Starting FFmpeg process...\n");
        assert!(app.is_processing());
    }
    phase = app.run_step(phase, RunEvent::Spawned);
    phase = app.run_step(phase, RunEvent::Line("not yet".to_string()));
    assert_eq!(phase, RunPhase::Polling);
    assert_eq!(app.message(), "Starting FFmpeg process...\n");
}

#[test]
fn finished_run_stays_finished() {
    let mut app = launched("a", "b", "c", "d");
    let done = drive(
        &mut app,
        vec![RunEvent::Spawned, RunEvent::Exited, RunEvent::NoLine, RunEvent::Status(true)],
    );
    let log = app.message().to_string();
    for event in [
        RunEvent::Spawned,
        RunEvent::Line("late".to_string()),
        RunEvent::Status(false),
        RunEvent::SpawnFailed,
    ] {
        assert_eq!(app.run_step(done, event), done);
        assert_eq!(app.message(), log);
        assert!(!app.is_processing());
    }
}
