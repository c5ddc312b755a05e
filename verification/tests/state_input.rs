use std::time::Instant;

use voxtype::input::{get_input, strip_trailing_newlines, ClipboardInput, FileInput, InputSource};
use voxtype::output::post_process::{finish_command, post_process_result, PostProcessError, PostProcessor};
use voxtype::config::PostProcessConfig;
use voxtype::state::State;

#[test]
fn test_new_state_is_idle() {
    let state: State<f32> = State::new();
    assert!(state.is_idle());
}

#[test]
fn test_recording_state() {
    let state: State<f32> = State::Recording {
        started_at: Instant::now(),
        model_override: None,
        use_complex_post_process: false,
        edit_content: None,
    };
    assert!(state.is_recording());
    assert!(!state.is_idle());
    assert!(state.recording_duration().is_some());
}

#[test]
fn test_idle_has_no_duration() {
    let state: State<f32> = State::Idle;
    assert!(state.recording_duration().is_none());
}

#[test]
fn test_eager_recording_state() {
    let state: State<f32> = State::EagerRecording {
        started_at: Instant::now(),
        model_override: None,
        use_complex_post_process: false,
        accumulated_audio: vec![],
        chunks_sent: 2,
        chunk_results: vec![],
        tasks_in_flight: 1,
        edit_content: None,
    };
    assert!(state.is_recording());
    assert!(state.is_eager_recording());
    assert!(!state.is_idle());
    assert!(state.recording_duration().is_some());
    assert_eq!(state.eager_chunks_sent(), Some(2));
    assert_eq!(state.eager_tasks_in_flight(), Some(1));
}

#[test]
fn test_regular_recording_not_eager() {
    let state: State<f32> = State::Recording {
        started_at: Instant::now(),
        model_override: None,
        use_complex_post_process: false,
        edit_content: None,
    };
    assert!(state.is_recording());
    assert!(!state.is_eager_recording());
    assert_eq!(state.eager_chunks_sent(), None);
    assert_eq!(state.eager_tasks_in_flight(), None);
}

#[test]
fn default_state_is_idle() {
    let state: State<f32> = State::default();
    assert!(state.is_idle());
    let outputting: State<f32> = State::Outputting { text: "x".to_string() };
    assert!(!outputting.is_recording());
}

#[test]
fn input_sources() {
    match get_input(Some("/tmp/notes.txt".to_string())) {
        Ok(InputSource::File(f)) => assert_eq!(f.file_path, "/tmp/notes.txt"),
        _ => panic!(),
    }
    assert!(matches!(get_input(None), Ok(InputSource::Clipboard(_))));
    let _ = ClipboardInput::new();
    assert_eq!(FileInput::new("a".to_string()).file_path, "a");
    assert_eq!(strip_trailing_newlines("text\n\n"), "text");
    assert_eq!(strip_trailing_newlines("a\nb"), "a\nb");
}

fn processor() -> PostProcessor {
    PostProcessor::new(&PostProcessConfig {
        command: "cat".to_string(),
        complex_command: Some("complex".to_string()),
        edit_command: Some("edit".to_string()),
        timeout_ms: 5000,
    })
}

#[test]
fn post_process_plans() {
    let p = processor();
    assert_eq!(p.timeout_ms, 5000);
    let plan = p.plan(false, None);
    assert_eq!(plan.command, "cat");
    assert_eq!(plan.edit_origin, None);
    assert_eq!(p.plan(true, None).command, "complex");
    let plan = p.plan(true, Some("draft".to_string()));
    assert_eq!(plan.command, "edit");
    assert_eq!(plan.edit_origin, Some("draft".to_string()));

    let mut no_edit = processor();
    no_edit.edit_command = None;
    let plan = no_edit.plan(false, Some("draft".to_string()));
    assert_eq!(plan.command, "cat");
    assert_eq!(plan.edit_origin, None);
}

#[test]
fn post_process_results() {
    assert_eq!(finish_command(true, Some(0), "", Ok("  hello\n".to_string())).unwrap(), "hello");
    match finish_command(false, Some(3), " oops \n", Ok(String::new())) {
        Err(PostProcessError::NonZeroExit { code, stderr }) => {
            assert_eq!(code, Some(3));
            assert_eq!(stderr, "oops");
        }
        _ => panic!(),
    }
    assert_eq!(post_process_result("original text", Ok(String::new())), "original text");
    assert_eq!(post_process_result("original text", Ok("new".to_string())), "new");
    assert_eq!(
        post_process_result("original text", Err(PostProcessError::Timeout(5))),
        "original text"
    );
}

#[test]
fn post_process_error_descriptions() {
    assert_eq!(PostProcessError::Timeout(30).describe(), "command timed out after 30s");
    assert_eq!(
        PostProcessError::NonZeroExit { code: Some(-2), stderr: String::new() }.describe(),
        "command exited with code Some(-2)"
    );
    assert_eq!(
        PostProcessError::NonZeroExit { code: None, stderr: "bad".to_string() }.describe(),
        "command exited with code None: bad"
    );
    assert_eq!(
        PostProcessError::SpawnFailed("x".to_string()).describe(),
        "failed to spawn command: x"
    );
}
