use koe::events::UiEvent;
use koe::speech::{
    get_helper_path, helper_arguments, launch_failed, start_recognition, stop_recognition,
    Candidate, HelperExit, Recognizer,
};

fn strings(items: &[&str]) -> Vec<String> {
    items.iter().map(|s| s.to_string()).collect()
}

#[test]
fn arguments_encode_language_and_preference() {
    assert_eq!(helper_arguments("en-US", true), strings(&["--language", "en-US", "--on-device"]));
    assert_eq!(helper_arguments("ja-JP", false), strings(&["--language", "ja-JP"]));
}

#[test]
fn start_without_a_helper_signals_nothing() {
    let mut recognizer = Recognizer::new();
    let plan = start_recognition(&mut recognizer, "en-US", true);
    assert_eq!(plan.terminate, None);
    assert_eq!(plan.arguments, strings(&["--language", "en-US", "--on-device"]));
    assert_eq!(recognizer.process(), None);
    assert_eq!(recognizer.transcript(), None);
}

#[test]
fn start_gives_up_the_tracked_helper_and_the_transcript() {
    let mut recognizer = Recognizer::new();
    recognizer.helper_started(41);
    recognizer.helper_line("FINAL:old");
    let plan = start_recognition(&mut recognizer, "de-DE", false);
    assert_eq!(plan.terminate, Some(41));
    assert_eq!(plan.arguments, strings(&["--language", "de-DE"]));
    assert_eq!(recognizer.process(), None);
    assert_eq!(recognizer.transcript(), None);
}

#[test]
fn stop_hands_out_the_transcript_once() {
    let mut recognizer = Recognizer::new();
    recognizer.helper_started(7);
    recognizer.helper_line("FINAL:hello world");
    let stopped = stop_recognition(&mut recognizer);
    assert_eq!(stopped.terminate, Some(7));
    assert_eq!(stopped.transcript, "hello world");
    let again = stop_recognition(&mut recognizer);
    assert_eq!(again.terminate, None);
    assert_eq!(again.transcript, "");
}

#[test]
fn lines_become_events() {
    let mut recognizer = Recognizer::new();
    assert_eq!(
        recognizer.helper_line("PARTIAL:he"),
        Some(UiEvent::TranscriptPartial { text: "he".to_string() })
    );
    assert_eq!(recognizer.transcript(), None);
    assert_eq!(
        recognizer.helper_line("FINAL:hello"),
        Some(UiEvent::TranscriptFinal { text: "hello".to_string() })
    );
    assert_eq!(recognizer.transcript(), Some("hello"));
    assert_eq!(
        recognizer.helper_line("LEVEL:0.25"),
        Some(UiEvent::MicLevel { value: "0.25".to_string() })
    );
    assert_eq!(
        recognizer.helper_line("ERROR:no microphone"),
        Some(UiEvent::SpeechError { message: "no microphone".to_string() })
    );
    assert_eq!(recognizer.helper_line("LEVEL:loud"), None);
    assert_eq!(recognizer.helper_line("garbage"), None);
    assert_eq!(recognizer.transcript(), Some("hello"));
}

#[test]
fn a_later_final_replaces_the_transcript() {
    let mut recognizer = Recognizer::new();
    recognizer.helper_line("FINAL:one");
    recognizer.helper_line("PARTIAL:tw");
    recognizer.helper_line("FINAL:two");
    assert_eq!(stop_recognition(&mut recognizer).transcript, "two");
}

#[test]
fn clean_exit_is_silent() {
    let mut recognizer = Recognizer::new();
    recognizer.helper_started(9);
    let exit = HelperExit::Exited { code: Some(0) };
    assert!(!exit.crashed());
    assert_eq!(recognizer.helper_exited(exit), Vec::<UiEvent>::new());
    assert_eq!(recognizer.process(), None);
}

#[test]
fn crash_is_reported_with_its_code() {
    let mut recognizer = Recognizer::new();
    recognizer.helper_started(9);
    let exit = HelperExit::Exited { code: Some(3) };
    assert!(exit.crashed());
    assert_eq!(
        recognizer.helper_exited(exit),
        vec![
            UiEvent::SpeechError {
                message: "Speech helper exited unexpectedly (code 3)".to_string()
            },
            UiEvent::ListeningState { listening: false },
        ]
    );
    assert_eq!(recognizer.process(), None);
}

#[test]
fn crash_messages_have_exact_numbers() {
    assert_eq!(
        HelperExit::Exited { code: None }.message(),
        "Speech helper exited unexpectedly (code -1)"
    );
    assert_eq!(
        HelperExit::Exited { code: Some(-11) }.message(),
        "Speech helper exited unexpectedly (code -11)"
    );
    assert_eq!(
        HelperExit::Exited { code: Some(255) }.message(),
        "Speech helper exited unexpectedly (code 255)"
    );
    assert_eq!(HelperExit::Lost.message(), "Speech helper process lost");
    assert!(HelperExit::Exited { code: None }.crashed());
    assert!(HelperExit::Lost.crashed());
}

#[test]
fn failed_start_is_reported() {
    assert_eq!(
        launch_failed("No such file or directory (os error 2)"),
        vec![
            UiEvent::SpeechError {
                message: "Failed to start speech helper: No such file or directory (os error 2)"
                    .to_string()
            },
            UiEvent::ListeningState { listening: false },
        ]
    );
}

#[test]
fn helper_path_is_the_first_that_exists() {
    let candidate = |path: &str, exists: bool| Candidate { path: path.to_string(), exists };
    let places = vec![
        candidate("/app/bin/koe-speech-helper", false),
        candidate("/app/Resources/koe-speech-helper", true),
        candidate("/src/koe-speech-helper", true),
    ];
    assert_eq!(get_helper_path(&places), "/app/Resources/koe-speech-helper");
    let none = vec![candidate("/a", false), candidate("/b", false)];
    assert_eq!(get_helper_path(&none), "koe-speech-helper");
    assert_eq!(get_helper_path(&Vec::new()), "koe-speech-helper");
}

#[test]
fn events_name_their_channel_and_key() {
    let cases = [
        (UiEvent::ListeningState { listening: true }, "listening-state", "listening"),
        (UiEvent::TranscriptPartial { text: String::new() }, "transcript-partial", "text"),
        (UiEvent::TranscriptFinal { text: String::new() }, "transcript-final", "text"),
        (UiEvent::MicLevel { value: String::new() }, "mic-level", "level"),
        (UiEvent::SpeechError { message: String::new() }, "speech-error", "message"),
    ];
    for (event, channel, key) in cases {
        assert_eq!(event.channel(), channel);
        assert_eq!(event.payload_key(), key);
    }
}
