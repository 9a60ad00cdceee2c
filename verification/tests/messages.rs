use lux_runner::command::{extractor_args, FetchRequest, TOOL};
use lux_runner::message::{
    failure_text, launch_failure_text, report_text, start_text, success_text, FetchOutcome,
    CHANNEL_BOUND,
};
use lux_runner::text::{decimal_string, signed_decimal_string};

#[test]
fn decimal_of_small_and_large_numbers() {
    assert_eq!(decimal_string(0), "0");
    assert_eq!(decimal_string(7), "7");
    assert_eq!(decimal_string(10), "10");
    assert_eq!(decimal_string(109), "109");
    assert_eq!(decimal_string(1234567890), "1234567890");
    assert_eq!(decimal_string(u128::MAX), u128::MAX.to_string());
}

#[test]
fn decimal_agrees_with_std_on_many_numbers() {
    let mut n: u128 = 1;
    while n < u128::MAX / 7 {
        assert_eq!(decimal_string(n), n.to_string());
        assert_eq!(decimal_string(n - 1), (n - 1).to_string());
        n *= 7;
    }
}

#[test]
fn signed_decimal_of_either_sign() {
    assert_eq!(signed_decimal_string(0), "0");
    assert_eq!(signed_decimal_string(42), "42");
    assert_eq!(signed_decimal_string(-1), "-1");
    assert_eq!(signed_decimal_string(-1250), "-1250");
    assert_eq!(signed_decimal_string(i128::MAX), i128::MAX.to_string());
    assert_eq!(signed_decimal_string(i128::MIN), i128::MIN.to_string());
}

#[test]
fn start_line() {
    assert_eq!(start_text(1, 2, "Video A"), "Downloading 1 of 2: \"Video A\"");
    assert_eq!(start_text(10, 10, ""), "Downloading 10 of 10: \"\"");
}

#[test]
fn success_line() {
    assert_eq!(success_text(1, "Video A"), "Download completed for video 1: \"Video A\"");
    assert_eq!(success_text(23, "a \"quoted\" title"), "Download completed for video 23: \"a \"quoted\" title\"");
}

#[test]
fn failure_line() {
    assert_eq!(
        failure_text("Video B", "exit status 1\n"),
        "Error during download of \"Video B\": exit status 1\n"
    );
    assert_eq!(failure_text("", ""), "Error during download of \"\": ");
}

#[test]
fn failure_line_holds_title_after_26_characters() {
    let title = "标题 B";
    let line = failure_text(title, "stderr text");
    let chars: Vec<char> = line.chars().collect();
    let held: String = chars[26..26 + title.chars().count()].iter().collect();
    assert_eq!(held, title);
    assert!(line.ends_with("stderr text"));
}

#[test]
fn launch_failure_line() {
    assert_eq!(
        launch_failure_text("Video B", "NotFound"),
        "Failed to execute command for \"Video B\": NotFound"
    );
}

#[test]
fn report_line_for_each_outcome() {
    let ok = FetchOutcome::Exited { success: true, stderr: b"ignored".to_vec() };
    assert_eq!(report_text(3, "T", &ok), "Download completed for video 3: \"T\"");
    let failed = FetchOutcome::Exited { success: false, stderr: "caf\u{e9} down".as_bytes().to_vec() };
    assert_eq!(report_text(3, "T", &failed), "Error during download of \"T\": caf\u{e9} down");
    let unstarted = FetchOutcome::LaunchFailed { detail: "denied".to_string() };
    assert_eq!(report_text(3, "T", &unstarted), "Failed to execute command for \"T\": denied");
}

#[test]
fn report_line_replaces_what_is_not_utf8() {
    let failed = FetchOutcome::Exited { success: false, stderr: vec![0xc3, 0x28, b'!'] };
    assert_eq!(report_text(1, "T", &failed), "Error during download of \"T\": \u{fffd}(!");
}

#[test]
fn status_lines_never_equal_the_sentinel() {
    for title in ["", "ALL_DOWNLOADS_COMPLETE", "x"] {
        assert_ne!(start_text(1, 1, title), "ALL_DOWNLOADS_COMPLETE");
        assert_ne!(success_text(1, title), "ALL_DOWNLOADS_COMPLETE");
        assert_ne!(failure_text(title, "ALL_DOWNLOADS_COMPLETE"), "ALL_DOWNLOADS_COMPLETE");
        assert_ne!(launch_failure_text(title, ""), "ALL_DOWNLOADS_COMPLETE");
    }
}

#[test]
fn extractor_command_line() {
    assert_eq!(TOOL, "lux");
    assert_eq!(extractor_args("https://example.com/v/1"), vec!["-j", "https://example.com/v/1"]);
}

#[test]
fn fetcher_command_line() {
    let request = FetchRequest {
        stream_id: "80-12".to_string(),
        thread_count: "16".to_string(),
        item: 12,
        url: "BV1GJ411x7h7".to_string(),
    };
    assert_eq!(
        request.args(),
        vec!["-f", "80-12", "-n", "16", "-items", "12", "-p", "BV1GJ411x7h7"]
    );
}

#[test]
fn fetcher_command_line_takes_thread_count_as_it_is() {
    let request = FetchRequest {
        stream_id: String::new(),
        thread_count: "not a number".to_string(),
        item: usize::MAX,
        url: String::new(),
    };
    assert_eq!(
        request.args(),
        vec![
            "-f".to_string(),
            String::new(),
            "-n".to_string(),
            "not a number".to_string(),
            "-items".to_string(),
            usize::MAX.to_string(),
            "-p".to_string(),
            String::new(),
        ]
    );
}

#[test]
fn channel_holds_a_hundred_messages() {
    assert_eq!(CHANNEL_BOUND, 100);
}
