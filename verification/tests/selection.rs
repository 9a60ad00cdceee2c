use lux_runner::driver::Action;
use lux_runner::model::url_info::{Caption, Danmaku, Parts, StreamInfo, UrlInfo};
use lux_runner::job::SelectedJob;
use lux_runner::selection::{
    confirm, confirm_prompt_text, extraction_failed, extraction_failure_exit, megabytes,
    select_prompt_text, total_size, Confirmation, Exit, DEFAULT_THREAD_COUNT, SOURCE_PROMPT,
    THREAD_COUNT_PROMPT,
};

fn stream(id: &str, quality: &str, size: i64) -> StreamInfo {
    StreamInfo {
        id: id.to_string(),
        quality: quality.to_string(),
        parts: vec![Parts { url: "https://cdn/1".to_string(), size, ext: "mp4".to_string() }],
        size,
        ext: "mp4".to_string(),
        need_mux: true,
    }
}

fn item(title: &str, streams: Vec<StreamInfo>) -> UrlInfo {
    UrlInfo {
        url: "https://example.com/v".to_string(),
        site: "example".to_string(),
        title: title.to_string(),
        type_field: "video".to_string(),
        streams,
        caption: Caption::default(),
        err: "null".to_string(),
    }
}

fn jobs_of(sizes: &[i64]) -> Vec<SelectedJob> {
    sizes
        .iter()
        .enumerate()
        .map(|(i, size)| SelectedJob { stream: stream("s", "q", *size), title: format!("t{}", i) })
        .collect()
}

#[test]
fn stream_label() {
    assert_eq!(stream("80", "高清 1080P", 1).label(), "id: 80 | quality: 高清 1080P");
    assert_eq!(stream("", "", 1).label(), "id:  | quality: ");
}

#[test]
fn select_prompt_shows_the_title_in_debug_form() {
    assert_eq!(item("Video A", Vec::new()).select_prompt(), "Select a stream for: \"Video A\"");
    assert_eq!(
        item("say \"hi\"\n", Vec::new()).select_prompt(),
        "Select a stream for: \"say \\\"hi\\\"\\n\""
    );
    assert_eq!(
        item("a\\b", Vec::new()).select_prompt(),
        format!("Select a stream for: {:?}", "a\\b")
    );
}

#[test]
fn select_prompt_from_a_shown_title() {
    assert_eq!(select_prompt_text("\"T\""), "Select a stream for: \"T\"");
    assert_eq!(select_prompt_text(""), "Select a stream for: ");
}

#[test]
fn job_pairs_the_stream_with_the_title() {
    let chosen = stream("64", "720P", 9);
    let job = item("Video A", vec![stream("80", "1080P", 10), stream("64", "720P", 9)])
        .job(stream("64", "720P", 9));
    assert_eq!(job, SelectedJob { stream: chosen, title: "Video A".to_string() });
}

#[test]
fn total_size_adds_up() {
    assert_eq!(total_size(&Vec::new()), 0);
    assert_eq!(total_size(&jobs_of(&[1, 2, 3])), 6);
    assert_eq!(total_size(&jobs_of(&[i64::MAX, i64::MAX])), 2 * (i64::MAX as i128));
    assert_eq!(total_size(&jobs_of(&[i64::MIN, i64::MIN, 5])), 2 * (i64::MIN as i128) + 5);
    assert_eq!(total_size(&jobs_of(&[-7, 7])), 0);
}

#[test]
fn megabyte_is_eight_hundred_thousand_bytes() {
    assert_eq!(megabytes(0), 0);
    assert_eq!(megabytes(799_999), 0);
    assert_eq!(megabytes(800_000), 1);
    assert_eq!(megabytes(1_600_000), 2);
    assert_eq!(megabytes(1_000_000_000), 1250);
    assert_eq!(megabytes(-799_999), 0);
    assert_eq!(megabytes(-800_000), -1);
    assert_eq!(megabytes(-1_700_000), -2);
    assert_eq!(megabytes(i128::MIN), i128::MIN / 800 / 1000);
}

#[test]
fn confirm_prompt() {
    assert_eq!(
        confirm_prompt_text(&jobs_of(&[600_000_000, 400_000_000])),
        "Download 2 videos with a total size of 1250 MB? (y or n)"
    );
    assert_eq!(
        confirm_prompt_text(&Vec::new()),
        "Download 0 videos with a total size of 0 MB? (y or n)"
    );
    assert_eq!(
        confirm_prompt_text(&jobs_of(&[-1_600_000])),
        "Download 1 videos with a total size of -2 MB? (y or n)"
    );
}

#[test]
fn declined_download_ends_with_status_zero_and_no_driver() {
    match confirm(false, jobs_of(&[1, 2]), "u".to_string(), "4".to_string()) {
        Confirmation::Cancel(exit) => {
            assert_eq!(exit, Exit { lines: vec!["Download cancelled".to_string()], status: 0 });
        }
        Confirmation::Proceed(_) => panic!("a declined download has no driver"),
    }
}

#[test]
fn confirmed_download_begins_with_the_first_announcement() {
    match confirm(true, jobs_of(&[1, 2]), "u".to_string(), "4".to_string()) {
        Confirmation::Proceed(driver) => {
            assert_eq!(driver.pending(), Action::Send("Downloading 1 of 2: \"t0\"".to_string()));
        }
        Confirmation::Cancel(_) => panic!("a confirmed download has a driver"),
    }
    match confirm(true, Vec::new(), "u".to_string(), "4".to_string()) {
        Confirmation::Proceed(driver) => {
            assert_eq!(driver.pending(), Action::Send("ALL_DOWNLOADS_COMPLETE".to_string()));
        }
        Confirmation::Cancel(_) => panic!("a confirmed download has a driver"),
    }
}

#[test]
fn unreadable_report_ends_with_status_one() {
    let exit = extraction_failed(&b"lux: not found".to_vec());
    assert_eq!(
        exit,
        Exit {
            lines: vec!["Error getting info".to_string(), "lux: not found".to_string()],
            status: 1,
        }
    );
    let exit = extraction_failed(&vec![b'a', 0x80]);
    assert_eq!(exit.lines[1], "a\u{fffd}");
    assert_eq!(
        extraction_failure_exit("raw".to_string()),
        Exit { lines: vec!["Error getting info".to_string(), "raw".to_string()], status: 1 }
    );
}

#[test]
fn questions_and_default() {
    assert_eq!(SOURCE_PROMPT, "The video's URL or BV Code:");
    assert_eq!(THREAD_COUNT_PROMPT, "Thread count:");
    assert_eq!(DEFAULT_THREAD_COUNT, "4");
}

#[test]
fn clones_are_equal() {
    let info = item("Video A", vec![stream("80", "1080P", 10), stream("64", "720P", 9)]);
    assert_eq!(info.clone(), info);
    let s = stream("80", "1080P", 10);
    assert_eq!(s.clone(), s);
    let job = SelectedJob { stream: stream("1", "q", 2), title: "t".to_string() };
    assert_eq!(job.clone(), job);
    let d = Danmaku { url: "d".to_string(), size: 3, ext: "xml".to_string() };
    assert_eq!(d.clone(), d);
}

#[test]
fn defaults_are_empty() {
    assert_eq!(Parts::default(), Parts { url: String::new(), size: 0, ext: String::new() });
    assert_eq!(Danmaku::default(), Danmaku { url: String::new(), size: 0, ext: String::new() });
    assert_eq!(
        Caption::default(),
        Caption { danmaku: Danmaku::default(), subtitle: String::new() }
    );
    assert_eq!(
        StreamInfo::default(),
        StreamInfo {
            id: String::new(),
            quality: String::new(),
            parts: Vec::new(),
            size: 0,
            ext: String::new(),
            need_mux: false,
        }
    );
    assert_eq!(UrlInfo::default().title, "");
    assert!(UrlInfo::default().streams.is_empty());
}
