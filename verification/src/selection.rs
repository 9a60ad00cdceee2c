//! What the user is asked on the way to the download, and what follows the
//! answers.

use vstd::prelude::*;
use vstd::string::*;
use crate::driver::{Driver, DriverView};
use crate::job::{job_views, SelectedJob, SelectedJobView};
use crate::message::{shown, shown_text};
use crate::model::url_info::UrlInfo;
use crate::text::{
    debug_string, debug_text, decimal, decimal_string, signed_decimal, signed_decimal_string, texts,
};

verus! {

/// The question for the source.
pub const SOURCE_PROMPT: &'static str = "The video's URL or BV Code:";

/// The question for the number of connections.
pub const THREAD_COUNT_PROMPT: &'static str = "Thread count:";

/// The number of connections where the user names none.
pub const DEFAULT_THREAD_COUNT: &'static str = "4";

/// The question for the stream of the item titled `quoted_title`, which is
/// the title as the question shows it.
pub open spec fn select_prompt(quoted_title: Seq<char>) -> Seq<char> {
    "Select a stream for: "@ + quoted_title
}

/// Makes the question for the stream of an item, from the title as the
/// question shows it.
pub fn select_prompt_text(quoted_title: &str) -> (prompt: String)
    ensures
        prompt@ == select_prompt(quoted_title@),
{
    let mut prompt = String::from_str("Select a stream for: ");
    prompt.append(quoted_title);
    prompt
}

impl UrlInfo {
    /// Makes the question for the stream of this item. It shows the title
    /// in its `Debug` form.
    pub fn select_prompt(&self) -> (prompt: String)
        ensures
            prompt@ == select_prompt(debug_text(self.title@)),
    {
        let quoted = debug_string(self.title.as_str());
        select_prompt_text(quoted.as_str())
    }
}

/// The bytes of all chosen streams together.
pub open spec fn total_bytes(jobs: Seq<SelectedJobView>) -> int
    decreases jobs.len(),
{
    if jobs.len() == 0 {
        0
    } else {
        total_bytes(jobs.drop_last()) + jobs.last().stream.size
    }
}

/// Bytes in the downloader's megabytes: divided by 800, then by 1000, each
/// time rounded towards zero.
pub open spec fn approx_megabytes(bytes: int) -> int {
    if bytes >= 0 {
        bytes / 800 / 1000
    } else {
        -((-bytes) / 800 / 1000)
    }
}

/// The question that precedes the download: how many items, and how many
/// megabytes about.
pub open spec fn confirm_prompt(jobs: Seq<SelectedJobView>) -> Seq<char> {
    "Download "@ + decimal(jobs.len()) + " videos with a total size of "@ + signed_decimal(
        approx_megabytes(total_bytes(jobs)),
    ) + " MB? (y or n)"@
}

/// Adds up the bytes of all chosen streams.
pub fn total_size(jobs: &Vec<SelectedJob>) -> (bytes: i128)
    ensures
        bytes == total_bytes(job_views(jobs@)),
{
    let ghost views = job_views(jobs@);
    let mut bytes: i128 = 0;
    let mut i: usize = 0;
    while i < jobs.len()
        invariant
            i <= jobs.len(),
            views == job_views(jobs@),
            bytes == total_bytes(views.take(i as int)),
            -0x8000_0000_0000_0000 * i <= bytes <= 0x8000_0000_0000_0000 * i,
        decreases jobs.len() - i,
    {
        assert(views.take(i + 1).drop_last() =~= views.take(i as int));
        assert(views.take(i + 1).last() == jobs[i as int]@);
        bytes = bytes + jobs[i].stream.size as i128;
        i += 1;
    }
    assert(views.take(i as int) =~= views);
    bytes
}

/// Converts bytes to the downloader's megabytes.
pub fn megabytes(bytes: i128) -> (approx: i128)
    ensures
        approx == approx_megabytes(bytes as int),
{
    bytes / 800 / 1000
}

/// Makes the question that precedes the download.
pub fn confirm_prompt_text(jobs: &Vec<SelectedJob>) -> (prompt: String)
    ensures
        prompt@ == confirm_prompt(job_views(jobs@)),
{
    let mut prompt = String::from_str("Download ");
    prompt.append(decimal_string(jobs.len() as u128).as_str());
    prompt.append(" videos with a total size of ");
    prompt.append(signed_decimal_string(megabytes(total_size(jobs))).as_str());
    prompt.append(" MB? (y or n)");
    assert(prompt@ =~= confirm_prompt(job_views(jobs@)));
    prompt
}

/// The end of the program before any download: what it still shows, and
/// the status it exits with.
#[derive(Debug, PartialEq)]
pub struct Exit {
    pub lines: Vec<String>,
    pub status: i32,
}

/// The model of an [`Exit`].
pub struct ExitView {
    pub lines: Seq<Seq<char>>,
    pub status: int,
}

impl View for Exit {
    type V = ExitView;

    open spec fn view(&self) -> ExitView {
        ExitView { lines: texts(self.lines@), status: self.status as int }
    }
}

/// The end after a report of the extractor that is not the JSON expected:
/// a notice, then the report as it came, and a status of one.
pub open spec fn extraction_failure(shown_report: Seq<char>) -> ExitView {
    ExitView { lines: seq!["Error getting info"@, shown_report], status: 1 }
}

/// The end after the user has declined: a notice, and a status of zero.
pub open spec fn cancellation() -> ExitView {
    ExitView { lines: seq!["Download cancelled"@], status: 0 }
}

/// Makes the end after an unreadable report of the extractor, from the
/// report as it is to be shown.
pub fn extraction_failure_exit(shown_report: String) -> (exit: Exit)
    ensures
        exit@ == extraction_failure(shown_report@),
{
    let mut lines: Vec<String> = Vec::new();
    lines.push(String::from_str("Error getting info"));
    lines.push(shown_report);
    let exit = Exit { lines, status: 1 };
    assert(exit@.lines =~= extraction_failure(shown_report@).lines);
    exit
}

/// Makes the end after an unreadable report of the extractor. The report
/// is shown as it came.
pub fn extraction_failed(report: &Vec<u8>) -> (exit: Exit)
    ensures
        exit@ == extraction_failure(shown(report@)),
{
    extraction_failure_exit(shown_text(report))
}

/// What follows the user's answer to the last question.
pub enum Confirmation {
    /// The download, with the driver that runs it.
    Proceed(Driver),
    /// The end of the program.
    Cancel(Exit),
}

/// Acts on the user's answer to the last question. On a yes the download
/// begins, with a driver for `jobs` before its first action. On a no the
/// program ends with a status of zero: there is no driver, and so no message.
pub fn confirm(answer: bool, jobs: Vec<SelectedJob>, url: String, thread_count: String) -> (next:
    Confirmation)
    ensures
        match next {
            Confirmation::Proceed(driver) => answer && driver@ == DriverView::initial(
                job_views(jobs@),
                url@,
                thread_count@,
            ),
            Confirmation::Cancel(exit) => !answer && exit@ == cancellation(),
        },
{
    if answer {
        Confirmation::Proceed(Driver::new(jobs, url, thread_count))
    } else {
        let mut lines: Vec<String> = Vec::new();
        lines.push(String::from_str("Download cancelled"));
        let exit = Exit { lines, status: 0 };
        assert(exit@.lines =~= cancellation().lines);
        Confirmation::Cancel(exit)
    }
}

/// For sizes that are not negative, the downloader's megabyte is 800,000
/// bytes, rounded down.
pub proof fn megabyte_is_800_000_bytes(bytes: int)
    requires
        bytes >= 0,
    ensures
        approx_megabytes(bytes) == bytes / 800_000,
{
    assert(bytes / 800 / 1000 == bytes / 800_000) by (nonlinear_arith)
        requires
            bytes >= 0,
    ;
}

} // verus!
