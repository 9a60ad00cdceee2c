//! The texts that travel from the download driver to the log sink.
//!
//! A log message is a text. One text is reserved: the sentinel, which says
//! that no further message will come. Every other text is a status line.

use vstd::prelude::*;
use vstd::string::*;
use vstd::utf8::*;
use crate::text::{decimal, decimal_string};

verus! {

/// How many messages the channel between driver and sink holds before a
/// send has to wait.
pub const CHANNEL_BOUND: usize = 100;

/// The reserved text that ends the stream of messages.
pub open spec fn sentinel() -> Seq<char> {
    "ALL_DOWNLOADS_COMPLETE"@
}

/// What the sink shows in place of the sentinel: four lines.
pub open spec fn completion_banner() -> Seq<char> {
    "----------------------------------------\nAll downloads completed\n----------------------------------------\nExiting..."@
}

/// The line that announces job `number` of `total`.
pub open spec fn start_message(number: nat, total: nat, title: Seq<char>) -> Seq<char> {
    "Downloading "@ + decimal(number) + " of "@ + decimal(total) + ": \""@ + title + "\""@
}

/// The line that reports job `number` as fetched.
pub open spec fn success_message(number: nat, title: Seq<char>) -> Seq<char> {
    "Download completed for video "@ + decimal(number) + ": \""@ + title + "\""@
}

/// The line that reports a fetcher that ran and failed, with what it wrote
/// to its error stream.
pub open spec fn failure_message(title: Seq<char>, diagnostics: Seq<char>) -> Seq<char> {
    "Error during download of \""@ + title + "\": "@ + diagnostics
}

/// The line that reports a fetcher that could not be started.
pub open spec fn launch_failure_message(title: Seq<char>, detail: Seq<char>) -> Seq<char> {
    "Failed to execute command for \""@ + title + "\": "@ + detail
}

/// The text that `String::from_utf8_lossy` makes of `bytes`.
pub uninterp spec fn utf8_lossy(bytes: Seq<u8>) -> Seq<char>;

/// Bytes as they are shown: the text they encode where they are UTF-8, and
/// otherwise what the lossy decoding makes of them.
pub open spec fn shown(bytes: Seq<u8>) -> Seq<char> {
    if valid_utf8(bytes) {
        decode_utf8(bytes)
    } else {
        utf8_lossy(bytes)
    }
}

/// Decodes bytes as UTF-8 with `String::from_utf8_lossy` of std, which puts
/// U+FFFD in place of what is not UTF-8. Trusted: the result is the named
/// text of the bytes, and bytes that are UTF-8 decode to the text they encode.
#[verifier::external_body]
fn decode_lossy(bytes: &Vec<u8>) -> (text: String)
    ensures
        text@ == utf8_lossy(bytes@),
        valid_utf8(bytes@) ==> text@ == decode_utf8(bytes@),
{
    String::from_utf8_lossy(bytes).into_owned()
}

/// Decodes bytes for showing.
pub fn shown_text(bytes: &Vec<u8>) -> (text: String)
    ensures
        text@ == shown(bytes@),
{
    decode_lossy(bytes)
}

/// How a fetcher ended.
#[derive(Debug, PartialEq)]
pub enum FetchOutcome {
    /// It ran and exited, with a zero status or not; `stderr` is what it
    /// wrote to its error stream.
    Exited { success: bool, stderr: Vec<u8> },
    /// It could not be started; `detail` says why.
    LaunchFailed { detail: String },
}

/// The model of a [`FetchOutcome`].
pub enum FetchOutcomeView {
    Exited { success: bool, stderr: Seq<u8> },
    LaunchFailed { detail: Seq<char> },
}

impl View for FetchOutcome {
    type V = FetchOutcomeView;

    open spec fn view(&self) -> FetchOutcomeView {
        match self {
            FetchOutcome::Exited { success, stderr } => FetchOutcomeView::Exited {
                success: *success,
                stderr: stderr@,
            },
            FetchOutcome::LaunchFailed { detail } => FetchOutcomeView::LaunchFailed {
                detail: detail@,
            },
        }
    }
}

/// The line that reports how job `number` ended.
pub open spec fn report_message(number: nat, title: Seq<char>, outcome: FetchOutcomeView) -> Seq<
    char,
> {
    match outcome {
        FetchOutcomeView::Exited { success, stderr } => if success {
            success_message(number, title)
        } else {
            failure_message(title, shown(stderr))
        },
        FetchOutcomeView::LaunchFailed { detail } => launch_failure_message(title, detail),
    }
}

/// Makes the sentinel.
pub fn sentinel_text() -> (message: String)
    ensures
        message@ == sentinel(),
{
    String::from_str("ALL_DOWNLOADS_COMPLETE")
}

/// Makes the completion banner.
pub fn completion_banner_text() -> (banner: String)
    ensures
        banner@ == completion_banner(),
{
    String::from_str(
        "----------------------------------------\nAll downloads completed\n----------------------------------------\nExiting...",
    )
}

/// Whether `message` is the sentinel.
pub fn is_sentinel(message: &str) -> (yes: bool)
    ensures
        yes == (message@ == sentinel()),
{
    let reserved = sentinel_text();
    let given = String::from_str(message);
    given == reserved
}

/// Makes the line that announces job `number` of `total`.
pub fn start_text(number: usize, total: usize, title: &str) -> (message: String)
    ensures
        message@ == start_message(number as nat, total as nat, title@),
{
    let mut message = String::from_str("Downloading ");
    message.append(decimal_string(number as u128).as_str());
    message.append(" of ");
    message.append(decimal_string(total as u128).as_str());
    message.append(": \"");
    message.append(title);
    message.append("\"");
    assert(message@ =~= start_message(number as nat, total as nat, title@));
    message
}

/// Makes the line that reports job `number` as fetched.
pub fn success_text(number: usize, title: &str) -> (message: String)
    ensures
        message@ == success_message(number as nat, title@),
{
    let mut message = String::from_str("Download completed for video ");
    message.append(decimal_string(number as u128).as_str());
    message.append(": \"");
    message.append(title);
    message.append("\"");
    assert(message@ =~= success_message(number as nat, title@));
    message
}

/// Makes the line that reports a fetcher that ran and failed.
pub fn failure_text(title: &str, diagnostics: &str) -> (message: String)
    ensures
        message@ == failure_message(title@, diagnostics@),
{
    let mut message = String::from_str("Error during download of \"");
    message.append(title);
    message.append("\": ");
    message.append(diagnostics);
    assert(message@ =~= failure_message(title@, diagnostics@));
    message
}

/// Makes the line that reports a fetcher that could not be started.
pub fn launch_failure_text(title: &str, detail: &str) -> (message: String)
    ensures
        message@ == launch_failure_message(title@, detail@),
{
    let mut message = String::from_str("Failed to execute command for \"");
    message.append(title);
    message.append("\": ");
    message.append(detail);
    assert(message@ =~= launch_failure_message(title@, detail@));
    message
}

/// Makes the line that reports how job `number` ended. What a failed fetcher
/// wrote to its error stream is decoded for showing.
pub fn report_text(number: usize, title: &str, outcome: &FetchOutcome) -> (message: String)
    ensures
        message@ == report_message(number as nat, title@, outcome@),
{
    match outcome {
        FetchOutcome::Exited { success, stderr } => {
            if *success {
                success_text(number, title)
            } else {
                let diagnostics = shown_text(stderr);
                failure_text(title, diagnostics.as_str())
            }
        },
        FetchOutcome::LaunchFailed { detail } => launch_failure_text(title, detail.as_str()),
    }
}

/// No announcement is the sentinel.
pub proof fn start_message_is_not_sentinel(number: nat, total: nat, title: Seq<char>)
    ensures
        start_message(number, total, title) != sentinel(),
{
    reveal_strlit("Downloading ");
    reveal_strlit("ALL_DOWNLOADS_COMPLETE");
    assert(start_message(number, total, title)[0] == 'D');
    assert(sentinel()[0] == 'A');
}

/// No report is the sentinel.
pub proof fn report_message_is_not_sentinel(
    number: nat,
    title: Seq<char>,
    outcome: FetchOutcomeView,
)
    ensures
        report_message(number, title, outcome) != sentinel(),
{
    reveal_strlit("Download completed for video ");
    reveal_strlit("Error during download of \"");
    reveal_strlit("Failed to execute command for \"");
    reveal_strlit("ALL_DOWNLOADS_COMPLETE");
    assert(sentinel()[0] == 'A');
    match outcome {
        FetchOutcomeView::Exited { success, stderr } => {
            if success {
                assert(success_message(number, title)[0] == 'D');
            } else {
                assert(failure_message(title, shown(stderr))[0] == 'E');
            }
        },
        FetchOutcomeView::LaunchFailed { detail } => {
            assert(launch_failure_message(title, detail)[0] == 'F');
        },
    }
}

/// The banner is not the sentinel: the sink never shows the sentinel itself.
pub proof fn banner_is_not_sentinel()
    ensures
        completion_banner() != sentinel(),
{
    reveal_strlit(
        "----------------------------------------\nAll downloads completed\n----------------------------------------\nExiting...",
    );
    reveal_strlit("ALL_DOWNLOADS_COMPLETE");
    assert(completion_banner()[0] == '-');
    assert(sentinel()[0] == 'A');
}

/// The report of a fetcher that ran and failed holds the job's title, right
/// after its first words, and ends with what the fetcher wrote to its error
/// stream.
pub proof fn failure_message_holds_title_and_diagnostics(
    title: Seq<char>,
    diagnostics: Seq<char>,
)
    ensures
        ({
            let message = failure_message(title, diagnostics);
            &&& message.subrange(26, 26 + title.len() as int) == title
            &&& message.subrange(message.len() - diagnostics.len(), message.len() as int)
                == diagnostics
        }),
{
    reveal_strlit("Error during download of \"");
    reveal_strlit("\": ");
    let message = failure_message(title, diagnostics);
    assert(message.subrange(26, 26 + title.len() as int) =~= title);
    assert(message.subrange(message.len() - diagnostics.len(), message.len() as int)
        =~= diagnostics);
}

} // verus!
