//! The command lines of the downloader: one that lists what a source
//! offers, one that fetches a stream.

use vstd::prelude::*;
use vstd::string::*;
use crate::text::{decimal, decimal_string, texts};

verus! {

/// The downloader's program name.
pub const TOOL: &'static str = "lux";

/// The arguments that make the downloader list, as JSON, what `source`
/// offers: `-j <source>`.
pub open spec fn extractor_arguments(source: Seq<char>) -> Seq<Seq<char>> {
    seq!["-j"@, source]
}

/// Makes the arguments that list what `source` offers.
pub fn extractor_args(source: &str) -> (args: Vec<String>)
    ensures
        texts(args@) == extractor_arguments(source@),
{
    let mut args: Vec<String> = Vec::new();
    args.push(String::from_str("-j"));
    args.push(String::from_str(source));
    assert(texts(args@) =~= extractor_arguments(source@));
    args
}

/// One run of the fetcher: which stream of which item of which source, and
/// over how many connections.
#[derive(Debug, PartialEq)]
pub struct FetchRequest {
    pub stream_id: String,
    pub thread_count: String,
    /// The item's place in the source, counted from one.
    pub item: usize,
    pub url: String,
}

/// The model of a [`FetchRequest`].
pub struct FetchRequestView {
    pub stream_id: Seq<char>,
    pub thread_count: Seq<char>,
    pub item: nat,
    pub url: Seq<char>,
}

impl View for FetchRequest {
    type V = FetchRequestView;

    open spec fn view(&self) -> FetchRequestView {
        FetchRequestView {
            stream_id: self.stream_id@,
            thread_count: self.thread_count@,
            item: self.item as nat,
            url: self.url@,
        }
    }
}

/// The arguments that make the downloader fetch what `request` names:
/// `-f <stream> -n <connections> -items <item> -p <source>`, the item in
/// base ten.
pub open spec fn fetcher_arguments(request: FetchRequestView) -> Seq<Seq<char>> {
    seq![
        "-f"@,
        request.stream_id,
        "-n"@,
        request.thread_count,
        "-items"@,
        decimal(request.item),
        "-p"@,
        request.url,
    ]
}

impl FetchRequest {
    /// Makes the arguments of this run of the fetcher.
    pub fn args(&self) -> (args: Vec<String>)
        ensures
            texts(args@) == fetcher_arguments(self@),
    {
        let mut args: Vec<String> = Vec::new();
        args.push(String::from_str("-f"));
        args.push(self.stream_id.clone());
        args.push(String::from_str("-n"));
        args.push(self.thread_count.clone());
        args.push(String::from_str("-items"));
        args.push(decimal_string(self.item as u128));
        args.push(String::from_str("-p"));
        args.push(self.url.clone());
        assert(texts(args@) =~= fetcher_arguments(self@));
        args
    }
}

} // verus!
