//! What the user chose: one stream for each item of the source.

use vstd::prelude::*;
use vstd::string::*;
use crate::model::url_info::{StreamInfo, StreamInfoView, UrlInfo};

verus! {

/// The stream chosen for one item, with the item's title. Its place in the
/// list of jobs is the item's place in the source.
#[derive(Debug, PartialEq)]
pub struct SelectedJob {
    pub stream: StreamInfo,
    pub title: String,
}

/// The model of a [`SelectedJob`].
pub struct SelectedJobView {
    pub stream: StreamInfoView,
    pub title: Seq<char>,
}

impl View for SelectedJob {
    type V = SelectedJobView;

    open spec fn view(&self) -> SelectedJobView {
        SelectedJobView { stream: self.stream@, title: self.title@ }
    }
}

impl Clone for SelectedJob {
    fn clone(&self) -> (copy: Self)
        ensures
            copy@ == self@,
    {
        SelectedJob { stream: self.stream.clone(), title: self.title.clone() }
    }
}

/// The models of a list of jobs, in the list's order.
pub open spec fn job_views(jobs: Seq<SelectedJob>) -> Seq<SelectedJobView> {
    jobs.map_values(|job: SelectedJob| job@)
}

impl UrlInfo {
    /// The job of fetching this item in `stream`.
    pub fn job(&self, stream: StreamInfo) -> (job: SelectedJob)
        ensures
            job@ == (SelectedJobView { stream: stream@, title: self.title@ }),
    {
        SelectedJob { stream, title: self.title.clone() }
    }
}

} // verus!
