//! The download driver: which step follows which.
//!
//! The driver works through the jobs in the order of the list, one at a
//! time. For each it announces the job, has the fetcher run, and reports how
//! the fetcher ended; after the last it sends the sentinel. It neither sends
//! nor runs anything itself: it names the next action, and is told how the
//! action ended.

use vstd::prelude::*;
use vstd::string::*;
use crate::command::{FetchRequest, FetchRequestView};
use crate::message::{
    report_message, report_text, sentinel, sentinel_text, start_message, start_text, FetchOutcome,
    FetchOutcomeView,
};
use crate::job::{job_views, SelectedJob, SelectedJobView};

verus! {

/// What the driver wants done next.
#[derive(Debug, PartialEq)]
pub enum Action {
    /// Hand this message to the channel.
    Send(String),
    /// Run the fetcher and wait until it has ended.
    Fetch(FetchRequest),
    /// Nothing: the driver has ended.
    Stop,
}

/// The model of an [`Action`].
pub enum ActionView {
    Send(Seq<char>),
    Fetch(FetchRequestView),
    Stop,
}

impl View for Action {
    type V = ActionView;

    open spec fn view(&self) -> ActionView {
        match self {
            Action::Send(message) => ActionView::Send(message@),
            Action::Fetch(request) => ActionView::Fetch(request@),
            Action::Stop => ActionView::Stop,
        }
    }
}

/// How the action that the driver wanted has ended.
#[derive(Debug, PartialEq)]
pub enum Event {
    /// The channel took the message.
    Sent,
    /// The channel did not take the message: its receiving side is gone.
    ChannelClosed,
    /// The fetcher has ended.
    Fetched(FetchOutcome),
}

/// The model of an [`Event`].
pub enum EventView {
    Sent,
    ChannelClosed,
    Fetched(FetchOutcomeView),
}

impl View for Event {
    type V = EventView;

    open spec fn view(&self) -> EventView {
        match self {
            Event::Sent => EventView::Sent,
            Event::ChannelClosed => EventView::ChannelClosed,
            Event::Fetched(outcome) => EventView::Fetched(outcome@),
        }
    }
}

/// Where the driver stands with the job at its position.
pub enum PhaseView {
    /// The job's announcement is on its way to the channel.
    Announcing,
    /// The fetcher runs.
    Fetching,
    /// The fetcher has ended in this way, and the report is on its way.
    Reporting(FetchOutcomeView),
    /// All jobs are done, and the sentinel is on its way.
    Finishing,
    /// The driver has ended.
    Stopped,
}

/// The model of a [`Driver`].
pub struct DriverView {
    pub jobs: Seq<SelectedJobView>,
    pub url: Seq<char>,
    pub thread_count: Seq<char>,
    /// How many jobs are behind the driver.
    pub position: nat,
    pub phase: PhaseView,
}

/// What goes to the error stream when the channel refuses a status line.
pub open spec fn line_complaint() -> Seq<char> {
    "Error sending log message"@
}

/// What goes to the error stream when the channel refuses the sentinel.
pub open spec fn sentinel_complaint() -> Seq<char> {
    "Error sending completion message"@
}

impl DriverView {
    /// The driver before its first action.
    pub open spec fn initial(
        jobs: Seq<SelectedJobView>,
        url: Seq<char>,
        thread_count: Seq<char>,
    ) -> DriverView {
        DriverView {
            jobs,
            url,
            thread_count,
            position: 0,
            phase: if jobs.len() == 0 {
                PhaseView::Finishing
            } else {
                PhaseView::Announcing
            },
        }
    }

    /// The states a driver can be in: never more jobs behind it than there
    /// are; while a job is in work, that job in the list; and all jobs
    /// behind it when the sentinel goes out.
    pub open spec fn wf(self) -> bool {
        &&& self.position <= self.jobs.len()
        &&& (self.phase is Announcing || self.phase is Fetching || self.phase is Reporting)
            ==> self.position < self.jobs.len()
        &&& self.phase is Finishing ==> self.position == self.jobs.len()
    }

    /// The fetcher's run for the job at `position`: the chosen stream, and
    /// the item counted from one.
    pub open spec fn request(self, position: int) -> FetchRequestView {
        FetchRequestView {
            stream_id: self.jobs[position].stream.id,
            thread_count: self.thread_count,
            item: (position + 1) as nat,
            url: self.url,
        }
    }

    /// The action that the driver waits for.
    pub open spec fn pending(self) -> ActionView {
        let position = self.position as int;
        match self.phase {
            PhaseView::Announcing => ActionView::Send(
                start_message(self.position + 1, self.jobs.len(), self.jobs[position].title),
            ),
            PhaseView::Fetching => ActionView::Fetch(self.request(position)),
            PhaseView::Reporting(outcome) => ActionView::Send(
                report_message(self.position + 1, self.jobs[position].title, outcome),
            ),
            PhaseView::Finishing => ActionView::Send(sentinel()),
            PhaseView::Stopped => ActionView::Stop,
        }
    }

    /// The driver with the job at its position behind it.
    pub open spec fn past_job(self) -> DriverView {
        DriverView {
            position: self.position + 1,
            phase: if self.position + 1 < self.jobs.len() {
                PhaseView::Announcing
            } else {
                PhaseView::Finishing
            },
            ..self
        }
    }

    /// The driver after `event`. An announcement that the channel took is
    /// followed by the fetcher's run, and the fetcher's end by its report.
    /// Taken or not, a report is followed by the next job, or by the
    /// sentinel after the last, and the sentinel by the end. An announcement
    /// that the channel did not take ends the driver there. An event that
    /// does not answer the pending action changes nothing.
    pub open spec fn advance(self, event: EventView) -> DriverView {
        match (self.phase, event) {
            (PhaseView::Announcing, EventView::Sent) => DriverView {
                phase: PhaseView::Fetching,
                ..self
            },
            (PhaseView::Announcing, EventView::ChannelClosed) => DriverView {
                phase: PhaseView::Stopped,
                ..self
            },
            (PhaseView::Fetching, EventView::Fetched(outcome)) => DriverView {
                phase: PhaseView::Reporting(outcome),
                ..self
            },
            (PhaseView::Reporting(_), EventView::Sent) => self.past_job(),
            (PhaseView::Reporting(_), EventView::ChannelClosed) => self.past_job(),
            (PhaseView::Finishing, EventView::Sent) => DriverView {
                phase: PhaseView::Stopped,
                ..self
            },
            (PhaseView::Finishing, EventView::ChannelClosed) => DriverView {
                phase: PhaseView::Stopped,
                ..self
            },
            _ => self,
        }
    }

    /// What `event` makes the driver say on the error stream: something
    /// whenever the channel did not take a message, nothing otherwise.
    pub open spec fn complaint(self, event: EventView) -> Option<Seq<char>> {
        match (self.phase, event) {
            (PhaseView::Announcing, EventView::ChannelClosed) => Some(line_complaint()),
            (PhaseView::Reporting(_), EventView::ChannelClosed) => Some(line_complaint()),
            (PhaseView::Finishing, EventView::ChannelClosed) => Some(sentinel_complaint()),
            _ => None,
        }
    }
}

/// What the driver answers to an event.
#[derive(Debug, PartialEq)]
pub struct Reaction {
    /// A line for the error stream, if the event calls for one.
    pub complaint: Option<String>,
    /// What the driver wants done next.
    pub action: Action,
}

/// The model of a [`Reaction`].
pub struct ReactionView {
    pub complaint: Option<Seq<char>>,
    pub action: ActionView,
}

impl View for Reaction {
    type V = ReactionView;

    open spec fn view(&self) -> ReactionView {
        ReactionView {
            complaint: match self.complaint {
                Some(line) => Some(line@),
                None => None,
            },
            action: self.action@,
        }
    }
}

enum Phase {
    Announcing,
    Fetching,
    Reporting(FetchOutcome),
    Finishing,
    Stopped,
}

impl View for Phase {
    type V = PhaseView;

    closed spec fn view(&self) -> PhaseView {
        match self {
            Phase::Announcing => PhaseView::Announcing,
            Phase::Fetching => PhaseView::Fetching,
            Phase::Reporting(outcome) => PhaseView::Reporting(outcome@),
            Phase::Finishing => PhaseView::Finishing,
            Phase::Stopped => PhaseView::Stopped,
        }
    }
}

/// The download driver.
pub struct Driver {
    jobs: Vec<SelectedJob>,
    url: String,
    thread_count: String,
    position: usize,
    phase: Phase,
}

impl View for Driver {
    type V = DriverView;

    closed spec fn view(&self) -> DriverView {
        DriverView {
            jobs: job_views(self.jobs@),
            url: self.url@,
            thread_count: self.thread_count@,
            position: self.position as nat,
            phase: self.phase@,
        }
    }
}

impl Driver {
    /// Every driver is in one of the states a driver can be in.
    #[verifier::type_invariant]
    spec fn valid(self) -> bool {
        self@.wf()
    }

    /// A driver for `jobs`, in their order, before its first action.
    pub fn new(jobs: Vec<SelectedJob>, url: String, thread_count: String) -> (driver: Driver)
        ensures
            driver@ == DriverView::initial(job_views(jobs@), url@, thread_count@),
            driver@.wf(),
    {
        let phase = if jobs.len() == 0 {
            Phase::Finishing
        } else {
            Phase::Announcing
        };
        Driver { jobs, url, thread_count, position: 0, phase }
    }

    /// The action that the driver waits for.
    pub fn pending(&self) -> (action: Action)
        ensures
            action@ == self@.pending(),
            self@.wf(),
    {
        proof {
            use_type_invariant(self);
            assert(self@.jobs.len() == self.jobs.len());
        }
        match &self.phase {
            Phase::Announcing => {
                let job = &self.jobs[self.position];
                Action::Send(start_text(self.position + 1, self.jobs.len(), job.title.as_str()))
            },
            Phase::Fetching => {
                let job = &self.jobs[self.position];
                Action::Fetch(
                    FetchRequest {
                        stream_id: job.stream.id.clone(),
                        thread_count: self.thread_count.clone(),
                        item: self.position + 1,
                        url: self.url.clone(),
                    },
                )
            },
            Phase::Reporting(outcome) => {
                let job = &self.jobs[self.position];
                Action::Send(report_text(self.position + 1, job.title.as_str(), outcome))
            },
            Phase::Finishing => Action::Send(sentinel_text()),
            Phase::Stopped => Action::Stop,
        }
    }

    /// Tells the driver how its pending action has ended, and has it name
    /// the next. An event that does not answer the pending action is passed
    /// over: the driver names the same action again.
    pub fn step(&mut self, event: Event) -> (reaction: Reaction)
        ensures
            final(self)@ == old(self)@.advance(event@),
            reaction@.complaint == old(self)@.complaint(event@),
            reaction@.action == final(self)@.pending(),
            final(self)@.wf(),
    {
        proof {
            use_type_invariant(&*self);
        }
        let mut complaint: Option<String> = None;
        let announcing = matches!(self.phase, Phase::Announcing);
        let fetching = matches!(self.phase, Phase::Fetching);
        let reporting = matches!(self.phase, Phase::Reporting(_));
        let finishing = matches!(self.phase, Phase::Finishing);
        match event {
            Event::Sent => {
                if announcing {
                    self.phase = Phase::Fetching;
                } else if reporting {
                    self.pass_job();
                } else if finishing {
                    self.phase = Phase::Stopped;
                }
            },
            Event::ChannelClosed => {
                if announcing {
                    complaint = Some(String::from_str("Error sending log message"));
                    self.phase = Phase::Stopped;
                } else if reporting {
                    complaint = Some(String::from_str("Error sending log message"));
                    self.pass_job();
                } else if finishing {
                    complaint = Some(String::from_str("Error sending completion message"));
                    self.phase = Phase::Stopped;
                }
            },
            Event::Fetched(outcome) => {
                if fetching {
                    self.phase = Phase::Reporting(outcome);
                }
            },
        }
        let action = self.pending();
        Reaction { complaint, action }
    }

    /// Puts the job at the driver's position behind it.
    fn pass_job(&mut self)
        requires
            old(self)@.phase is Reporting,
        ensures
            final(self)@ == old(self)@.past_job(),
    {
        proof {
            use_type_invariant(&*self);
            assert(self@.jobs.len() == self.jobs.len());
        }
        self.phase = Phase::Stopped;
        self.position = self.position + 1;
        if self.position < self.jobs.len() {
            self.phase = Phase::Announcing;
        } else {
            self.phase = Phase::Finishing;
        }
    }
}

} // verus!
