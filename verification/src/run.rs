//! Whole runs of the driver, and what holds of them.
//!
//! A run is the sequence of events that the driver is told of, from its
//! first state on. What was sent and what was fetched can be read off it.

use vstd::prelude::*;
use crate::command::FetchRequestView;
use crate::driver::{ActionView, DriverView, EventView, PhaseView};
use crate::message::{
    completion_banner, report_message, report_message_is_not_sentinel, sentinel, start_message,
    start_message_is_not_sentinel, FetchOutcomeView,
};
use crate::job::SelectedJobView;
use crate::sink::{printed, sink_stops_at_first_sentinel};

verus! {

/// The driver after the events of `events`, in their order.
pub open spec fn run(start: DriverView, events: Seq<EventView>) -> DriverView
    decreases events.len(),
{
    if events.len() == 0 {
        start
    } else {
        run(start, events.drop_last()).advance(events.last())
    }
}

/// The messages that the channel took in the course of `events`, in the
/// order in which it took them.
pub open spec fn delivered(start: DriverView, events: Seq<EventView>) -> Seq<Seq<char>>
    decreases events.len(),
{
    if events.len() == 0 {
        Seq::empty()
    } else {
        let earlier = delivered(start, events.drop_last());
        match (run(start, events.drop_last()).pending(), events.last()) {
            (ActionView::Send(message), EventView::Sent) => earlier.push(message),
            _ => earlier,
        }
    }
}

/// The runs of the fetcher that ended in the course of `events`, in their
/// order.
pub open spec fn fetched(start: DriverView, events: Seq<EventView>) -> Seq<FetchRequestView>
    decreases events.len(),
{
    if events.len() == 0 {
        Seq::empty()
    } else {
        let earlier = fetched(start, events.drop_last());
        match (run(start, events.drop_last()).pending(), events.last()) {
            (ActionView::Fetch(request), EventView::Fetched(_)) => earlier.push(request),
            _ => earlier,
        }
    }
}

/// The events of jobs that end as `outcomes` say while the channel takes
/// every message: for each job the announcement taken, the fetcher's end,
/// and the report taken.
pub open spec fn smooth_events(outcomes: Seq<FetchOutcomeView>) -> Seq<EventView>
    decreases outcomes.len(),
{
    if outcomes.len() == 0 {
        Seq::empty()
    } else {
        smooth_events(outcomes.drop_last()).push(EventView::Sent).push(
            EventView::Fetched(outcomes.last()),
        ).push(EventView::Sent)
    }
}

/// The status line at place `i` of a run in which the channel takes every
/// message: announcements at the even places, reports at the odd ones.
pub open spec fn status_line(
    jobs: Seq<SelectedJobView>,
    outcomes: Seq<FetchOutcomeView>,
    i: int,
) -> Seq<char> {
    if i % 2 == 0 {
        start_message((i / 2 + 1) as nat, jobs.len(), jobs[i / 2].title)
    } else {
        report_message((i / 2 + 1) as nat, jobs[i / 2].title, outcomes[i / 2])
    }
}

/// All that is sent when the jobs end as `outcomes` say and the channel
/// takes every message: for each job its announcement and its report, and
/// the sentinel at the end.
pub open spec fn transcript(jobs: Seq<SelectedJobView>, outcomes: Seq<FetchOutcomeView>) -> Seq<
    Seq<char>,
> {
    Seq::new(2 * jobs.len(), |i: int| status_line(jobs, outcomes, i)).push(sentinel())
}

/// The driver is in one of its states after every event.
pub proof fn advance_keeps_wf(state: DriverView, event: EventView)
    requires
        state.wf(),
    ensures
        state.advance(event).wf(),
{
}

/// The driver is in one of its states throughout a run.
pub proof fn run_keeps_wf(start: DriverView, events: Seq<EventView>)
    requires
        start.wf(),
    ensures
        run(start, events).wf(),
    decreases events.len(),
{
    if events.len() > 0 {
        run_keeps_wf(start, events.drop_last());
        advance_keeps_wf(run(start, events.drop_last()), events.last());
    }
}

proof fn lemma_run_push(start: DriverView, events: Seq<EventView>, event: EventView)
    ensures
        run(start, events.push(event)) == run(start, events).advance(event),
        delivered(start, events.push(event)) == match (run(start, events).pending(), event) {
            (ActionView::Send(message), EventView::Sent) => delivered(start, events).push(message),
            _ => delivered(start, events),
        },
        fetched(start, events.push(event)) == match (run(start, events).pending(), event) {
            (ActionView::Fetch(request), EventView::Fetched(_)) => fetched(start, events).push(
                request,
            ),
            _ => fetched(start, events),
        },
{
    assert(events.push(event).drop_last() =~= events);
    assert(events.push(event).last() == event);
}

proof fn lemma_smooth_prefix(
    jobs: Seq<SelectedJobView>,
    url: Seq<char>,
    thread_count: Seq<char>,
    outcomes: Seq<FetchOutcomeView>,
)
    requires
        outcomes.len() <= jobs.len(),
    ensures
        ({
            let start = DriverView::initial(jobs, url, thread_count);
            let events = smooth_events(outcomes);
            let done = outcomes.len();
            &&& run(start, events) == DriverView {
                jobs,
                url,
                thread_count,
                position: done,
                phase: if done < jobs.len() {
                    PhaseView::Announcing
                } else {
                    PhaseView::Finishing
                },
            }
            &&& delivered(start, events) == Seq::new(
                2 * done,
                |i: int| status_line(jobs, outcomes, i),
            )
            &&& fetched(start, events) == Seq::new(done, |i: int| start.request(i))
        }),
    decreases outcomes.len(),
{
    let start = DriverView::initial(jobs, url, thread_count);
    let done = outcomes.len();
    if done == 0 {
        assert(delivered(start, smooth_events(outcomes)) =~= Seq::new(
            2 * done,
            |i: int| status_line(jobs, outcomes, i),
        ));
        assert(fetched(start, smooth_events(outcomes)) =~= Seq::new(
            done,
            |i: int| start.request(i),
        ));
    } else {
        let before = outcomes.drop_last();
        let outcome = outcomes.last();
        let place = done - 1;
        lemma_smooth_prefix(jobs, url, thread_count, before);
        let e0 = smooth_events(before);
        let e1 = e0.push(EventView::Sent);
        let e2 = e1.push(EventView::Fetched(outcome));
        let e3 = e2.push(EventView::Sent);
        assert(smooth_events(outcomes) == e3);
        let s0 = run(start, e0);
        assert(s0.phase is Announcing);
        assert(s0.position == place);
        lemma_run_push(start, e0, EventView::Sent);
        let s1 = run(start, e1);
        assert(s1.phase is Fetching);
        lemma_run_push(start, e1, EventView::Fetched(outcome));
        let s2 = run(start, e2);
        assert(s2.phase == PhaseView::Reporting(outcome));
        lemma_run_push(start, e2, EventView::Sent);
        let s3 = run(start, e3);
        assert(s3 == s2.past_job());
        let announced = start_message((place + 1) as nat, jobs.len(), jobs[place].title);
        let reported = report_message((place + 1) as nat, jobs[place].title, outcome);
        assert(delivered(start, e3) == delivered(start, e0).push(announced).push(reported));
        assert(status_line(jobs, outcomes, 2 * place) == announced);
        assert(status_line(jobs, outcomes, 2 * place + 1) == reported);
        assert forall|i: int| 0 <= i < 2 * place implies status_line(jobs, before, i)
            == status_line(jobs, outcomes, i) by {
            assert(before[i / 2] == outcomes[i / 2]);
        }
        assert(delivered(start, e3) =~= Seq::new(
            2 * done,
            |i: int| status_line(jobs, outcomes, i),
        ));
        assert(fetched(start, e3) == fetched(start, e0).push(start.request(place)));
        assert(fetched(start, e3) =~= Seq::new(done, |i: int| start.request(i)));
    }
}

/// A transcript holds two messages for each job and one more. The sentinel
/// is the last of them, and none before it is the sentinel. The announcement
/// of the job at place `k` stands at place `2k`, its report right after it.
pub proof fn transcript_shape(jobs: Seq<SelectedJobView>, outcomes: Seq<FetchOutcomeView>)
    ensures
        ({
            let sent = transcript(jobs, outcomes);
            &&& sent.len() == 2 * jobs.len() + 1
            &&& sent.last() == sentinel()
            &&& forall|i: int| 0 <= i < sent.len() - 1 ==> sent[i] != sentinel()
            &&& forall|k: int|
                0 <= k < jobs.len() ==> sent[2 * k] == start_message(
                    (k + 1) as nat,
                    jobs.len(),
                    jobs[k].title,
                )
            &&& forall|k: int|
                0 <= k < jobs.len() ==> sent[2 * k + 1] == report_message(
                    (k + 1) as nat,
                    jobs[k].title,
                    outcomes[k],
                )
        }),
{
    let sent = transcript(jobs, outcomes);
    assert forall|i: int| 0 <= i < sent.len() - 1 implies sent[i] != sentinel() by {
        assert(sent[i] == status_line(jobs, outcomes, i));
        if i % 2 == 0 {
            start_message_is_not_sentinel((i / 2 + 1) as nat, jobs.len(), jobs[i / 2].title);
        } else {
            report_message_is_not_sentinel((i / 2 + 1) as nat, jobs[i / 2].title, outcomes[i / 2]);
        }
    }
    assert forall|k: int| 0 <= k < jobs.len() implies sent[2 * k] == start_message(
        (k + 1) as nat,
        jobs.len(),
        jobs[k].title,
    ) by {
        assert(sent[2 * k] == status_line(jobs, outcomes, 2 * k));
    }
    assert forall|k: int| 0 <= k < jobs.len() implies sent[2 * k + 1] == report_message(
        (k + 1) as nat,
        jobs[k].title,
        outcomes[k],
    ) by {
        assert(sent[2 * k + 1] == status_line(jobs, outcomes, 2 * k + 1));
    }
}

/// When the channel takes every message, the driver sends, for each job in
/// the order of the list, the job's announcement and then its report, and
/// after the last the sentinel, and then ends: what it has sent is the
/// transcript.
pub proof fn smooth_run_sends_transcript(
    jobs: Seq<SelectedJobView>,
    url: Seq<char>,
    thread_count: Seq<char>,
    outcomes: Seq<FetchOutcomeView>,
)
    requires
        outcomes.len() == jobs.len(),
    ensures
        ({
            let start = DriverView::initial(jobs, url, thread_count);
            let events = smooth_events(outcomes).push(EventView::Sent);
            &&& delivered(start, events) == transcript(jobs, outcomes)
            &&& run(start, events).phase is Stopped
            &&& run(start, events).pending() is Stop
        }),
{
    let start = DriverView::initial(jobs, url, thread_count);
    let smooth = smooth_events(outcomes);
    lemma_smooth_prefix(jobs, url, thread_count, outcomes);
    lemma_run_push(start, smooth, EventView::Sent);
    assert(run(start, smooth).pending() == ActionView::Send(sentinel()));
    assert(delivered(start, smooth.push(EventView::Sent)) == delivered(start, smooth).push(
        sentinel(),
    ));
}

/// The fetcher runs once for each job, in the order of the list, and the
/// run for the job at place `i` names the job's stream and the item `i + 1`.
pub proof fn smooth_run_fetches_in_order(
    jobs: Seq<SelectedJobView>,
    url: Seq<char>,
    thread_count: Seq<char>,
    outcomes: Seq<FetchOutcomeView>,
)
    requires
        outcomes.len() == jobs.len(),
    ensures
        ({
            let start = DriverView::initial(jobs, url, thread_count);
            let runs = fetched(start, smooth_events(outcomes).push(EventView::Sent));
            &&& runs.len() == jobs.len()
            &&& forall|i: int|
                0 <= i < jobs.len() ==> runs[i] == (FetchRequestView {
                    stream_id: jobs[i].stream.id,
                    thread_count,
                    item: (i + 1) as nat,
                    url,
                })
        }),
{
    let start = DriverView::initial(jobs, url, thread_count);
    lemma_smooth_prefix(jobs, url, thread_count, outcomes);
    lemma_run_push(start, smooth_events(outcomes), EventView::Sent);
}

/// How many runs of the fetcher have ended when the driver is in `state`.
pub open spec fn fetches_behind(state: DriverView) -> nat {
    if state.phase is Reporting {
        state.position + 1
    } else {
        state.position
    }
}

proof fn lemma_run_invariant(
    jobs: Seq<SelectedJobView>,
    url: Seq<char>,
    thread_count: Seq<char>,
    events: Seq<EventView>,
)
    ensures
        ({
            let start = DriverView::initial(jobs, url, thread_count);
            let state = run(start, events);
            let sent = delivered(start, events);
            &&& state.wf()
            &&& state.jobs == jobs
            &&& state.url == url
            &&& state.thread_count == thread_count
            &&& fetched(start, events) == Seq::new(
                fetches_behind(state),
                |i: int| start.request(i),
            )
            &&& forall|i: int| 0 <= i < sent.len() - 1 ==> sent[i] != sentinel()
            &&& state.phase !is Stopped ==> forall|i: int|
                0 <= i < sent.len() ==> sent[i] != sentinel()
        }),
    decreases events.len(),
{
    let start = DriverView::initial(jobs, url, thread_count);
    if events.len() == 0 {
        assert(fetched(start, events) =~= Seq::new(
            fetches_behind(start),
            |i: int| start.request(i),
        ));
    } else {
        let earlier = events.drop_last();
        let event = events.last();
        lemma_run_invariant(jobs, url, thread_count, earlier);
        let before = run(start, earlier);
        let state = run(start, events);
        let place = before.position as int;
        assert(state == before.advance(event));
        assert(fetched(start, events) =~= Seq::new(
            fetches_behind(state),
            |i: int| start.request(i),
        ));
        match (before.pending(), event) {
            (ActionView::Send(message), EventView::Sent) => {
                assert(delivered(start, events) == delivered(start, earlier).push(message));
                if before.phase is Announcing {
                    start_message_is_not_sentinel(
                        (place + 1) as nat,
                        jobs.len(),
                        jobs[place].title,
                    );
                } else if before.phase is Reporting {
                    report_message_is_not_sentinel(
                        (place + 1) as nat,
                        jobs[place].title,
                        before.phase->Reporting_0,
                    );
                }
            },
            _ => {
                assert(delivered(start, events) == delivered(start, earlier));
            },
        }
    }
}

/// Whatever happens to the messages and however the fetchers end, the
/// fetcher runs for the jobs in the order of the list, without a gap and
/// never twice for one job, and the run for the job at place `i` names the
/// job's stream and the item `i + 1`.
pub proof fn every_run_fetches_in_list_order(
    jobs: Seq<SelectedJobView>,
    url: Seq<char>,
    thread_count: Seq<char>,
    events: Seq<EventView>,
)
    ensures
        ({
            let runs = fetched(DriverView::initial(jobs, url, thread_count), events);
            &&& runs.len() <= jobs.len()
            &&& forall|i: int|
                0 <= i < runs.len() ==> runs[i] == (FetchRequestView {
                    stream_id: jobs[i].stream.id,
                    thread_count,
                    item: (i + 1) as nat,
                    url,
                })
        }),
{
    lemma_run_invariant(jobs, url, thread_count, events);
}

/// Whatever happens to the messages and however the fetchers end, the
/// driver sends the sentinel at most once, and nothing after it.
pub proof fn sentinel_is_sent_last_or_never(
    jobs: Seq<SelectedJobView>,
    url: Seq<char>,
    thread_count: Seq<char>,
    events: Seq<EventView>,
)
    ensures
        ({
            let sent = delivered(DriverView::initial(jobs, url, thread_count), events);
            forall|i: int| 0 <= i < sent.len() - 1 ==> sent[i] != sentinel()
        }),
{
    lemma_run_invariant(jobs, url, thread_count, events);
}

/// However the fetcher of a job ended, the driver reports it, and whether
/// or not the channel takes the report, the driver then goes on: to the
/// announcement of the next job, or to the sentinel after the last.
pub proof fn driver_goes_on_after_any_outcome(
    state: DriverView,
    outcome: FetchOutcomeView,
    report_taken: bool,
)
    requires
        state.wf(),
        state.phase is Fetching,
    ensures
        ({
            let place = state.position as int;
            let reporting = state.advance(EventView::Fetched(outcome));
            let after = reporting.advance(
                if report_taken {
                    EventView::Sent
                } else {
                    EventView::ChannelClosed
                },
            );
            &&& reporting.pending() == ActionView::Send(
                report_message((place + 1) as nat, state.jobs[place].title, outcome),
            )
            &&& after.position == place + 1
            &&& place + 1 < state.jobs.len() ==> after.pending() == ActionView::Send(
                start_message((place + 2) as nat, state.jobs.len(), state.jobs[place + 1].title),
            )
            &&& place + 1 == state.jobs.len() ==> after.pending() == ActionView::Send(sentinel())
        }),
{
}

/// With no job the driver sends the sentinel and nothing else, and the sink
/// shows the banner and nothing else.
pub proof fn empty_run_sends_only_sentinel(url: Seq<char>, thread_count: Seq<char>)
    ensures
        ({
            let start = DriverView::initial(Seq::empty(), url, thread_count);
            let events = seq![EventView::Sent];
            &&& delivered(start, events) == seq![sentinel()]
            &&& run(start, events).pending() is Stop
            &&& printed(delivered(start, events)) == seq![completion_banner()]
        }),
{
    let start = DriverView::initial(Seq::empty(), url, thread_count);
    let none: Seq<EventView> = Seq::empty();
    assert(seq![EventView::Sent] =~= none.push(EventView::Sent));
    lemma_run_push(start, none, EventView::Sent);
    assert(delivered(start, none.push(EventView::Sent)) =~= seq![sentinel()]);
    sink_stops_at_first_sentinel(seq![sentinel()], 0);
    assert(seq![sentinel()].take(0).push(completion_banner()) =~= seq![completion_banner()]);
}

/// Of what the driver sends when the channel takes every message, the sink
/// shows every status line as it is, in the order sent, then the banner,
/// and nothing after it.
pub proof fn transcript_is_printed_with_banner(
    jobs: Seq<SelectedJobView>,
    outcomes: Seq<FetchOutcomeView>,
)
    ensures
        printed(transcript(jobs, outcomes)) == Seq::new(
            2 * jobs.len(),
            |i: int| status_line(jobs, outcomes, i),
        ).push(completion_banner()),
{
    let sent = transcript(jobs, outcomes);
    let place = 2 * jobs.len() as int;
    transcript_shape(jobs, outcomes);
    sink_stops_at_first_sentinel(sent, place);
    assert(sent.take(place) =~= Seq::new(2 * jobs.len(), |i: int| status_line(jobs, outcomes, i)));
}

} // verus!
