//! The log sink: what it shows of what it receives, and when it stops.

use vstd::prelude::*;
use vstd::string::*;
use crate::message::{completion_banner, completion_banner_text, is_sentinel, sentinel};

verus! {

/// What the sink does with what the channel gave it.
#[derive(Debug, PartialEq)]
pub struct SinkStep {
    /// The text to put on the console, followed by a line break.
    pub print: Option<String>,
    /// Whether to receive again.
    pub proceed: bool,
}

/// The model of a [`SinkStep`].
pub struct SinkStepView {
    pub print: Option<Seq<char>>,
    pub proceed: bool,
}

impl View for SinkStep {
    type V = SinkStepView;

    open spec fn view(&self) -> SinkStepView {
        SinkStepView {
            print: match self.print {
                Some(text) => Some(text@),
                None => None,
            },
            proceed: self.proceed,
        }
    }
}

/// The sink's step on `received`, which is a message or, with `None`, the
/// news that the channel is closed. A status line is shown as it is, and the
/// sink goes on. In place of the sentinel the banner is shown, and the sink
/// stops. On a closed channel it stops and shows nothing.
pub open spec fn sink_step(received: Option<Seq<char>>) -> SinkStepView {
    match received {
        Some(message) => if message == sentinel() {
            SinkStepView { print: Some(completion_banner()), proceed: false }
        } else {
            SinkStepView { print: Some(message), proceed: true }
        },
        None => SinkStepView { print: None, proceed: false },
    }
}

/// The model of what the channel gave.
pub open spec fn received_view(received: Option<String>) -> Option<Seq<char>> {
    match received {
        Some(message) => Some(message@),
        None => None,
    }
}

/// Decides what the sink does with what the channel gave it.
pub fn react(received: Option<String>) -> (step: SinkStep)
    ensures
        step@ == sink_step(received_view(received)),
{
    match received {
        Some(message) => {
            if is_sentinel(message.as_str()) {
                SinkStep { print: Some(completion_banner_text()), proceed: false }
            } else {
                SinkStep { print: Some(message), proceed: true }
            }
        },
        None => SinkStep { print: None, proceed: false },
    }
}

/// All that the sink shows when the channel gives it `messages`, in their
/// order, and is closed after them.
pub open spec fn printed(messages: Seq<Seq<char>>) -> Seq<Seq<char>>
    decreases messages.len(),
{
    if messages.len() == 0 {
        Seq::empty()
    } else {
        let step = sink_step(Some(messages.first()));
        let shown = match step.print {
            Some(text) => seq![text],
            None => Seq::empty(),
        };
        if step.proceed {
            shown + printed(messages.drop_first())
        } else {
            shown
        }
    }
}

/// Where no sentinel comes, the sink shows every message as it is, in the
/// order of receipt.
pub proof fn status_lines_are_printed_verbatim(messages: Seq<Seq<char>>)
    requires
        forall|i: int| 0 <= i < messages.len() ==> messages[i] != sentinel(),
    ensures
        printed(messages) == messages,
    decreases messages.len(),
{
    if messages.len() > 0 {
        status_lines_are_printed_verbatim(messages.drop_first());
        assert(printed(messages) =~= messages);
    }
}

/// The sink shows every message before the first sentinel as it is, in the
/// order of receipt, then the banner in place of the sentinel, and nothing
/// of what comes after.
pub proof fn sink_stops_at_first_sentinel(messages: Seq<Seq<char>>, place: int)
    requires
        0 <= place < messages.len(),
        messages[place] == sentinel(),
        forall|i: int| 0 <= i < place ==> messages[i] != sentinel(),
    ensures
        printed(messages) == messages.take(place).push(completion_banner()),
    decreases place,
{
    if place == 0 {
        assert(printed(messages) =~= messages.take(place).push(completion_banner()));
    } else {
        let rest = messages.drop_first();
        assert(rest[place - 1] == messages[place]);
        sink_stops_at_first_sentinel(rest, place - 1);
        assert(printed(messages) =~= messages.take(place).push(completion_banner()));
    }
}

} // verus!
