//! The protocol that resolves one submitted request.
//!
//! The request is handed to the channel once. The channel either refuses it,
//! which fails the execution at once, or opens a stream of replies. The replies
//! are read in order. The first reply that is tagged as an error fails the
//! execution with that error; replies of any other kind are dropped. If the
//! stream ends and no error was seen, the execution has succeeded.
//!
//! An [`Execution`] holds the state of that exchange and decides; the driver
//! talks to the channel and reports each thing it observes as an [`Event`].

use crate::errors::Error;
use crate::packet::{envelope_payload, into_error, is_error, Envelope, Payload};
use netlink_packet_core::ErrorMessage;
use vstd::prelude::*;

verus! {

/// The state of one execution.
#[derive(Debug, PartialEq, Eq)]
pub enum Execution {
    /// The request is with the channel, which has not answered yet.
    Submitted,
    /// The channel has accepted the request; replies are being read.
    Draining,
    /// The reply stream has ended and held no error.
    Succeeded,
    /// A reply held this error.
    Failed(ErrorMessage),
    /// The channel refused the request, with this error.
    ImmediateFailure(Error),
}

/// What the driver observes on the channel.
#[derive(Debug, PartialEq, Eq)]
pub enum Event {
    /// The channel has accepted the request and opened the reply stream.
    Accepted,
    /// The channel has refused the request, with this error.
    Rejected(Error),
    /// The reply stream has delivered a message.
    Reply(Envelope),
    /// The reply stream has ended.
    Closed,
}

/// What `execute` leaves to the driver: the channel's handle, the framed
/// request to submit through it, and the execution that awaits the channel's
/// answer.
pub struct Submission<H> {
    pub handle: H,
    pub request: Envelope,
    pub execution: Execution,
}

impl Execution {
    /// Whether the execution has ended.
    pub open spec fn terminal(self) -> bool {
        self is Succeeded || self is Failed || self is ImmediateFailure
    }

    /// The outcome of an execution that has ended; `None` while it is under way.
    pub open spec fn result(self) -> Option<Result<(), Error>> {
        match self {
            Execution::Submitted => None,
            Execution::Draining => None,
            Execution::Succeeded => Some(Ok(())),
            Execution::Failed(error) => Some(Err(Error::NetlinkError(error))),
            Execution::ImmediateFailure(error) => Some(Err(error)),
        }
    }

    /// The state after `event`. An event that the state does not await changes
    /// nothing; in particular nothing changes an execution that has ended.
    pub open spec fn next(self, event: Event) -> Execution {
        match (self, event) {
            (Execution::Submitted, Event::Accepted) => Execution::Draining,
            (Execution::Submitted, Event::Rejected(error)) => Execution::ImmediateFailure(error),
            (Execution::Draining, Event::Reply(reply)) => match envelope_payload(reply) {
                Payload::Error(error) => Execution::Failed(error),
                _ => Execution::Draining,
            },
            (Execution::Draining, Event::Closed) => Execution::Succeeded,
            _ => self,
        }
    }

    /// The state after a sequence of events, taken in order.
    pub open spec fn run(self, events: Seq<Event>) -> Execution
        decreases events.len(),
    {
        if events.len() == 0 {
            self
        } else {
            self.next(events.first()).run(events.drop_first())
        }
    }

    /// Takes one event and moves to the next state.
    pub fn step(self, event: Event) -> (next: Execution)
        ensures
            next == self.next(event),
    {
        match self {
            Execution::Submitted => match event {
                Event::Accepted => Execution::Draining,
                Event::Rejected(error) => Execution::ImmediateFailure(error),
                _ => Execution::Submitted,
            },
            Execution::Draining => match event {
                Event::Reply(reply) => match into_error(reply) {
                    Some(error) => Execution::Failed(error),
                    None => Execution::Draining,
                },
                Event::Closed => Execution::Succeeded,
                _ => Execution::Draining,
            },
            ended => ended,
        }
    }

    /// Whether the execution has ended, so that no further event is awaited.
    pub fn is_terminal(&self) -> (ended: bool)
        ensures
            ended == self.terminal(),
    {
        match self {
            Execution::Submitted => false,
            Execution::Draining => false,
            _ => true,
        }
    }

    /// The outcome, once the execution has ended: success without a value, or
    /// the error. `None` while the execution is under way.
    pub fn outcome(self) -> (outcome: Option<Result<(), Error>>)
        ensures
            outcome == self.result(),
            outcome is Some == self.terminal(),
    {
        match self {
            Execution::Submitted => None,
            Execution::Draining => None,
            Execution::Succeeded => Some(Ok(())),
            Execution::Failed(error) => Some(Err(Error::NetlinkError(error))),
            Execution::ImmediateFailure(error) => Some(Err(error)),
        }
    }
}

/// The outcome that a reply stream stands for: the error of the first reply
/// that is tagged as an error, and success if there is no such reply.
pub open spec fn resolution(replies: Seq<Envelope>) -> Result<(), Error>
    decreases replies.len(),
{
    if replies.len() == 0 {
        Ok(())
    } else {
        match envelope_payload(replies.first()) {
            Payload::Error(error) => Err(Error::NetlinkError(error)),
            _ => resolution(replies.drop_first()),
        }
    }
}

/// The replies of a stream as the events that the driver reports for them.
pub open spec fn reply_events(replies: Seq<Envelope>) -> Seq<Event> {
    Seq::new(replies.len(), |i: int| Event::Reply(replies[i]))
}

/// Everything the driver reports of a request that the channel accepted and
/// answered with `replies`: the acceptance, each reply, and the end of the
/// stream.
pub open spec fn transcript(replies: Seq<Envelope>) -> Seq<Event> {
    seq![Event::Accepted] + reply_events(replies) + seq![Event::Closed]
}

/// Resolves a request that the channel accepted, against the replies it
/// delivered: drives an execution from the acceptance through the replies, and
/// stops at the first one that ends it.
pub fn resolve(replies: Vec<Envelope>) -> (outcome: Result<(), Error>)
    ensures
        outcome == resolution(replies@),
{
    let ghost all = replies@;
    let mut execution = Execution::Submitted.step(Event::Accepted);
    assert(all.skip(0) == all);
    for reply in stream: replies
        invariant
            stream.seq() == all,
            execution == Execution::Draining,
            resolution(all) == resolution(all.skip(stream.index())),
    {
        proof {
            let rest = all.skip(stream.index());
            assert(rest.first() == reply);
            assert(rest.drop_first() == all.skip(stream.index() + 1));
        }
        execution = execution.step(Event::Reply(reply));
        if execution.is_terminal() {
            return execution.outcome().unwrap();
        }
    }
    execution.step(Event::Closed).outcome().unwrap()
}

/// Events are taken one after the other: running through `first + second` is
/// running through `first` and then, from where that ended, through `second`.
pub proof fn lemma_run_in_parts(state: Execution, first: Seq<Event>, second: Seq<Event>)
    ensures
        state.run(first + second) == state.run(first).run(second),
    decreases first.len(),
{
    if first.len() == 0 {
        assert(first + second == second);
    } else {
        let whole = first + second;
        assert(whole.first() == first.first());
        assert(whole.drop_first() == first.drop_first() + second);
        lemma_run_in_parts(state.next(first.first()), first.drop_first(), second);
    }
}

/// An execution that has ended stays as it is, whatever is reported to it
/// afterwards: the outcome is settled once, and replies that follow the one
/// that settled it have no effect.
pub proof fn lemma_ended_is_final(state: Execution, events: Seq<Event>)
    requires
        state.terminal(),
    ensures
        state.run(events) == state,
    decreases events.len(),
{
    if events.len() > 0 {
        lemma_ended_is_final(state, events.drop_first());
    }
}

/// An execution only moves forward. Nothing leads back to `Submitted`, so the
/// channel's answer to the submission is awaited once in an execution and
/// never again; and once replies are being read, the execution cannot end as
/// refused.
pub proof fn lemma_only_forward(state: Execution, events: Seq<Event>)
    ensures
        !(state is Submitted) ==> !(state.run(events) is Submitted),
        state is Draining ==> !(state.run(events) is ImmediateFailure),
    decreases events.len(),
{
    if events.len() > 0 {
        let next = state.next(events.first());
        if next.terminal() {
            lemma_ended_is_final(next, events.drop_first());
        } else {
            lemma_only_forward(next, events.drop_first());
        }
    }
}

/// Reading replies leaves an execution draining as long as none of them is
/// tagged as an error, and fails it with the error of the first one that is.
/// No reply stream stands for any other failure.
pub proof fn lemma_draining(replies: Seq<Envelope>)
    ensures
        resolution(replies) is Ok ==> Execution::Draining.run(reply_events(replies))
            == Execution::Draining,
        resolution(replies) is Err ==> resolution(replies)->Err_0 is NetlinkError
            && Execution::Draining.run(reply_events(replies)) == Execution::Failed(
            resolution(replies)->Err_0->NetlinkError_0,
        ),
    decreases replies.len(),
{
    let events = reply_events(replies);
    if replies.len() > 0 {
        assert(events.first() == Event::Reply(replies.first()));
        assert(events.drop_first() == reply_events(replies.drop_first()));
        match envelope_payload(replies.first()) {
            Payload::Error(error) => {
                lemma_ended_is_final(Execution::Failed(error), events.drop_first());
            },
            _ => {
                lemma_draining(replies.drop_first());
            },
        }
    }
}

/// An execution that is driven through everything the channel does for an
/// accepted request ends with the outcome that the reply stream stands for.
pub proof fn lemma_run_resolves(replies: Seq<Envelope>)
    ensures
        Execution::Submitted.run(transcript(replies)).result() == Some(resolution(replies)),
{
    let accepted = seq![Event::Accepted];
    let closed = seq![Event::Closed];
    let drained = Execution::Draining.run(reply_events(replies));
    assert(Execution::Submitted.run(accepted) == Execution::Draining) by {
        assert(accepted.first() == Event::Accepted);
        assert(accepted.drop_first().len() == 0);
        assert(Execution::Draining.run(accepted.drop_first()) == Execution::Draining);
    }
    assert(drained.run(closed) == drained.next(Event::Closed)) by {
        assert(closed.first() == Event::Closed);
        assert(closed.drop_first().len() == 0);
        assert(drained.next(Event::Closed).run(closed.drop_first()) == drained.next(
            Event::Closed,
        ));
    }
    lemma_run_in_parts(Execution::Submitted, accepted, reply_events(replies));
    lemma_run_in_parts(Execution::Submitted, accepted + reply_events(replies), closed);
    assert(Execution::Submitted.run(transcript(replies)) == drained.next(Event::Closed));
    lemma_draining(replies);
    match resolution(replies) {
        Ok(unit) => {
            assert(unit == ());
        },
        Err(_) => {},
    }
}

/// A reply stream without a reply that is tagged as an error stands for
/// success, be it empty or not. The execution is still draining when the last
/// reply has been read, and succeeds when the stream ends.
pub proof fn lemma_success_without_error(replies: Seq<Envelope>)
    requires
        forall|i: int| 0 <= i < replies.len() ==> !is_error(#[trigger] replies[i]),
    ensures
        resolution(replies) == Ok::<(), Error>(()),
        Execution::Draining.run(reply_events(replies)) == Execution::Draining,
        Execution::Submitted.run(transcript(replies)) == Execution::Succeeded,
    decreases replies.len(),
{
    if replies.len() > 0 {
        assert(!is_error(replies[0]));
        let rest = replies.drop_first();
        assert forall|i: int| 0 <= i < rest.len() implies !is_error(#[trigger] rest[i]) by {
            assert(rest[i] == replies[i + 1]);
        }
        lemma_success_without_error(rest);
    }
    lemma_draining(replies);
    lemma_run_resolves(replies);
}

/// Where the first reply that is tagged as an error stands at position `k`,
/// the stream stands for failure with the error of that reply, whatever comes
/// before it and whatever follows. The execution has failed as soon as that
/// reply has been read.
pub proof fn lemma_first_error_decides(replies: Seq<Envelope>, k: int)
    requires
        0 <= k < replies.len(),
        is_error(replies[k]),
        forall|i: int| 0 <= i < k ==> !is_error(#[trigger] replies[i]),
    ensures
        resolution(replies) == Err::<(), Error>(
            Error::NetlinkError(envelope_payload(replies[k])->Error_0),
        ),
        resolution(replies) == resolution(replies.take(k + 1)),
        Execution::Draining.run(reply_events(replies.take(k + 1))) == Execution::Failed(
            envelope_payload(replies[k])->Error_0,
        ),
    decreases k,
{
    let read = replies.take(k + 1);
    assert(read.first() == replies.first());
    if k > 0 {
        assert(!is_error(replies[0]));
        let rest = replies.drop_first();
        assert(rest[k - 1] == replies[k]);
        assert forall|i: int| 0 <= i < k - 1 implies !is_error(#[trigger] rest[i]) by {
            assert(rest[i] == replies[i + 1]);
        }
        lemma_first_error_decides(rest, k - 1);
        assert(read.drop_first() == rest.take(k));
    }
    lemma_draining(read);
}

/// A request that the channel refuses fails at once, with the error that the
/// channel gave: the execution has ended before any reply is read, and nothing
/// that is reported afterwards changes it.
pub proof fn lemma_rejection_is_immediate(error: Error, events: Seq<Event>)
    ensures
        Execution::Submitted.next(Event::Rejected(error)).terminal(),
        Execution::Submitted.next(Event::Rejected(error)).run(events).result() == Some(
            Err::<(), Error>(error),
        ),
{
    lemma_ended_is_final(Execution::ImmediateFailure(error), events);
}

} // verus!
