//! The execution, step by step, and the resolution of a whole reply stream.

use std::num::NonZeroI32;

use netlink_packet_core::{
    DoneMessage, ErrorMessage, NetlinkHeader, NetlinkMessage, NetlinkPayload,
};
use netlink_packet_route::link::LinkMessage;
use netlink_packet_route::RouteNetlinkMessage;
use rtnetlink::{resolve, Error, Event, Execution};

type Envelope = NetlinkMessage<RouteNetlinkMessage>;

fn error_message(code: i32) -> ErrorMessage {
    let mut error = ErrorMessage::default();
    error.code = NonZeroI32::new(code);
    error
}

fn error_reply(code: i32) -> Envelope {
    NetlinkMessage::new(NetlinkHeader::default(), NetlinkPayload::Error(error_message(code)))
}

fn plain_reply(index: u32) -> Envelope {
    let mut link = LinkMessage::default();
    link.header.index = index;
    NetlinkMessage::from(RouteNetlinkMessage::NewLink(link))
}

fn done_reply() -> Envelope {
    NetlinkMessage::new(NetlinkHeader::default(), NetlinkPayload::Done(DoneMessage::default()))
}

fn overrun_reply() -> Envelope {
    NetlinkMessage::new(NetlinkHeader::default(), NetlinkPayload::Overrun(vec![1, 2, 3]))
}

fn noop_reply() -> Envelope {
    NetlinkMessage::new(NetlinkHeader::default(), NetlinkPayload::Noop)
}

fn run(mut execution: Execution, events: Vec<Event>) -> Execution {
    for event in events {
        execution = execution.step(event);
    }
    execution
}

#[test]
fn accepted_request_is_drained() {
    assert_eq!(Execution::Submitted.step(Event::Accepted), Execution::Draining);
}

#[test]
fn rejected_request_has_failed() {
    let execution = Execution::Submitted.step(Event::Rejected(Error::RequestFailed));
    assert_eq!(execution, Execution::ImmediateFailure(Error::RequestFailed));
    assert!(execution.is_terminal());
    assert_eq!(execution.outcome(), Some(Err(Error::RequestFailed)));
}

#[test]
fn rejected_request_fails_with_the_error_of_the_channel() {
    let execution = Execution::Submitted.step(Event::Rejected(Error::NetlinkError(error_message(-32))));
    assert!(execution.is_terminal());
    assert_eq!(execution.outcome(), Some(Err(Error::NetlinkError(error_message(-32)))));
}

#[test]
fn plain_replies_keep_the_execution_draining() {
    for reply in [plain_reply(1), done_reply(), overrun_reply(), noop_reply()] {
        let execution = Execution::Draining.step(Event::Reply(reply));
        assert_eq!(execution, Execution::Draining);
        assert!(!execution.is_terminal());
    }
}

#[test]
fn error_reply_fails_the_execution() {
    let execution = Execution::Draining.step(Event::Reply(error_reply(-19)));
    assert_eq!(execution, Execution::Failed(error_message(-19)));
    assert!(execution.is_terminal());
    assert_eq!(execution.outcome(), Some(Err(Error::NetlinkError(error_message(-19)))));
}

#[test]
fn error_reply_keeps_what_the_kernel_attached() {
    let mut error = error_message(-13);
    error.header = vec![9, 8, 7, 6, 5];
    let reply = NetlinkMessage::new(NetlinkHeader::default(), NetlinkPayload::Error(error.clone()));
    match Execution::Draining.step(Event::Reply(reply)).outcome() {
        Some(Err(Error::NetlinkError(kept))) => {
            assert_eq!(kept.raw_code(), -13);
            assert_eq!(kept.header, vec![9, 8, 7, 6, 5]);
            assert_eq!(kept, error);
        }
        other => panic!("the outcome is {:?}", other),
    }
}

#[test]
fn end_of_stream_is_success() {
    let execution = Execution::Draining.step(Event::Closed);
    assert_eq!(execution, Execution::Succeeded);
    assert!(execution.is_terminal());
    assert_eq!(execution.outcome(), Some(Ok(())));
}

#[test]
fn execution_under_way_has_no_outcome() {
    assert!(!Execution::Submitted.is_terminal());
    assert!(!Execution::Draining.is_terminal());
    assert_eq!(Execution::Submitted.outcome(), None);
    assert_eq!(Execution::Draining.outcome(), None);
}

#[test]
fn ended_execution_ignores_every_event() {
    let events = || vec![
        Event::Accepted,
        Event::Rejected(Error::RequestFailed),
        Event::Reply(error_reply(-1)),
        Event::Reply(plain_reply(1)),
        Event::Closed,
    ];
    assert_eq!(run(Execution::Succeeded, events()), Execution::Succeeded);
    assert_eq!(
        run(Execution::ImmediateFailure(Error::RequestFailed), events()),
        Execution::ImmediateFailure(Error::RequestFailed)
    );
    assert_eq!(
        run(Execution::Failed(error_message(-19)), events()),
        Execution::Failed(error_message(-19))
    );
}

#[test]
fn events_that_are_not_awaited_change_nothing() {
    assert_eq!(Execution::Submitted.step(Event::Closed), Execution::Submitted);
    assert_eq!(Execution::Submitted.step(Event::Reply(error_reply(-1))), Execution::Submitted);
    assert_eq!(Execution::Draining.step(Event::Accepted), Execution::Draining);
    assert_eq!(
        Execution::Draining.step(Event::Rejected(Error::RequestFailed)),
        Execution::Draining
    );
}

#[test]
fn whole_transcript_ends_in_the_resolution() {
    let transcript = vec![
        Event::Accepted,
        Event::Reply(plain_reply(1)),
        Event::Reply(error_reply(-19)),
        Event::Reply(error_reply(-1)),
        Event::Closed,
    ];
    assert_eq!(
        run(Execution::Submitted, transcript).outcome(),
        Some(Err(Error::NetlinkError(error_message(-19))))
    );
    let transcript = vec![Event::Accepted, Event::Reply(plain_reply(1)), Event::Closed];
    assert_eq!(run(Execution::Submitted, transcript).outcome(), Some(Ok(())));
    assert_eq!(run(Execution::Submitted, vec![Event::Accepted, Event::Closed]).outcome(), Some(Ok(())));
}

#[test]
fn resolve_empty_stream_is_success() {
    assert_eq!(resolve(vec![]), Ok(()));
}

#[test]
fn resolve_plain_replies_is_success() {
    assert_eq!(resolve(vec![plain_reply(1)]), Ok(()));
    assert_eq!(resolve(vec![noop_reply(), plain_reply(1), done_reply(), overrun_reply()]), Ok(()));
}

#[test]
fn resolve_single_error_is_failure() {
    assert_eq!(resolve(vec![error_reply(-19)]), Err(Error::NetlinkError(error_message(-19))));
}

#[test]
fn resolve_returns_the_first_error() {
    let replies = vec![
        plain_reply(1),
        done_reply(),
        error_reply(-2),
        plain_reply(2),
        error_reply(-19),
    ];
    assert_eq!(resolve(replies), Err(Error::NetlinkError(error_message(-2))));
}

#[test]
fn resolve_does_not_depend_on_what_follows_the_first_error() {
    let before = || vec![plain_reply(1), noop_reply()];
    let mut short = before();
    short.push(error_reply(-17));
    let mut long = before();
    long.push(error_reply(-17));
    long.push(error_reply(-1));
    long.push(plain_reply(3));
    long.push(done_reply());
    assert_eq!(resolve(short), Err(Error::NetlinkError(error_message(-17))));
    assert_eq!(resolve(long), Err(Error::NetlinkError(error_message(-17))));
}

#[test]
fn resolve_error_in_last_position() {
    let replies = vec![plain_reply(1), plain_reply(2), error_reply(-95)];
    assert_eq!(resolve(replies), Err(Error::NetlinkError(error_message(-95))));
}
