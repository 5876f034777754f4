use pnetlink::dump::{dump_collect, dump_step, DumpSession, DumpStep, DumpTermination};
use pnetlink::link::RTM_NEWLINK;
use pnetlink::message::{
    parse, serialize, NetlinkHeader, NetlinkMessage, NLMSG_DONE, NLMSG_ERROR, NLMSG_NOOP,
    NLMSG_OVERRUN,
};

fn message(kind: u16, payload: &[u8]) -> NetlinkMessage {
    let h = NetlinkHeader {
        length: 16 + payload.len() as u32,
        kind,
        flags: 0,
        sequence: 1,
        pid: 0,
    };
    parse(&serialize(&h, &payload.to_vec())).expect("a serialized message parses")
}

fn error_message(code: i32) -> NetlinkMessage {
    message(NLMSG_ERROR, &code.to_le_bytes())
}

#[test]
fn dump_of_two_links_and_done_yields_both() {
    let msgs = vec![
        message(RTM_NEWLINK, b"a"),
        message(RTM_NEWLINK, b"b"),
        message(NLMSG_DONE, &[]),
    ];
    let (items, end) = dump_collect(RTM_NEWLINK, msgs);
    assert_eq!(items.len(), 2);
    assert_eq!(items[0].payload(), b"a".to_vec());
    assert_eq!(items[1].payload(), b"b".to_vec());
    assert_eq!(end, DumpTermination::Done);
}

#[test]
fn dump_stops_with_the_kernel_error_code() {
    let msgs = vec![message(RTM_NEWLINK, b"a"), error_message(2)];
    let (items, end) = dump_collect(RTM_NEWLINK, msgs);
    assert_eq!(items.len(), 1);
    assert_eq!(items[0].payload(), b"a".to_vec());
    assert_eq!(end, DumpTermination::Failed(2));
}

#[test]
fn dump_without_sentinel_ends_cleanly() {
    let msgs = vec![message(RTM_NEWLINK, b"a")];
    let (items, end) = dump_collect(RTM_NEWLINK, msgs);
    assert_eq!(items.len(), 1);
    assert_eq!(items[0].payload(), b"a".to_vec());
    assert_eq!(end, DumpTermination::End);
}

#[test]
fn zero_error_code_is_a_success_acknowledgment() {
    let msgs = vec![error_message(0)];
    let (items, end) = dump_collect(RTM_NEWLINK, msgs);
    assert!(items.is_empty());
    assert_eq!(end, DumpTermination::Done);
}

#[test]
fn negative_error_code_is_carried_as_is() {
    let msgs = vec![error_message(-95)];
    let (_, end) = dump_collect(RTM_NEWLINK, msgs);
    assert_eq!(end, DumpTermination::Failed(-95));
}

#[test]
fn noop_messages_are_skipped() {
    let msgs = vec![
        message(NLMSG_NOOP, &[]),
        message(RTM_NEWLINK, b"a"),
        message(NLMSG_DONE, &[]),
    ];
    let (items, end) = dump_collect(RTM_NEWLINK, msgs);
    assert_eq!(items.len(), 1);
    assert_eq!(end, DumpTermination::Done);
}

#[test]
fn unexpected_kind_ends_the_dump_without_error() {
    let msgs = vec![
        message(RTM_NEWLINK, b"a"),
        message(NLMSG_OVERRUN, &[]),
        message(RTM_NEWLINK, b"b"),
    ];
    let (items, end) = dump_collect(RTM_NEWLINK, msgs);
    assert_eq!(items.len(), 1);
    assert_eq!(end, DumpTermination::End);
}

#[test]
fn short_error_payload_is_malformed() {
    let msgs = vec![message(NLMSG_ERROR, &[2, 0])];
    let (items, end) = dump_collect(RTM_NEWLINK, msgs);
    assert!(items.is_empty());
    assert_eq!(end, DumpTermination::Malformed);
}

#[test]
fn dump_step_classifies_each_kind() {
    assert_eq!(dump_step(RTM_NEWLINK, &message(RTM_NEWLINK, b"x")), DumpStep::Item);
    assert_eq!(dump_step(RTM_NEWLINK, &message(NLMSG_NOOP, &[])), DumpStep::Skip);
    assert_eq!(
        dump_step(RTM_NEWLINK, &message(NLMSG_DONE, &[])),
        DumpStep::Terminal(DumpTermination::Done)
    );
    assert_eq!(
        dump_step(RTM_NEWLINK, &error_message(13)),
        DumpStep::Terminal(DumpTermination::Failed(13))
    );
    assert_eq!(
        dump_step(RTM_NEWLINK, &message(99, &[])),
        DumpStep::Terminal(DumpTermination::End)
    );
}

#[test]
fn session_latches_its_terminal_state() {
    let mut session = DumpSession::new(RTM_NEWLINK);
    assert!(session.state().is_none());
    assert_eq!(session.push(&message(RTM_NEWLINK, b"a")), DumpStep::Item);
    assert!(session.state().is_none());
    assert_eq!(
        session.push(&error_message(2)),
        DumpStep::Terminal(DumpTermination::Failed(2))
    );
    assert_eq!(session.state(), Some(DumpTermination::Failed(2)));
    assert_eq!(session.close(), DumpTermination::Failed(2));
}

#[test]
fn session_closing_early_is_a_clean_end() {
    let mut session = DumpSession::new(RTM_NEWLINK);
    assert_eq!(session.push(&message(RTM_NEWLINK, b"a")), DumpStep::Item);
    assert_eq!(session.close(), DumpTermination::End);
    assert_eq!(session.state(), Some(DumpTermination::End));
}
