use mmo::message::{after_datagram, after_read, echo_reply, AfterDatagram, process, received_text, reply_message, AfterRead, ReadOutcome};

#[test]
fn reply_names_peer_and_echoes_text() {
    assert_eq!(
        reply_message("127.0.0.1:5000", b"hello"),
        "Got ya [127.0.0.1:5000]! Ya said hello"
    );
}

#[test]
fn reply_to_empty_message() {
    assert_eq!(reply_message("[::1]:9", b""), "Got ya [[::1]:9]! Ya said ");
}

#[test]
fn reply_replaces_invalid_utf8() {
    assert_eq!(reply_message("p", &[b'a', 0xff, b'b']), "Got ya [p]! Ya said a\u{FFFD}b");
}

#[test]
fn reply_keeps_multibyte_text() {
    assert_eq!(reply_message("p", "héllo".as_bytes()), "Got ya [p]! Ya said héllo");
}

#[test]
fn process_uses_only_received_bytes() {
    let buf = [b'h', b'i', b'!', b'x', b'x'];
    let rc = process(&buf, 3, 42u32, "10.0.0.1:1");
    assert_eq!(rc.addr, 42);
    assert_eq!(rc.content.msg, "Got ya [10.0.0.1:1]! Ya said hi!");
}

#[test]
fn received_text_is_prefix() {
    let buf = [b'a', b'b', b'c'];
    assert_eq!(received_text(&buf, 2), "ab");
    assert_eq!(received_text(&buf, 0), "");
}

#[test]
fn echo_reply_carries_received_text() {
    let buf = [b'h', b'i', b'!', 0, 0];
    let rc = echo_reply(&buf, 2, "stream");
    assert_eq!(rc.addr, "stream");
    assert_eq!(rc.content.msg, "hi");
    let rc = echo_reply(&[0xffu8], 1, 1u8);
    assert_eq!(rc.content.msg, "\u{FFFD}");
}

#[test]
fn after_read_decisions() {
    assert_eq!(after_read(ReadOutcome::Received(0)), AfterRead::Close);
    assert_eq!(after_read(ReadOutcome::Received(12)), AfterRead::Handle(12));
    assert_eq!(after_read(ReadOutcome::Failed), AfterRead::Close);
}

#[test]
fn empty_datagram_is_a_message() {
    assert_eq!(after_datagram(ReadOutcome::Received(0)), AfterDatagram::Handle(0));
    let rc = process(&[1u8, 2, 3], 0, "peer", "10.0.0.2:7");
    assert_eq!(rc.content.msg, "Got ya [10.0.0.2:7]! Ya said ");
}

#[test]
fn datagram_listener_never_stops() {
    assert_eq!(after_datagram(ReadOutcome::Received(5)), AfterDatagram::Handle(5));
    assert_eq!(after_datagram(ReadOutcome::Failed), AfterDatagram::Skip);
}
