use mmo::client::{
    client_start, client_step, parse_args, random_local_port, timestamp_message, timestamp_text,
    ClientCommand, ClientPhase, ClockReading, Transport, PAUSE_SECS, PORT_HIGH, PORT_LOW,
    RETRY_SECS,
};

fn args(words: &[&str]) -> Vec<String> {
    words.iter().map(|w| w.to_string()).collect()
}

#[test]
fn parse_args_needs_server() {
    assert!(parse_args(&args(&["mmo-client"])).is_none());
    assert!(parse_args(&args(&[])).is_none());
}

#[test]
fn parse_args_tcp_by_default() {
    let o = parse_args(&args(&["mmo-client", "127.0.0.1:9000"])).unwrap();
    assert_eq!(o.server, "127.0.0.1:9000");
    assert_eq!(o.transport, Transport::Tcp);
    let o = parse_args(&args(&["mmo-client", "s", "-x"])).unwrap();
    assert_eq!(o.transport, Transport::Tcp);
}

#[test]
fn parse_args_udp_flag() {
    let o = parse_args(&args(&["mmo-client", "127.0.0.1:30000", "-u"])).unwrap();
    assert_eq!(o.server, "127.0.0.1:30000");
    assert_eq!(o.transport, Transport::Udp);
}

#[test]
fn start_depends_on_transport() {
    assert_eq!(client_start(Transport::Tcp), (ClientPhase::Connecting, ClientCommand::Connect));
    assert_eq!(client_start(Transport::Udp), (ClientPhase::Binding, ClientCommand::BindRandomPort));
}

#[test]
fn bind_retries_until_success() {
    assert_eq!(client_step(ClientPhase::Binding, false), (ClientPhase::Binding, ClientCommand::BindRandomPort));
    assert_eq!(client_step(ClientPhase::Binding, true), (ClientPhase::Connecting, ClientCommand::Connect));
}

#[test]
fn exchange_cycle() {
    assert_eq!(client_step(ClientPhase::Connecting, true), (ClientPhase::Sending, ClientCommand::SendTimestamp));
    assert_eq!(client_step(ClientPhase::Sending, true), (ClientPhase::Receiving, ClientCommand::Receive));
    assert_eq!(client_step(ClientPhase::Receiving, true), (ClientPhase::Pausing, ClientCommand::Sleep(1)));
    assert_eq!(client_step(ClientPhase::Pausing, true), (ClientPhase::Sending, ClientCommand::SendTimestamp));
    assert_eq!(PAUSE_SECS, 1);
}

#[test]
fn failures_back_off_then_reconnect() {
    for p in [ClientPhase::Connecting, ClientPhase::Sending, ClientPhase::Receiving] {
        assert_eq!(client_step(p, false), (ClientPhase::BackingOff, ClientCommand::Sleep(5)));
    }
    assert_eq!(client_step(ClientPhase::BackingOff, true), (ClientPhase::Connecting, ClientCommand::Connect));
    assert_eq!(RETRY_SECS, 5);
}

#[test]
fn udp_session_trace() {
    // bind fails twice, then connects and completes one exchange, then the send fails.
    let outcomes = [false, false, true, true, true, true, true, false, true];
    let (mut phase, mut cmd) = client_start(Transport::Udp);
    let mut cmds = vec![cmd];
    for ok in outcomes {
        let r = client_step(phase, ok);
        phase = r.0;
        cmd = r.1;
        cmds.push(cmd);
    }
    assert_eq!(
        cmds,
        vec![
            ClientCommand::BindRandomPort,
            ClientCommand::BindRandomPort,
            ClientCommand::BindRandomPort,
            ClientCommand::Connect,
            ClientCommand::SendTimestamp,
            ClientCommand::Receive,
            ClientCommand::Sleep(1),
            ClientCommand::SendTimestamp,
            ClientCommand::Sleep(5),
            ClientCommand::Connect,
        ]
    );
}

#[test]
fn random_port_in_range() {
    let mut seen = std::collections::HashSet::new();
    for _ in 0..1000 {
        let p = random_local_port();
        assert!(PORT_LOW <= p && p < PORT_HIGH);
        seen.insert(p);
    }
    assert_eq!((PORT_LOW, PORT_HIGH), (60000, 65530));
    // The ports are drawn at random, not fixed.
    assert!(seen.len() > 100);
}

#[test]
fn timestamp_message_is_rfc3339() {
    let m = timestamp_message();
    assert!(m.len() >= 25);
    assert_eq!(&m[4..5], "-");
    assert_eq!(&m[10..11], "T");
    assert_eq!(&m[13..14], ":");
    assert_eq!(&m[16..17], ":");
    let n = m.len();
    let sign = &m[n - 6..n - 5];
    assert!(sign == "+" || sign == "-");
    assert_eq!(&m[n - 3..n - 2], ":");
    let frac = n - 25;
    assert!([0, 4, 7, 10].contains(&frac));
    assert!(m.chars().all(|c| c.is_ascii_digit() || "-+:T.".contains(c)));
}

fn reading(y: i32, mo: u32, d: u32, h: u32, mi: u32, s: u32, ns: u32, off: i32) -> ClockReading {
    ClockReading { year: y, month: mo, day: d, hour: h, minute: mi, second: s, nanosecond: ns, offset_secs: off }
}

#[test]
fn timestamp_text_formats_reading_in_local_time() {
    assert_eq!(
        timestamp_text(&reading(2024, 1, 2, 3, 4, 5, 123_000_000, 3600)),
        "2024-01-02T04:04:05.123+01:00"
    );
    assert_eq!(
        timestamp_text(&reading(2024, 1, 2, 3, 4, 5, 0, -19800)),
        "2024-01-01T21:34:05-05:30"
    );
}

#[test]
fn timestamp_text_fraction_and_leap_second() {
    assert_eq!(timestamp_text(&reading(2020, 2, 29, 12, 0, 0, 1_000, 0)), "2020-02-29T12:00:00.000001+00:00");
    assert_eq!(timestamp_text(&reading(2016, 12, 31, 23, 59, 59, 1_500_000_000, 0)), "2016-12-31T23:59:60.500+00:00");
    assert_eq!(timestamp_text(&reading(10000, 1, 1, 0, 0, 0, 0, 0)), "+10000-01-01T00:00:00+00:00");
}
