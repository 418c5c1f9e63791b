use vstd::prelude::*;
use vstd::string::StringExecFns;
use rand::Rng;
use chrono::{Datelike, Timelike};

verus! {

/// How the client talks to the server.
#[derive(Clone, Copy, Debug, PartialEq, Eq, Structural)]
pub enum Transport {
    Tcp,
    Udp,
}

/// What the command line asks of the client.
#[derive(Debug)]
pub struct ClientOptions {
    /// The server's address, as given.
    pub server: String,
    pub transport: Transport,
}

/// The command line is `<program> <server> [-u]`: without a server there is
/// nothing to do; with `-u` right after it the client uses UDP, otherwise TCP.
pub fn parse_args(args: &Vec<String>) -> (r: Option<ClientOptions>)
    ensures
        r is None <==> args@.len() < 2,
        r matches Some(o) ==> o.server@ == args@[1]@,
        r matches Some(o) ==> (o.transport == Transport::Udp <==> (args@.len() > 2 && args@[2]@
            == "-u"@)),
{
    if args.len() < 2 {
        return None;
    }
    let flag = <String as StringExecFns>::from_str("-u");
    let transport = if args.len() > 2 && args[2] == flag {
        Transport::Udp
    } else {
        Transport::Tcp
    };
    Some(ClientOptions { server: args[1].clone(), transport })
}

/// Where the client is in its life cycle; each phase waits for the outcome
/// of one command.
#[derive(Clone, Copy, Debug, PartialEq, Eq, Structural)]
pub enum ClientPhase {
    /// Binding a local UDP socket to a random port.
    Binding,
    /// Connecting to the server.
    Connecting,
    /// Sending the current time to the server.
    Sending,
    /// Waiting for the server's reply.
    Receiving,
    /// Pausing between two exchanges.
    Pausing,
    /// Waiting before the next attempt to connect.
    BackingOff,
}

/// What the client asks its driver to do next.
#[derive(Clone, Copy, Debug, PartialEq, Eq, Structural)]
pub enum ClientCommand {
    /// Bind a local UDP socket on a random port (see `random_local_port`).
    BindRandomPort,
    /// Connect to the server.
    Connect,
    /// Send the current time (see `timestamp_message`).
    SendTimestamp,
    /// Read the server's reply.
    Receive,
    /// Sleep for this many seconds.
    Sleep(u64),
}

/// Seconds between two exchanges on a live connection.
pub const PAUSE_SECS: u64 = 1;

/// Seconds to wait after a failure before connecting again.
pub const RETRY_SECS: u64 = 5;

/// The first phase and command: a UDP client binds a socket first, a TCP
/// client connects straight away.
pub open spec fn client_start_spec(t: Transport) -> (ClientPhase, ClientCommand) {
    match t {
        Transport::Udp => (ClientPhase::Binding, ClientCommand::BindRandomPort),
        Transport::Tcp => (ClientPhase::Connecting, ClientCommand::Connect),
    }
}

/// The next phase and command, given whether the command of `phase`
/// succeeded. A failed bind is retried on another port; a failed connect,
/// send or receive is followed by a pause of `RETRY_SECS` and a new connect;
/// a successful exchange is followed by a pause of `PAUSE_SECS` and the
/// next exchange.
pub open spec fn client_transition(phase: ClientPhase, ok: bool) -> (ClientPhase, ClientCommand) {
    match phase {
        ClientPhase::Binding => if ok {
            (ClientPhase::Connecting, ClientCommand::Connect)
        } else {
            (ClientPhase::Binding, ClientCommand::BindRandomPort)
        },
        ClientPhase::Connecting => if ok {
            (ClientPhase::Sending, ClientCommand::SendTimestamp)
        } else {
            (ClientPhase::BackingOff, ClientCommand::Sleep(RETRY_SECS))
        },
        ClientPhase::Sending => if ok {
            (ClientPhase::Receiving, ClientCommand::Receive)
        } else {
            (ClientPhase::BackingOff, ClientCommand::Sleep(RETRY_SECS))
        },
        ClientPhase::Receiving => if ok {
            (ClientPhase::Pausing, ClientCommand::Sleep(PAUSE_SECS))
        } else {
            (ClientPhase::BackingOff, ClientCommand::Sleep(RETRY_SECS))
        },
        ClientPhase::Pausing => (ClientPhase::Sending, ClientCommand::SendTimestamp),
        ClientPhase::BackingOff => (ClientPhase::Connecting, ClientCommand::Connect),
    }
}

/// Starts a client session.
pub fn client_start(t: Transport) -> (r: (ClientPhase, ClientCommand))
    ensures
        r == client_start_spec(t),
{
    match t {
        Transport::Udp => (ClientPhase::Binding, ClientCommand::BindRandomPort),
        Transport::Tcp => (ClientPhase::Connecting, ClientCommand::Connect),
    }
}

/// Advances a client session by the outcome of the command of `phase`.
pub fn client_step(phase: ClientPhase, ok: bool) -> (r: (ClientPhase, ClientCommand))
    ensures
        r == client_transition(phase, ok),
{
    match phase {
        ClientPhase::Binding => if ok {
            (ClientPhase::Connecting, ClientCommand::Connect)
        } else {
            (ClientPhase::Binding, ClientCommand::BindRandomPort)
        },
        ClientPhase::Connecting => if ok {
            (ClientPhase::Sending, ClientCommand::SendTimestamp)
        } else {
            (ClientPhase::BackingOff, ClientCommand::Sleep(RETRY_SECS))
        },
        ClientPhase::Sending => if ok {
            (ClientPhase::Receiving, ClientCommand::Receive)
        } else {
            (ClientPhase::BackingOff, ClientCommand::Sleep(RETRY_SECS))
        },
        ClientPhase::Receiving => if ok {
            (ClientPhase::Pausing, ClientCommand::Sleep(PAUSE_SECS))
        } else {
            (ClientPhase::BackingOff, ClientCommand::Sleep(RETRY_SECS))
        },
        ClientPhase::Pausing => (ClientPhase::Sending, ClientCommand::SendTimestamp),
        ClientPhase::BackingOff => (ClientPhase::Connecting, ClientCommand::Connect),
    }
}

/// Phase and command of a session of transport `t` after the first `j`
/// outcomes of `outcomes` (the start when `j` is 0).
pub open spec fn client_trace(t: Transport, outcomes: Seq<bool>, j: nat) -> (
    ClientPhase,
    ClientCommand,
)
    decreases j,
{
    if j == 0 {
        client_start_spec(t)
    } else {
        client_transition(client_trace(t, outcomes, (j - 1) as nat).0, outcomes[j - 1])
    }
}

/// The phases in which the client holds a working connection.
pub open spec fn is_live(phase: ClientPhase) -> bool {
    phase is Sending || phase is Receiving || phase is Pausing
}

/// The command that goes with each phase.
pub open spec fn command_of(phase: ClientPhase) -> ClientCommand {
    match phase {
        ClientPhase::Binding => ClientCommand::BindRandomPort,
        ClientPhase::Connecting => ClientCommand::Connect,
        ClientPhase::Sending => ClientCommand::SendTimestamp,
        ClientPhase::Receiving => ClientCommand::Receive,
        ClientPhase::Pausing => ClientCommand::Sleep(PAUSE_SECS),
        ClientPhase::BackingOff => ClientCommand::Sleep(RETRY_SECS),
    }
}

/// Every phase of a session comes with its own command: the client binds
/// when binding, connects when connecting, sends when sending, receives when
/// receiving, and sleeps `PAUSE_SECS` between exchanges and `RETRY_SECS`
/// before a new connect.
pub proof fn law_phase_fixes_command(t: Transport, outcomes: Seq<bool>, j: nat)
    requires
        j <= outcomes.len(),
    ensures
        client_trace(t, outcomes, j).1 == command_of(client_trace(t, outcomes, j).0),
{
}

/// A session is in the binding phase only if it is a UDP session all of
/// whose binds so far have failed: once bound, the client never binds again.
pub proof fn law_binds_only_before_connecting(t: Transport, outcomes: Seq<bool>, j: nat)
    requires
        j <= outcomes.len(),
        client_trace(t, outcomes, j).0 is Binding,
    ensures
        t is Udp,
        forall|m: int| 0 <= m < j ==> !outcomes[m],
    decreases j,
{
    if j > 0 {
        let prev = client_trace(t, outcomes, (j - 1) as nat).0;
        assert(prev is Binding && !outcomes[j - 1]);
        law_binds_only_before_connecting(t, outcomes, (j - 1) as nat);
    }
}

/// A live phase is reached only through a successful connect followed by
/// nothing but successes (and pauses); the result is the index of that
/// connect.
proof fn lemma_live_after_connect(t: Transport, outcomes: Seq<bool>, j: nat) -> (k: nat)
    requires
        j <= outcomes.len(),
        is_live(client_trace(t, outcomes, j).0),
    ensures
        k < j,
        client_trace(t, outcomes, k).1 is Connect,
        outcomes[k as int],
        forall|m: int|
            k < m < j ==> outcomes[m] || #[trigger] client_trace(t, outcomes, m as nat).1 is Sleep,
    decreases j,
{
    if j == 0 {
        assert(!is_live(client_start_spec(t).0));
    }
    let prev = client_trace(t, outcomes, (j - 1) as nat).0;
    assert(client_trace(t, outcomes, j) == client_transition(prev, outcomes[j - 1]));
    law_phase_fixes_command(t, outcomes, (j - 1) as nat);
    if prev is Connecting {
        (j - 1) as nat
    } else {
        assert(is_live(prev));
        assert(outcomes[j - 1] || client_trace(t, outcomes, (j - 1) as nat).1 is Sleep);
        lemma_live_after_connect(t, outcomes, (j - 1) as nat)
    }
}

/// The client sends its time only over a live connection: before every send
/// there is a successful connect, and every command since that connect,
/// other than the pauses, has succeeded.
pub proof fn law_sends_only_when_connected(t: Transport, outcomes: Seq<bool>, j: nat)
    requires
        j <= outcomes.len(),
        client_trace(t, outcomes, j).1 is SendTimestamp,
    ensures
        exists|k: nat|
            k < j && (#[trigger] client_trace(t, outcomes, k)).1 is Connect && outcomes[k as int]
                && forall|m: int|
                k < m < j ==> outcomes[m] || client_trace(t, outcomes, m as nat).1 is Sleep,
{
    law_phase_fixes_command(t, outcomes, j);
    let k = lemma_live_after_connect(t, outcomes, j);
    assert(client_trace(t, outcomes, k).1 is Connect);
}

/// After a failed connect, send or receive the client waits `RETRY_SECS`
/// seconds and then connects again.
pub proof fn law_failure_backs_off(t: Transport, outcomes: Seq<bool>, j: nat)
    requires
        j + 2 <= outcomes.len(),
        !outcomes[j as int],
        client_trace(t, outcomes, j).0 is Connecting || client_trace(t, outcomes, j).0 is Sending
            || client_trace(t, outcomes, j).0 is Receiving,
    ensures
        client_trace(t, outcomes, j + 1) == (ClientPhase::BackingOff, ClientCommand::Sleep(
            RETRY_SECS,
        )),
        client_trace(t, outcomes, j + 2) == (ClientPhase::Connecting, ClientCommand::Connect),
{
    assert(client_trace(t, outcomes, j + 1) == client_transition(
        client_trace(t, outcomes, j).0,
        outcomes[j as int],
    ));
    assert(client_trace(t, outcomes, j + 2) == client_transition(
        client_trace(t, outcomes, j + 1).0,
        outcomes[j + 1int],
    ));
}

/// On a live connection the client repeats one exchange: after a successful
/// send it receives, after a successful receive it pauses `PAUSE_SECS`
/// seconds, and after the pause it sends again.
pub proof fn law_exchange_cycle(t: Transport, outcomes: Seq<bool>, j: nat)
    requires
        j + 3 <= outcomes.len(),
        client_trace(t, outcomes, j).0 is Sending,
        outcomes[j as int],
        outcomes[j + 1int],
    ensures
        client_trace(t, outcomes, j + 1) == (ClientPhase::Receiving, ClientCommand::Receive),
        client_trace(t, outcomes, j + 2) == (ClientPhase::Pausing, ClientCommand::Sleep(PAUSE_SECS)),
        client_trace(t, outcomes, j + 3) == (ClientPhase::Sending, ClientCommand::SendTimestamp),
{
    assert(client_trace(t, outcomes, j + 1) == client_transition(
        client_trace(t, outcomes, j).0,
        outcomes[j as int],
    ));
    assert(client_trace(t, outcomes, j + 2) == client_transition(
        client_trace(t, outcomes, j + 1).0,
        outcomes[j + 1int],
    ));
    assert(client_trace(t, outcomes, j + 3) == client_transition(
        client_trace(t, outcomes, j + 2).0,
        outcomes[j + 2int],
    ));
}

/// Range of local UDP ports the client binds to: from `PORT_LOW` up to, but
/// not including, `PORT_HIGH`.
pub const PORT_LOW: u16 = 60000;

/// See `PORT_LOW`.
pub const PORT_HIGH: u16 = 65530;

/// Calls `rand::thread_rng().gen_range(low, high)`, which draws a value in
/// `[low, high)` (and panics when `low >= high`, which `requires` rules out).
/// Which value comes out is chance.
#[verifier::external_body]
fn gen_range_u16(low: u16, high: u16) -> (v: u16)
    requires
        low < high,
    ensures
        low <= v < high,
{
    rand::thread_rng().gen_range(low, high)
}

/// A random local port for the client's UDP socket.
pub fn random_local_port() -> (port: u16)
    ensures
        PORT_LOW <= port < PORT_HIGH,
{
    gen_range_u16(PORT_LOW, PORT_HIGH)
}

/// A decimal digit.
pub open spec fn is_digit(c: char) -> bool {
    '0' <= c && c <= '9'
}

/// Two decimal digits at `i` and `i + 1` whose value lies in `lo..=hi`.
pub open spec fn two_digit_field(s: Seq<char>, i: int, lo: int, hi: int) -> bool {
    &&& is_digit(s[i])
    &&& is_digit(s[i + 1])
    &&& lo <= (s[i] as int - '0' as int) * 10 + (s[i + 1] as int - '0' as int) <= hi
}

/// A year as RFC 3339 text: four digits, or a sign and at least four digits
/// for years outside 0..=9999.
pub open spec fn rfc3339_year(y: Seq<char>) -> bool {
    ||| y.len() == 4 && forall|i: int| 0 <= i < 4 ==> is_digit(#[trigger] y[i])
    ||| y.len() >= 5 && (y[0] == '+' || y[0] == '-') && forall|i: int|
        1 <= i < y.len() ==> is_digit(#[trigger] y[i])
}

/// `s` is `<year>-MM-DDTHH:MM:SS[.fraction]±HH:MM`, where the year takes `y`
/// characters and the fraction (with its dot) `f`: none, or 3, 6 or 9 digits.
pub open spec fn rfc3339_layout(s: Seq<char>, y: int, f: int) -> bool {
    let o = y + 15 + f;
    &&& y >= 4
    &&& f == 0 || f == 4 || f == 7 || f == 10
    &&& s.len() == o + 6
    &&& rfc3339_year(s.subrange(0, y))
    &&& s[y] == '-' && two_digit_field(s, y + 1, 1, 12)
    &&& s[y + 3] == '-' && two_digit_field(s, y + 4, 1, 31)
    &&& s[y + 6] == 'T' && two_digit_field(s, y + 7, 0, 23)
    &&& s[y + 9] == ':' && two_digit_field(s, y + 10, 0, 59)
    &&& s[y + 12] == ':' && two_digit_field(s, y + 13, 0, 60)
    &&& f > 0 ==> s[y + 15] == '.' && forall|i: int| y + 16 <= i < o ==> is_digit(#[trigger] s[i])
    &&& s[o] == '+' || s[o] == '-'
    &&& two_digit_field(s, o + 1, 0, 24)
    &&& s[o + 3] == ':' && two_digit_field(s, o + 4, 0, 59)
}

/// `s` is a date and time with a numeric offset as RFC 3339 writes it.
pub open spec fn is_rfc3339_timestamp(s: Seq<char>) -> bool {
    exists|y: int, f: int| rfc3339_layout(s, y, f)
}

/// Whether `y` is a leap year of the proleptic Gregorian calendar.
pub open spec fn is_leap_year(y: int) -> bool {
    y % 4 == 0 && (y % 100 != 0 || y % 400 == 0)
}

/// The number of days of month `m` (1 to 12) of year `y`.
pub open spec fn days_in_month(y: int, m: int) -> int {
    if m == 2 {
        if is_leap_year(y) {
            29
        } else {
            28
        }
    } else if m == 4 || m == 6 || m == 9 || m == 11 {
        30
    } else {
        31
    }
}

/// A reading of the clock as plain values: the UTC date and time, with
/// `nanosecond` reaching past one second only in a leap second, and the
/// offset of local time from UTC in seconds.
#[derive(Clone, Copy, Debug, PartialEq, Eq)]
pub struct ClockReading {
    pub year: i32,
    pub month: u32,
    pub day: u32,
    pub hour: u32,
    pub minute: u32,
    pub second: u32,
    pub nanosecond: u32,
    pub offset_secs: i32,
}

impl ClockReading {
    /// A date and time that chrono can hold (years -262143 to 262142 of the
    /// proleptic Gregorian calendar), with an offset of less than a day.
    pub open spec fn is_valid(&self) -> bool {
        &&& -262143 <= self.year <= 262142
        &&& 1 <= self.month <= 12
        &&& 1 <= self.day <= days_in_month(self.year as int, self.month as int)
        &&& self.hour < 24
        &&& self.minute < 60
        &&& self.second < 60
        &&& self.nanosecond < 2_000_000_000
        &&& self.nanosecond >= 1_000_000_000 ==> self.second == 59
        &&& -86_400 < self.offset_secs < 86_400
    }
}

/// The RFC 3339 text that chrono's `to_rfc3339` writes for the instant with
/// this UTC date and time, shown at this offset (seconds east of UTC).
pub uninterp spec fn rfc3339_text(
    year: i32,
    month: u32,
    day: u32,
    hour: u32,
    minute: u32,
    second: u32,
    nanosecond: u32,
    offset_secs: i32,
) -> Seq<char>;

/// `rfc3339_text` of a clock reading.
pub open spec fn rfc3339_of(r: ClockReading) -> Seq<char> {
    rfc3339_text(r.year, r.month, r.day, r.hour, r.minute, r.second, r.nanosecond, r.offset_secs)
}

/// Calls `chrono::Local::now()` and takes the reading apart into plain values:
/// the UTC date and time (`naive_utc`) and the local offset
/// (`local_minus_utc`). Which instant it is depends on the clock; what holds
/// of every outcome is that the parts form a date and time chrono can hold,
/// that the offset is less than a day (`FixedOffset` allows no more), and that
/// the year is 1970 or later, since `Utc::now` panics on a clock set before
/// the Unix epoch.
#[verifier::external_body]
fn read_local_clock() -> (r: ClockReading)
    ensures
        r.is_valid(),
        r.year >= 1970,
{
    let now = chrono::Local::now();
    let utc = now.naive_utc();
    ClockReading {
        year: utc.year(),
        month: utc.month(),
        day: utc.day(),
        hour: utc.hour(),
        minute: utc.minute(),
        second: utc.second(),
        nanosecond: utc.nanosecond(),
        offset_secs: now.offset().local_minus_utc(),
    }
}

/// Calls `to_rfc3339` on the chrono `DateTime<FixedOffset>` made of the
/// reading (`NaiveDate::from_ymd_opt`, `and_hms_nano_opt`,
/// `FixedOffset::east_opt`, each of which succeeds on a valid reading). The
/// text is named `rfc3339_text`; what holds of every valid reading is the
/// layout chrono writes (`write_rfc3339` with `SecondsFormat::AutoSi` and a
/// `+HH:MM` offset): the date, `T`, the time with seconds up to 60 (a leap
/// second), a fraction of 3, 6 or 9 digits unless the time is whole seconds,
/// and the offset rounded to minutes (hours up to 24).
#[verifier::external_body]
fn format_rfc3339(r: &ClockReading) -> (text: String)
    requires
        r.is_valid(),
    ensures
        text@ == rfc3339_text(
            r.year,
            r.month,
            r.day,
            r.hour,
            r.minute,
            r.second,
            r.nanosecond,
            r.offset_secs,
        ),
        is_rfc3339_timestamp(text@),
{
    let offset = chrono::FixedOffset::east_opt(r.offset_secs).unwrap();
    let date = chrono::NaiveDate::from_ymd_opt(r.year, r.month, r.day).unwrap();
    let utc = date.and_hms_nano_opt(r.hour, r.minute, r.second, r.nanosecond).unwrap();
    chrono::DateTime::<chrono::FixedOffset>::from_naive_utc_and_offset(utc, offset).to_rfc3339()
}

/// The RFC 3339 text of a clock reading, as the client sends it.
pub fn timestamp_text(reading: &ClockReading) -> (text: String)
    requires
        reading.is_valid(),
    ensures
        text@ == rfc3339_of(*reading),
        is_rfc3339_timestamp(text@),
{
    format_rfc3339(reading)
}

/// The message the client sends: the current local time as RFC 3339 text,
/// that is the text of a reading of the clock.
pub fn timestamp_message() -> (text: String)
    ensures
        exists|r: ClockReading| r.is_valid() && r.year >= 1970 && text@ == #[trigger] rfc3339_of(r),
        is_rfc3339_timestamp(text@),
{
    let reading = read_local_clock();
    timestamp_text(&reading)
}

} // verus!
