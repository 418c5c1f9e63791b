use vstd::prelude::*;
use vstd::string::StringExecFns;
use vstd::utf8::{valid_utf8, decode_utf8};

verus! {

/// The text that `String::from_utf8_lossy` makes of the given bytes: their
/// UTF-8 decoding, with each invalid sequence replaced by U+FFFD.
pub uninterp spec fn utf8_lossy(bytes: Seq<u8>) -> Seq<char>;

/// Calls `String::from_utf8_lossy` and takes the text as an owned `String`.
/// Its documentation promises that valid UTF-8 comes out as the text it
/// encodes, and that invalid sequences are replaced by U+FFFD, so invalid
/// input gives a text with at least one U+FFFD. Which bytes make up each
/// replaced sequence is left to the name `utf8_lossy`.
#[verifier::external_body]
fn from_utf8_lossy(bytes: &[u8]) -> (text: String)
    ensures
        text@ == utf8_lossy(bytes@),
        valid_utf8(bytes@) ==> text@ == decode_utf8(bytes@),
        !valid_utf8(bytes@) ==> text@.contains('\u{FFFD}'),
{
    String::from_utf8_lossy(bytes).into_owned()
}

/// The server's answer to a message: `Got ya [<peer>]! Ya said <text>`.
pub open spec fn reply_text(peer: Seq<char>, said: Seq<char>) -> Seq<char> {
    "Got ya ["@ + peer + "]! Ya said "@ + said
}

/// The text of a message to the server: the first `count` bytes received,
/// decoded leniently.
pub fn received_text(buf: &[u8], count: usize) -> (text: String)
    requires
        count <= buf@.len(),
    ensures
        text@ == utf8_lossy(buf@.subrange(0, count as int)),
        valid_utf8(buf@.subrange(0, count as int)) ==> text@ == decode_utf8(
            buf@.subrange(0, count as int),
        ),
        !valid_utf8(buf@.subrange(0, count as int)) ==> text@.contains('\u{FFFD}'),
{
    from_utf8_lossy(&buf[0..count])
}

/// The server's reply to `payload` from the peer whose address reads `peer`.
pub fn reply_message(peer: &str, payload: &[u8]) -> (msg: String)
    ensures
        msg@ == reply_text(peer@, utf8_lossy(payload@)),
        valid_utf8(payload@) ==> msg@ == reply_text(peer@, decode_utf8(payload@)),
        !valid_utf8(payload@) ==> utf8_lossy(payload@).contains('\u{FFFD}'),
{
    let said = from_utf8_lossy(payload);
    let mut msg = <String as StringExecFns>::from_str("Got ya [");
    msg.append(peer);
    msg.append("]! Ya said ");
    msg.append(said.as_str());
    msg
}

/// A message to be sent back to a client.
#[derive(Debug)]
pub struct Content {
    pub msg: String,
}

/// A message together with where it goes: a peer address, or a handle on
/// the stream that leads to the peer.
#[derive(Debug)]
pub struct RemoteContent<A> {
    pub addr: A,
    pub content: Content,
}

/// Handles one message of `cb` bytes at the front of `buf` received from
/// `addr`, whose address the caller renders as `peer` (socket addresses and
/// their text live outside this library): the reply for that peer, routed
/// back to `addr`.
pub fn process<A>(buf: &[u8], cb: usize, addr: A, peer: &str) -> (rc: RemoteContent<A>)
    requires
        cb <= buf@.len(),
    ensures
        rc.addr == addr,
        rc.content.msg@ == reply_text(peer@, utf8_lossy(buf@.subrange(0, cb as int))),
        valid_utf8(buf@.subrange(0, cb as int)) ==> rc.content.msg@ == reply_text(
            peer@,
            decode_utf8(buf@.subrange(0, cb as int)),
        ),
{
    let msg = reply_message(peer, &buf[0..cb]);
    RemoteContent { addr, content: Content { msg } }
}

/// The reply of a stream connection to a chunk of `n` bytes at the front of
/// `buf`: the received text itself, written back to the stream `addr`.
pub fn echo_reply<A>(buf: &[u8], n: usize, addr: A) -> (rc: RemoteContent<A>)
    requires
        n <= buf@.len(),
    ensures
        rc.addr == addr,
        rc.content.msg@ == utf8_lossy(buf@.subrange(0, n as int)),
        valid_utf8(buf@.subrange(0, n as int)) ==> rc.content.msg@ == decode_utf8(
            buf@.subrange(0, n as int),
        ),
{
    let msg = received_text(buf, n);
    RemoteContent { addr, content: Content { msg } }
}

/// What a read from a socket gave.
#[derive(Debug, Clone, Copy, PartialEq, Eq)]
pub enum ReadOutcome {
    /// The read returned this many bytes.
    Received(usize),
    /// The read failed.
    Failed,
}

/// What a stream connection does after a read.
#[derive(Debug, Clone, Copy, PartialEq, Eq)]
pub enum AfterRead {
    /// The peer closed the connection or the read failed: stop reading.
    Close,
    /// Handle this many received bytes, then read again.
    Handle(usize),
}

/// On a stream, an empty read means the peer has closed the connection, and
/// a failed read ends the reading too; any other read is handled.
pub fn after_read(outcome: ReadOutcome) -> (next: AfterRead)
    ensures
        next == (match outcome {
            ReadOutcome::Received(n) => if n == 0 { AfterRead::Close } else { AfterRead::Handle(n) },
            ReadOutcome::Failed => AfterRead::Close,
        }),
{
    match outcome {
        ReadOutcome::Received(n) => if n == 0 {
            AfterRead::Close
        } else {
            AfterRead::Handle(n)
        },
        ReadOutcome::Failed => AfterRead::Close,
    }
}

/// What a datagram listener does after a receive.
#[derive(Debug, Clone, Copy, PartialEq, Eq)]
pub enum AfterDatagram {
    /// Handle a datagram of this many bytes (possibly none), then receive again.
    Handle(usize),
    /// The receive failed: receive again.
    Skip,
}

/// A datagram listener keeps receiving: every datagram is a message to
/// handle, an empty one included, and a failed receive is passed over.
pub fn after_datagram(outcome: ReadOutcome) -> (next: AfterDatagram)
    ensures
        next == (match outcome {
            ReadOutcome::Received(n) => AfterDatagram::Handle(n),
            ReadOutcome::Failed => AfterDatagram::Skip,
        }),
{
    match outcome {
        ReadOutcome::Received(n) => AfterDatagram::Handle(n),
        ReadOutcome::Failed => AfterDatagram::Skip,
    }
}

} // verus!
