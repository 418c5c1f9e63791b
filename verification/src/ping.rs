use vstd::prelude::*;

use crate::binary::{
    Binary, BinaryError, bincode_serialize_i64, bincode_deserialize_i64, i64_le_bytes,
    i64_from_le, law_decode_after_encode,
};

verus! {

/// A ping from the client: the moment it was made, in milliseconds since
/// the Unix epoch.
#[derive(Debug, PartialEq, Eq)]
pub struct Ping {
    timestamp: i64,
}

impl View for Ping {
    type V = i64;

    closed spec fn view(&self) -> i64 {
        self.timestamp
    }
}

/// Calls `chrono::Utc::now().timestamp_millis()`: the current UTC time in
/// milliseconds since the Unix epoch. The value depends on the clock; what
/// holds of every outcome is that it is not negative, since `Utc::now`
/// measures the system time as a duration since the epoch and panics on a
/// clock set before it.
#[verifier::external_body]
fn utc_now_millis() -> (millis: i64)
    ensures
        millis >= 0,
{
    chrono::Utc::now().timestamp_millis()
}

impl Ping {
    /// A ping stamped with the current time (read from the system clock), in
    /// milliseconds since the Unix epoch.
    pub fn new() -> (p: Ping)
        ensures
            p@ >= 0,
    {
        Ping::with_timestamp(utc_now_millis())
    }

    /// A ping stamped with the given time in milliseconds.
    pub fn with_timestamp(timestamp: i64) -> (p: Ping)
        ensures
            p@ == timestamp,
    {
        Ping { timestamp }
    }

    /// The time the ping carries, in milliseconds.
    pub fn timestamp(&self) -> (t: i64)
        ensures
            t == self@,
    {
        self.timestamp
    }
}

/// Reading back the bytes that a ping is written as gives the same ping:
/// `from_binary` accepts the eight bytes of `to_binary` and reads the same
/// timestamp from them.
pub proof fn law_ping_roundtrip(p: Ping)
    ensures
        i64_le_bytes(p@).len() >= 8,
        i64_from_le(i64_le_bytes(p@)) == p@,
{
    law_decode_after_encode(p@);
}

impl Binary for Ping {
    /// A ping is read from the first eight bytes of the message (its
    /// timestamp, little-endian); more bytes are ignored, fewer are an error.
    /// For an `i64` the only way bincode fails is by running out of bytes.
    fn from_binary(buf: &Vec<u8>) -> (r: Result<Ping, BinaryError>)
        ensures
            r is Ok <==> buf@.len() >= 8,
            r matches Ok(p) ==> p@ == i64_from_le(buf@),
            r is Err ==> r == Err::<Ping, BinaryError>(BinaryError::Io),
    {
        match bincode_deserialize_i64(buf.as_slice()) {
            Ok(timestamp) => Ok(Ping { timestamp }),
            Err(_) => Err(BinaryError::Io),
        }
    }

    /// A ping is written as the eight little-endian bytes of its timestamp;
    /// this never fails.
    fn to_binary(&self) -> (r: Result<Vec<u8>, BinaryError>)
        ensures
            r is Ok,
            r matches Ok(bytes) ==> bytes@ == i64_le_bytes(self@),
    {
        match bincode_serialize_i64(self.timestamp) {
            Ok(bytes) => Ok(bytes),
            Err(_) => Err(BinaryError::Io),
        }
    }
}

} // verus!
