//! The per-connection protocol: the client sends a four-byte big-endian
//! count, the server answers with the snapshot's chunks and then closes.
use vstd::prelude::*;

verus! {

/// The unsigned value of four bytes, most significant first.
pub open spec fn be_u32_value(b0: u8, b1: u8, b2: u8, b3: u8) -> int {
    b0 as int * 0x100_0000 + b1 as int * 0x1_0000 + b2 as int * 0x100 + b3 as int
}

/// The two's-complement signed value of four bytes, most significant first.
pub open spec fn be_i32_value(b: Seq<u8>) -> int
    recommends
        b.len() >= 4,
{
    let u = be_u32_value(b[0], b[1], b[2], b[3]);
    if u >= 0x8000_0000 {
        u - 0x1_0000_0000
    } else {
        u
    }
}

/// The count that the first four bytes give, if that many arrived.
pub open spec fn decode_count_spec(b: Seq<u8>) -> Option<i32> {
    if b.len() < 4 {
        None
    } else {
        Some(be_i32_value(b) as i32)
    }
}

/// Reads the requested count from the first four bytes of `bytes`; `None`
/// when fewer than four arrived.
pub fn decode_count(bytes: &[u8]) -> (r: Option<i32>)
    ensures
        r == decode_count_spec(bytes@),
        bytes@.len() < 4 <==> r is None,
        r matches Some(n) ==> n as int == be_i32_value(bytes@),
{
    if bytes.len() < 4 {
        return None;
    }
    let b0 = bytes[0] as u32;
    let b1 = bytes[1] as u32;
    let b2 = bytes[2] as u32;
    let b3 = bytes[3] as u32;
    assert(b0 * 0x100_0000 + b1 * 0x1_0000 + b2 * 0x100 + b3 <= 0xffff_ffff) by (nonlinear_arith)
        requires
            b0 <= 255,
            b1 <= 255,
            b2 <= 255,
            b3 <= 255,
    ;
    let u: u32 = b0 * 0x100_0000 + b1 * 0x1_0000 + b2 * 0x100 + b3;
    if u >= 0x8000_0000 {
        let low = (u - 0x8000_0000) as i32;
        Some(low - 0x7fff_ffff - 1)
    } else {
        Some(u as i32)
    }
}

/// Where a connection stands.
#[derive(Debug, PartialEq, Eq, Structural)]
pub enum ConnState {
    /// Waiting for the client's four-byte count.
    AwaitingCount,
    /// The request is being handed to the snapshot dispatcher.
    Dispatching,
    /// Forwarding the reply's chunks to the client.
    Streaming,
    /// Done; the connection is to be closed.
    Closed,
}

/// What happened since the last step.
pub enum ConnEvent {
    /// The bytes read for the count (fewer than four at end of stream).
    CountBytes(Vec<u8>),
    /// The request reached the dispatcher.
    Submitted,
    /// The dispatcher no longer takes requests.
    DispatcherGone,
    /// A chunk of the reply arrived.
    Chunk(String),
    /// The reply is complete.
    ReplyClosed,
    /// Reading from or writing to the client failed.
    IoFailed,
}

/// What the connection's driver is to do next.
pub enum ConnAction {
    /// Send a request for this many records to the dispatcher.
    Submit(i32),
    /// Wait for the next chunk of the reply.
    AwaitChunk,
    /// Write this chunk to the client as it is.
    Write(String),
    /// Close the connection.
    Close,
}

/// One transition of a connection: from its state and the latest event to
/// its next state and the action to perform.
pub fn step(state: ConnState, event: ConnEvent) -> (r: (ConnState, ConnAction))
    ensures
        event is IoFailed ==> r.0 == ConnState::Closed && r.1 is Close,
        state is Closed ==> r.0 == ConnState::Closed && r.1 is Close,
        state is AwaitingCount && event is CountBytes ==> match decode_count_spec(
            event->CountBytes_0@,
        ) {
            Some(n) => r.0 == ConnState::Dispatching && r.1 == ConnAction::Submit(n),
            None => r.0 == ConnState::Closed && r.1 is Close,
        },
        state is Dispatching && event is Submitted ==> r.0 == ConnState::Streaming
            && r.1 is AwaitChunk,
        state is Dispatching && event is DispatcherGone ==> r.0 == ConnState::Closed
            && r.1 is Close,
        state is Streaming && event is Chunk ==> r.0 == ConnState::Streaming && r.1
            == ConnAction::Write(event->Chunk_0),
        state is Streaming && event is ReplyClosed ==> r.0 == ConnState::Closed && r.1 is Close,
        !(state is AwaitingCount && event is CountBytes) && !(state is Dispatching
            && event is Submitted) && !(state is Streaming && event is Chunk) ==> r.0
            == ConnState::Closed && r.1 is Close,
{
    match (state, event) {
        (ConnState::AwaitingCount, ConnEvent::CountBytes(bytes)) => {
            match decode_count(bytes.as_slice()) {
                Some(n) => (ConnState::Dispatching, ConnAction::Submit(n)),
                None => (ConnState::Closed, ConnAction::Close),
            }
        },
        (ConnState::Dispatching, ConnEvent::Submitted) => (
            ConnState::Streaming,
            ConnAction::AwaitChunk,
        ),
        (ConnState::Streaming, ConnEvent::Chunk(chunk)) => (
            ConnState::Streaming,
            ConnAction::Write(chunk),
        ),
        _ => (ConnState::Closed, ConnAction::Close),
    }
}

} // verus!
