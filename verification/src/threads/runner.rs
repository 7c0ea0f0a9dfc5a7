//! The runner role: exclusive owner of the connection, relaying framed
//! bytes between the transport and the bus.
//!
//! Each cycle drains the queued control messages without blocking, performs
//! exactly one bounded line read, and forwards the received frame upstream
//! when streaming is enabled.  The runner never stops itself on a transport
//! error: it reports the error and leaves the decision to the executor.

use vstd::prelude::*;
use crate::connection::{Communicate, Connection, TransportError};
use crate::threads::clock::now_millis;
use crate::threads::itc::{Endpoints, Event};

verus! {

/// Size of the scratch buffer one bounded read fills.
pub const READ_BUFFER_LEN: usize = 256;

/// The byte that ends a frame.
pub const LINE_DELIMITER: u8 = 0x0A;

/// The runner's whole state: whether received frames are forwarded, and
/// whether the cycle keeps running.
#[derive(Clone, Copy, Debug, PartialEq, Eq, Structural)]
pub struct RunnerState {
    pub streaming_enabled: bool,
    pub alive: bool,
}

impl RunnerState {
    /// Streaming starts disabled so stale bytes are not forwarded before a
    /// command awaits its reply.
    pub fn new() -> (r: RunnerState)
        ensures
            !r.streaming_enabled,
            r.alive,
    {
        RunnerState { streaming_enabled: false, alive: true }
    }
}

/// Applies one inbound event to the runner's state and hands back the
/// payload to write, if the event carries one.  Any event the runner has no
/// business with is dropped.
pub fn handle_control(state: &mut RunnerState, event: Event) -> (r: Option<Vec<u8>>)
    ensures
        match event {
            Event::StartStream => final(state).streaming_enabled && final(state).alive == old(
                state,
            ).alive && r is None,
            Event::StopStream => !final(state).streaming_enabled && final(state).alive == old(
                state,
            ).alive && r is None,
            Event::StopRunning => !final(state).alive && final(state).streaming_enabled == old(
                state,
            ).streaming_enabled && r is None,
            Event::SendData { data } => *final(state) == *old(state) && r == Some(data),
            _ => *final(state) == *old(state) && r is None,
        },
{
    match event {
        Event::StartStream => {
            state.streaming_enabled = true;
            None
        },
        Event::StopStream => {
            state.streaming_enabled = false;
            None
        },
        Event::StopRunning => {
            state.alive = false;
            None
        },
        Event::SendData { data } => Some(data),
        _ => None,
    }
}

/// The payload of a received frame: the first `read` bytes of the
/// buffer, with one trailing delimiter removed if it is there.
pub open spec fn spec_trim_frame(buf: Seq<u8>, read: int, delimiter: u8) -> Seq<u8> {
    if read > 0 && buf[read - 1] == delimiter {
        buf.subrange(0, read - 1)
    } else {
        buf.subrange(0, read)
    }
}

/// Exec mirror of [`spec_trim_frame`], consuming the scratch buffer.
pub fn trim_frame(buf: Vec<u8>, read: usize, delimiter: u8) -> (r: Vec<u8>)
    requires
        read <= buf@.len(),
    ensures
        r@ == spec_trim_frame(buf@, read as int, delimiter),
{
    let mut out = buf;
    let trimmed = if read > 0 && out[read - 1] == delimiter {
        read - 1
    } else {
        read
    };
    out.truncate(trimmed);
    out
}

/// What one write outcome obliges the runner to report upstream: a write
/// failure is non-fatal locally — it becomes a `SendError` for the
/// executor to judge — and a clean write reports nothing.
pub fn write_outcome_event(outcome: Result<(), TransportError>) -> (r: Option<Event>)
    ensures
        outcome is Ok <==> r is None,
        outcome is Err ==> r == Some(Event::SendError),
{
    match outcome {
        Ok(()) => None,
        Err(_) => Some(Event::SendError),
    }
}

/// What one read outcome obliges the runner to send upstream: with
/// streaming enabled, the trimmed frame with its length and timestamp; a
/// failed read, a `ReceiveError`; anything else, nothing.  The runner
/// never turns a transport error into a stop of its own.
pub fn read_outcome_event(
    outcome: Result<usize, TransportError>,
    buf: Vec<u8>,
    streaming: bool,
    timestamp: i64,
) -> (r: Option<Event>)
    requires
        outcome matches Ok(read) ==> read <= buf@.len(),
    ensures
        match outcome {
            Ok(read) => if streaming {
                r matches Some(e) && e matches Event::DataReceived {
                    timestamp: t,
                    data,
                    data_length,
                } && t == timestamp && data@ == spec_trim_frame(
                    buf@,
                    read as int,
                    LINE_DELIMITER,
                ) && data_length == data@.len()
            } else {
                r is None
            },
            Err(_) => r == Some(Event::ReceiveError),
        },
{
    match outcome {
        Ok(read) => {
            if streaming {
                let data = trim_frame(buf, read, LINE_DELIMITER);
                let data_length = data.len();
                Some(Event::DataReceived { timestamp, data, data_length })
            } else {
                None
            }
        },
        Err(_) => Some(Event::ReceiveError),
    }
}

/// A vector of `len` zero bytes.
fn zeroed_buffer(len: usize) -> (r: Vec<u8>)
    ensures
        r@.len() == len,
{
    let mut buf: Vec<u8> = Vec::new();
    let mut i: usize = 0;
    while i < len
        invariant
            i <= len,
            buf@.len() == i,
        decreases len - i,
    {
        buf.push(0);
        i = i + 1;
    }
    buf
}

/// One poll-then-block cycle: drain and apply every queued control
/// message (writing payloads to the connection, reporting write failures),
/// then perform one bounded line read and, when streaming is enabled,
/// forward the trimmed frame upstream; a failed read is reported and the
/// cycle goes on.
#[verifier::loop_isolation(false)]
pub fn cycle<C: Communicate>(
    state: &mut RunnerState,
    connection_handle: &mut Connection<C>,
    manager: &Endpoints,
)
    ensures
        !old(state).alive ==> !final(state).alive,
{
    let messages = match manager.try_receive_all() {
        Ok(m) => m,
        Err(_) => Vec::new(),
    };
    let mut remaining = messages;
    while remaining.len() > 0
        invariant
            !old(state).alive ==> !state.alive,
        decreases remaining@.len(),
    {
        let message = remaining.remove(0);
        match handle_control(state, message.event) {
            Some(data) => {
                let written = connection_handle.write(data.as_slice());
                match write_outcome_event(written) {
                    Some(event) => {
                        let _ = manager.send(event, "handler".to_owned());
                    },
                    None => {},
                }
            },
            None => {},
        }
    }

    let mut buf = zeroed_buffer(READ_BUFFER_LEN);
    let outcome = connection_handle.read_until(&mut buf, LINE_DELIMITER);
    match read_outcome_event(outcome, buf, state.streaming_enabled, now_millis()) {
        Some(event) => {
            let _ = manager.send(event, "handler".to_owned());
        },
        None => {},
    }
}

/// Role entry: repeats the cycle until a `StopRunning` is applied.
pub fn thread<C: Communicate>(connection_handle: &mut Connection<C>, manager: Endpoints) {
    let mut state = RunnerState::new();
    // The run is bounded only formally: no session reaches this many
    // cycles.
    let mut fuel: u64 = u64::MAX;
    while state.alive && fuel > 0
        decreases fuel,
    {
        fuel = fuel - 1;
        cycle(&mut state, connection_handle, &manager);
    }
}

} // verus!
