//! Inter-thread communication: the typed events the roles exchange, the
//! addressed messages that carry them, and the endpoint (a bound
//! sender/receiver pair) each role talks through.
//!
//! Delivery itself is done by crossbeam's unbounded FIFO channels behind
//! trusted wrappers; everything layered on them is verified.

use vstd::prelude::*;
use crossbeam::channel::{Receiver, Sender};

verus! {

/// One unit of inter-role communication.
#[derive(Debug, Clone, PartialEq)]
pub enum Event {
    /// Executor asks the runner to write these bytes to the transport.
    SendData { data: Vec<u8> },
    /// Executor asks the runner to start forwarding received frames.
    StartStream,
    /// Executor asks the runner to stop forwarding received frames.
    StopStream,
    /// Runner forwards one received frame; the timestamp is wall-clock
    /// milliseconds, the payload is trimmed of its frame delimiter.
    DataReceived { timestamp: i64, data: Vec<u8>, data_length: usize },
    /// The receiving role should finish its current cycle and exit.
    StopRunning,
    /// The runner could not write to the transport.
    SendError,
    /// The runner could not read from the transport.
    ReceiveError,
}

/// An event together with the names of the role that sent it and the role
/// it is meant for.
#[derive(Debug, Clone, PartialEq)]
pub struct Message {
    pub origin: String,
    pub destination: String,
    pub event: Event,
}

/// Why a channel operation yielded no message.
#[derive(Clone, Copy, Debug, PartialEq, Eq, Structural)]
pub enum ChannelError {
    /// The peer's half of the channel is gone.
    Disconnected,
    /// No message arrived within the allowed time.
    Timeout,
}

#[verifier::external_type_specification]
#[verifier::external_body]
#[verifier::reject_recursive_types(T)]
pub struct ExSender<T>(Sender<T>);

#[verifier::external_type_specification]
#[verifier::external_body]
#[verifier::reject_recursive_types(T)]
pub struct ExReceiver<T>(Receiver<T>);

/// Relies on crossbeam_channel::unbounded: a new channel of unlimited
/// capacity whose delivery between this sender and receiver is FIFO.
#[verifier::external_body]
pub(crate) fn channel_unbounded() -> (r: (Sender<Message>, Receiver<Message>)) {
    crossbeam::channel::unbounded()
}

/// Relies on crossbeam_channel::never: a receiver on which no message is
/// ever delivered and that never disconnects.
#[verifier::external_body]
pub(crate) fn channel_never() -> (r: Receiver<Message>) {
    crossbeam::channel::never()
}

/// Relies on crossbeam_channel::Sender::send: on an unbounded channel the
/// send fails only when every receiver is gone.
#[verifier::external_body]
pub(crate) fn channel_send(tx: &Sender<Message>, message: Message) -> (r: Result<
    (),
    ChannelError,
>)
    ensures
        r matches Err(e) ==> e == ChannelError::Disconnected,
{
    match tx.send(message) {
        Ok(()) => Ok(()),
        Err(_) => Err(ChannelError::Disconnected),
    }
}

/// Relies on crossbeam_channel::Receiver::try_recv: yields a queued message
/// without blocking, or nothing when the channel is empty or disconnected.
#[verifier::external_body]
pub(crate) fn channel_try_recv(rx: &Receiver<Message>) -> (r: Option<Message>) {
    match rx.try_recv() {
        Ok(message) => Some(message),
        Err(crossbeam::channel::TryRecvError::Empty) => None,
        Err(crossbeam::channel::TryRecvError::Disconnected) => None,
    }
}

/// Relies on crossbeam_channel::Receiver::recv_timeout: blocks for at most
/// the given time, yielding a message, a timeout, or a disconnection.
#[verifier::external_body]
pub(crate) fn channel_recv_timeout(rx: &Receiver<Message>, timeout_ms: u64) -> (r: Result<
    Message,
    ChannelError,
>) {
    match rx.recv_timeout(core::time::Duration::from_millis(timeout_ms)) {
        Ok(message) => Ok(message),
        Err(crossbeam::channel::RecvTimeoutError::Timeout) => Err(ChannelError::Timeout),
        Err(crossbeam::channel::RecvTimeoutError::Disconnected) => Err(
            ChannelError::Disconnected,
        ),
    }
}

/// Relies on crossbeam_channel::Receiver::recv: blocks until a message
/// arrives or every sender is gone.
#[verifier::external_body]
pub(crate) fn channel_recv(rx: &Receiver<Message>) -> (r: Result<Message, ChannelError>)
    ensures
        r matches Err(e) ==> e == ChannelError::Disconnected,
{
    match rx.recv() {
        Ok(message) => Ok(message),
        Err(_) => Err(ChannelError::Disconnected),
    }
}

/// Relies on crossbeam_channel::Sender::clone: another handle sending into
/// the same channel.
#[verifier::external_body]
pub(crate) fn clone_sender(tx: &Sender<Message>) -> (r: Sender<Message>) {
    tx.clone()
}

/// Relies on crossbeam_channel::Receiver::clone: another handle receiving
/// from the same channel.
#[verifier::external_body]
pub(crate) fn clone_receiver(rx: &Receiver<Message>) -> (r: Receiver<Message>) {
    rx.clone()
}

/// Blocks the calling thread for the given time by waiting on a channel
/// that never delivers.
pub fn sleep_for_millis(ms: u64) {
    if ms > 0 {
        let idle = channel_never();
        let _ = channel_recv_timeout(&idle, ms);
    }
}

/// One role's half of the bus: its name, the channel it sends on, and the
/// channel it receives from.
pub struct Endpoints {
    source: String,
    send_channel: Sender<Message>,
    receive_channel: Receiver<Message>,
}

impl Endpoints {
    /// The role name this endpoint stamps on outgoing messages.
    pub closed spec fn source_view(&self) -> Seq<char> {
        self.source@
    }

    pub fn new(source: String, send_channel: Sender<Message>, receive_channel: Receiver<
        Message,
    >) -> (r: Endpoints)
        ensures
            r.source_view() == source@,
    {
        Endpoints { source, send_channel, receive_channel }
    }

    /// The message this endpoint hands the bus for one event: the event,
    /// the given destination, and this endpoint's own name as origin.
    pub fn compose(&self, event: Event, destination: String) -> (r: Message)
        ensures
            r.origin@ == self.source_view(),
            r.destination == destination,
            r.event == event,
    {
        Message { origin: self.source.clone(), destination, event }
    }

    /// Sends the given events in order, each addressed to `destination`
    /// and stamped with this endpoint's source, stopping at the first
    /// failure.
    pub fn send_all(&self, data_to_send: Vec<Event>, destination: String) -> (r: Result<
        (),
        ChannelError,
    >)
        ensures
            r matches Err(e) ==> e == ChannelError::Disconnected,
    {
        let mut remaining = data_to_send;
        while remaining.len() > 0
            decreases remaining@.len(),
        {
            let data = remaining.remove(0);
            let message = self.compose(data, destination.clone());
            if let Err(e) = channel_send(&self.send_channel, message) {
                return Err(e);
            }
        }
        Ok(())
    }

    /// Drains every message currently queued, without blocking.
    pub fn try_receive_all(&self) -> (r: Result<Vec<Message>, ChannelError>)
        ensures
            r is Ok,
    {
        let mut messages: Vec<Message> = Vec::new();
        // The drain is bounded only formally: no queue ever holds this
        // many messages.
        let mut fuel: u64 = u64::MAX;
        while fuel > 0
            decreases fuel,
        {
            fuel = fuel - 1;
            match channel_try_recv(&self.receive_channel) {
                Some(message) => {
                    messages.push(message);
                },
                None => {
                    break;
                },
            }
        }
        Ok(messages)
    }

    /// Blocks for at most `timeout_ms` milliseconds waiting for the next
    /// message.
    pub fn receive_timeout(&self, timeout_ms: u64) -> (r: Result<Message, ChannelError>) {
        channel_recv_timeout(&self.receive_channel, timeout_ms)
    }

    /// Blocks until the next message arrives or the peer is gone.
    pub fn receive_blocking(&self) -> (r: Result<Message, ChannelError>)
        ensures
            r matches Err(e) ==> e == ChannelError::Disconnected,
    {
        channel_recv(&self.receive_channel)
    }

    /// Sends one event addressed to `destination`, stamped with this
    /// endpoint's source.
    pub fn send(&self, data: Event, destination: String) -> (r: Result<(), ChannelError>)
        ensures
            r matches Err(e) ==> e == ChannelError::Disconnected,
    {
        let message = self.compose(data, destination);
        channel_send(&self.send_channel, message)
    }

    /// Fresh handles on this endpoint's two channels.
    pub fn get_channels(&self) -> (r: (Sender<Message>, Receiver<Message>)) {
        (clone_sender(&self.send_channel), clone_receiver(&self.receive_channel))
    }

    /// This endpoint's role name.
    pub fn get_source(&self) -> (r: String)
        ensures
            r@ == self.source_view(),
    {
        self.source.clone()
    }
}

} // verus!
