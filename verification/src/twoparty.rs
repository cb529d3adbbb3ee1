//! A vat network for the common case of two parties, a client and a server,
//! joined by one connection.

use crate::error::Error;
use crate::error::ErrorKind;
use std::rc::Rc;
use vstd::prelude::*;

verus! {

/// Which end of the connection a vat is.
#[derive(Clone, Copy, Debug, PartialEq, Eq, Structural)]
pub enum Side {
    Server,
    Client,
}

/// The name of a vat in a two-party network: its side.
pub type VatId = Side;

/// A message that came in over the connection. `M` is the message as the
/// codec read it.
#[derive(Debug)]
pub struct IncomingMessage<M> {
    message: M,
}

impl<M> View for IncomingMessage<M> {
    type V = M;

    closed spec fn view(&self) -> M {
        self.message
    }
}

impl<M> IncomingMessage<M> {
    /// Wraps a message that was read from the stream.
    pub fn new(message: M) -> (incoming: IncomingMessage<M>)
        ensures
            incoming@ == message,
    {
        IncomingMessage { message }
    }

    /// The message, from which the codec takes the body.
    pub fn message(&self) -> (message: &M)
        ensures
            *message == self@,
    {
        &self.message
    }
}

/// A message under construction, together with the handle of the channel
/// that it will be sent on. `M` is the message as the codec builds it.
#[derive(Debug)]
pub struct OutgoingMessage<M, S> {
    message: M,
    sender: S,
}

/// An outgoing message as contracts see it.
pub struct OutgoingModel<M, S> {
    pub message: M,
    pub sender: S,
}

impl<M, S> View for OutgoingMessage<M, S> {
    type V = OutgoingModel<M, S>;

    closed spec fn view(&self) -> OutgoingModel<M, S> {
        OutgoingModel { message: self.message, sender: self.sender }
    }
}

impl<M, S> OutgoingMessage<M, S> {
    /// A message to be built and then sent through `sender`.
    pub fn new(message: M, sender: S) -> (outgoing: OutgoingMessage<M, S>)
        ensures
            outgoing@ == (OutgoingModel { message, sender }),
    {
        OutgoingMessage { message, sender }
    }

    /// The message, from which the codec takes the body for reading.
    pub fn message(&self) -> (message: &M)
        ensures
            *message == self@.message,
    {
        &self.message
    }

    /// The message, from which the codec takes the body for writing.
    /// Whatever the caller writes is the message from then on; the channel
    /// stays.
    pub fn message_mut(&mut self) -> (message: &mut M)
        ensures
            *message == old(self)@.message,
            final(self)@ == (OutgoingModel {
                message: *final(message),
                sender: old(self)@.sender,
            }),
    {
        &mut self.message
    }

    /// Ends the construction: the message goes behind a shared handle, and
    /// comes back with the channel on which a copy of the handle is to be
    /// enqueued. The handle lets the caller look at the message after it
    /// was sent.
    pub fn send(self) -> (sent: (Rc<M>, S))
        ensures
            *sent.0 == self@.message,
            sent.1 == self@.sender,
    {
        let OutgoingMessage { message, sender } = self;
        (Rc::new(message), sender)
    }

    /// Gives the message up without sending it.
    pub fn take(self) -> (message: M)
        ensures
            message == self@.message,
    {
        self.message
    }
}

/// The description of the error that a second reader gets.
pub open spec fn second_reader_text() -> Seq<char> {
    "this should not be possible"@
}

/// The state of a connection as contracts see it.
pub struct ConnectionModel<T, S> {
    /// The stream that messages are read from, unless a read holds it.
    pub input_stream: Option<T>,
    /// The handle of the channel to the task that writes messages out.
    pub sender: S,
    /// Which end of the connection this vat is.
    pub side: Side,
    /// The limits under which incoming messages are read.
    pub receive_options: capnp::message::ReaderOptions,
    /// The signal to give when the connection is dropped, until it was
    /// given.
    pub on_disconnect_fulfiller: Option<futures::sync::oneshot::Sender<()>>,
}

impl<T, S> ConnectionModel<T, S> {
    /// The state after a read was asked for: the slot of the stream is
    /// empty, whether the read was granted or refused.
    pub open spec fn receive(self) -> Self {
        ConnectionModel { input_stream: None, ..self }
    }

    /// True when `answer` is what a request for a read is answered with:
    /// the stream and the limits to read under, or the refusal of a second
    /// reader.
    pub open spec fn receive_answers(
        self,
        answer: Result<(T, capnp::message::ReaderOptions), Error>,
    ) -> bool {
        match self.input_stream {
            Some(stream) => answer == Ok::<(T, capnp::message::ReaderOptions), Error>(
                (stream, self.receive_options),
            ),
            None => answer is Err && answer->Err_0.reads(ErrorKind::Failed, second_reader_text()),
        }
    }

    /// The state after a read gave the stream back.
    pub open spec fn give_back(self, stream: T) -> Self {
        ConnectionModel { input_stream: Some(stream), ..self }
    }

    /// The state after the disconnect signal was given.
    pub open spec fn signal_taken(self) -> Self {
        ConnectionModel { on_disconnect_fulfiller: None, ..self }
    }
}

/// One end of a two-party connection: the stream to read from, the channel
/// to write to, and the signal that tells the network when the connection
/// is gone.
pub struct Connection<T, S> {
    input_stream: Option<T>,
    sender: S,
    side: Side,
    receive_options: capnp::message::ReaderOptions,
    on_disconnect_fulfiller: Option<futures::sync::oneshot::Sender<()>>,
}

impl<T, S> View for Connection<T, S> {
    type V = ConnectionModel<T, S>;

    closed spec fn view(&self) -> ConnectionModel<T, S> {
        ConnectionModel {
            input_stream: self.input_stream,
            sender: self.sender,
            side: self.side,
            receive_options: self.receive_options,
            on_disconnect_fulfiller: self.on_disconnect_fulfiller,
        }
    }
}

impl<T, S> Connection<T, S> {
    /// A connection that reads from `input_stream`, writes through `sender`
    /// and gives the disconnect signal through `on_disconnect_fulfiller`.
    pub fn new(
        input_stream: T,
        sender: S,
        side: Side,
        receive_options: capnp::message::ReaderOptions,
        on_disconnect_fulfiller: futures::sync::oneshot::Sender<()>,
    ) -> (connection: Connection<T, S>)
        ensures
            connection@ == (ConnectionModel {
                input_stream: Some(input_stream),
                sender,
                side,
                receive_options,
                on_disconnect_fulfiller: Some(on_disconnect_fulfiller),
            }),
    {
        Connection {
            input_stream: Some(input_stream),
            sender,
            side,
            receive_options,
            on_disconnect_fulfiller: Some(on_disconnect_fulfiller),
        }
    }

    /// The side that the connection was made with.
    pub fn get_peer_vat_id(&self) -> (side: Side)
        ensures
            side == self@.side,
    {
        self.side
    }

    /// The handle of the write channel, of which each outgoing message
    /// gets a copy and through which the channel is shut down.
    pub fn sender(&self) -> (sender: &S)
        ensures
            *sender == self@.sender,
    {
        &self.sender
    }

    /// A new message to build and send on this connection: `message`, the
    /// empty message that the codec made for it, together with a copy of
    /// the handle of the write channel. The size hint is not used.
    pub fn new_outgoing_message<M>(&self, _first_segment_word_size: u32, message: M) -> (outgoing:
        OutgoingMessage<M, S>) where S: Clone
        ensures
            outgoing@.message == message,
            cloned(self@.sender, outgoing@.sender),
    {
        OutgoingMessage::new(message, self.sender.clone())
    }

    /// Asks for the next incoming message. Takes the stream out of its
    /// slot and hands it over with the limits to read under; the slot stays
    /// empty until the read gives the stream back. While it is empty a
    /// second request is refused.
    pub fn receive_incoming_message(&mut self) -> (answer: Result<
        (T, capnp::message::ReaderOptions),
        Error,
    >)
        ensures
            old(self)@.receive_answers(answer),
            final(self)@ == old(self)@.receive(),
    {
        let stream = self.input_stream.take();
        match stream {
            Some(s) => Ok((s, self.receive_options)),
            None => Err(Error::failed("this should not be possible".to_owned())),
        }
    }

    /// Ends a read: the stream goes back into its slot, and what was read
    /// is wrapped, a message or nothing at the clean end of the stream.
    pub fn incoming_message_received<M>(&mut self, stream: T, message: Option<M>) -> (incoming:
        Option<IncomingMessage<M>>)
        ensures
            final(self)@ == old(self)@.give_back(stream),
            match message {
                Some(m) => incoming is Some && incoming->0@ == m,
                None => incoming is None,
            },
    {
        self.input_stream = Some(stream);
        match message {
            Some(m) => Some(IncomingMessage::new(m)),
            None => None,
        }
    }

    /// The connection is being dropped: gives the disconnect signal, if
    /// it was not given before. Returns whether it was given now.
    pub fn disconnect(&mut self) -> (given: bool)
        ensures
            given == (old(self)@.on_disconnect_fulfiller is Some),
            final(self)@ == old(self)@.signal_taken(),
    {
        let fulfiller = self.on_disconnect_fulfiller.take();
        match fulfiller {
            Some(f) => {
                give_signal(f);
                true
            },
            None => false,
        }
    }
}

/// `futures::sync::oneshot::Sender::send` with the unit value: gives the
/// signal to the receiving end of the channel, and uses the sending end up.
/// Whether the receiving end was still there is not reported.
#[verifier::external_body]
fn give_signal(fulfiller: futures::sync::oneshot::Sender<()>) {
    let _ = fulfiller.send(());
}

/// The description of the error that stands for a disconnect signal whose
/// giver went away without giving it.
pub open spec fn disconnected_text() -> Seq<char> {
    "disconnected"@
}

/// The error that stands for a disconnect signal whose giver went away
/// without giving it.
pub fn disconnect_signal_lost() -> (e: Error)
    ensures
        e.reads(ErrorKind::Disconnected, disconnected_text()),
{
    Error::disconnected("disconnected".to_owned())
}

/// What drives a network until it shuts down, as contracts see it.
pub struct DriverModel {
    /// How the task that writes messages out ended, once it has.
    pub writer: Option<Result<(), Error>>,
    /// Whether the disconnect signal has come.
    pub disconnected: bool,
}

impl DriverModel {
    /// A driver whose writer runs and whose connection lives.
    pub open spec fn running() -> Self {
        DriverModel { writer: None, disconnected: false }
    }

    /// The state after the writer ended with `result`. Only the first end
    /// counts.
    pub open spec fn writer_finished(self, result: Result<(), Error>) -> Self {
        match self.writer {
            None => DriverModel { writer: Some(result), ..self },
            Some(_) => self,
        }
    }

    /// The state after the disconnect signal came.
    pub open spec fn disconnect(self) -> Self {
        DriverModel { disconnected: true, ..self }
    }

    /// How the drive ended, if it has: with the writer's outcome, and not
    /// before the writer has ended and the disconnect signal has come.
    pub open spec fn outcome(self) -> Option<Result<(), Error>> {
        if self.disconnected {
            self.writer
        } else {
            None
        }
    }
}

/// Drives the network until it shuts down: first the writer runs to its
/// end, then the disconnect signal is awaited, and then the writer's
/// outcome is passed on. An error of the writer does not cut the wait
/// short.
#[derive(Debug)]
pub struct ExecutionDriver {
    writer: Option<Result<(), Error>>,
    disconnected: bool,
}

impl View for ExecutionDriver {
    type V = DriverModel;

    closed spec fn view(&self) -> DriverModel {
        DriverModel { writer: self.writer, disconnected: self.disconnected }
    }
}

impl ExecutionDriver {
    /// A driver whose writer runs and whose connection lives.
    pub fn new() -> (driver: ExecutionDriver)
        ensures
            driver@ == DriverModel::running(),
    {
        ExecutionDriver { writer: None, disconnected: false }
    }

    /// Notes that the writer ended with `result`.
    pub fn writer_finished(&mut self, result: Result<(), Error>)
        ensures
            final(self)@ == old(self)@.writer_finished(result),
    {
        if self.writer.is_none() {
            self.writer = Some(result);
        }
    }

    /// Notes that the disconnect signal came. A signal whose giver went
    /// away without giving it counts as well.
    pub fn disconnected(&mut self)
        ensures
            final(self)@ == old(self)@.disconnect(),
    {
        self.disconnected = true;
    }

    /// How the drive ended, if it has. Every caller gets its own copy of
    /// the outcome.
    pub fn outcome(&self) -> (outcome: Option<Result<(), Error>>)
        ensures
            outcome == self@.outcome(),
    {
        if !self.disconnected {
            return None;
        }
        match &self.writer {
            None => None,
            Some(result) => match result {
                Ok(done) => Some(Ok(*done)),
                Err(e) => Some(Err(e.clone())),
            },
        }
    }
}

/// What a request to accept a connection is answered with.
#[derive(Debug, PartialEq, Eq)]
pub enum Accept<K> {
    /// The connection to the peer.
    Ready(K),
    /// There is no further peer: the request never completes.
    Never,
}

/// The state of a two-party vat network as contracts see it.
pub struct VatNetworkModel<K> {
    /// The connection to the peer, until it was handed out.
    pub connection: Option<K>,
    /// What drives the network until it shuts down.
    pub execution_driver: DriverModel,
    /// Which end of the connection this vat is.
    pub side: Side,
}

impl<K> VatNetworkModel<K> {
    /// True when a connection to `host_id` can only be a facade of the
    /// live connection: the peer is asked for and the network has handed
    /// its connection out.
    pub open spec fn needs_live_connection(self, host_id: Side) -> bool {
        host_id != self.side && self.connection is None
    }

    /// What a request to connect to `host_id` is answered with. `upgraded`
    /// is a facade of the connection if it is still alive.
    pub open spec fn connected(self, host_id: Side, upgraded: Option<K>) -> Option<K> {
        if host_id == self.side {
            None
        } else {
            match self.connection {
                Some(connection) => Some(connection),
                None => upgraded,
            }
        }
    }

    /// The state after a request to connect to `host_id`.
    pub open spec fn connect(self, host_id: Side) -> Self {
        if host_id == self.side {
            self
        } else {
            VatNetworkModel { connection: None, ..self }
        }
    }

    /// What a request to accept a connection is answered with.
    pub open spec fn accepted(self) -> Accept<K> {
        match self.connection {
            Some(connection) => Accept::Ready(connection),
            None => Accept::Never,
        }
    }

    /// The state after a request to accept a connection.
    pub open spec fn accept(self) -> Self {
        VatNetworkModel { connection: None, ..self }
    }
}

/// A vat network with two parties, the client and the server. It owns the
/// one connection to the peer until somebody asks for it.
#[derive(Debug)]
pub struct VatNetwork<K> {
    connection: Option<K>,
    execution_driver: ExecutionDriver,
    side: Side,
}

impl<K> View for VatNetwork<K> {
    type V = VatNetworkModel<K>;

    closed spec fn view(&self) -> VatNetworkModel<K> {
        VatNetworkModel {
            connection: self.connection,
            execution_driver: self.execution_driver@,
            side: self.side,
        }
    }
}

impl<K> VatNetwork<K> {
    /// A network on the given side that owns `connection`, its one link to
    /// the peer, and whose driver has just started. The side does not
    /// change what goes over the wire; it tells the layer above which of
    /// the two vats it is.
    pub fn new(connection: K, side: Side) -> (network: VatNetwork<K>)
        ensures
            network@ == (VatNetworkModel {
                connection: Some(connection),
                execution_driver: DriverModel::running(),
                side,
            }),
    {
        VatNetwork { connection: Some(connection), execution_driver: ExecutionDriver::new(), side }
    }

    /// Which end of the connection this vat is.
    pub fn side(&self) -> (side: Side)
        ensures
            side == self@.side,
    {
        self.side
    }

    /// True when a connection to `host_id` can only be a facade of the
    /// live connection, so that `connect` needs one.
    pub fn needs_live_connection(&self, host_id: Side) -> (needed: bool)
        ensures
            needed == self@.needs_live_connection(host_id),
    {
        host_id != self.side && self.connection.is_none()
    }

    /// Connects to the vat `host_id`. There is no connection to oneself.
    /// The first request for the peer gets the connection that the network
    /// owns; every later one gets `upgraded`, a facade of the same
    /// connection, which the caller makes if the connection is still
    /// alive. To ask again for a connection that is gone is a programming
    /// error, and not allowed.
    pub fn connect(&mut self, host_id: Side, upgraded: Option<K>) -> (connection: Option<K>)
        requires
            old(self)@.needs_live_connection(host_id) ==> upgraded is Some,
        ensures
            connection == old(self)@.connected(host_id, upgraded),
            final(self)@ == old(self)@.connect(host_id),
    {
        if host_id == self.side {
            None
        } else {
            let connection = self.connection.take();
            match connection {
                Some(c) => Some(c),
                None => upgraded,
            }
        }
    }

    /// Accepts the connection from the peer. The first request gets the
    /// connection that the network owns; there is only one peer, so every
    /// later request never completes.
    pub fn accept(&mut self) -> (accepted: Accept<K>)
        ensures
            accepted == old(self)@.accepted(),
            final(self)@ == old(self)@.accept(),
    {
        let connection = self.connection.take();
        match connection {
            Some(c) => Accept::Ready(c),
            None => Accept::Never,
        }
    }

    /// Notes that the task that writes messages out ended with `result`.
    pub fn writer_finished(&mut self, result: Result<(), Error>)
        ensures
            final(self)@ == (VatNetworkModel {
                execution_driver: old(self)@.execution_driver.writer_finished(result),
                ..old(self)@
            }),
    {
        self.execution_driver.writer_finished(result);
    }

    /// Notes that the disconnect signal came: the connection was dropped.
    pub fn disconnected(&mut self)
        ensures
            final(self)@ == (VatNetworkModel {
                execution_driver: old(self)@.execution_driver.disconnect(),
                ..old(self)@
            }),
    {
        self.execution_driver.disconnected();
    }

    /// How the drive of the network ended, if it has: with the writer's
    /// outcome, once the writer has ended and the connection was dropped.
    pub fn drive_until_shutdown(&self) -> (outcome: Option<Result<(), Error>>)
        ensures
            outcome == self@.execution_driver.outcome(),
    {
        self.execution_driver.outcome()
    }
}

/// At most one read is under way on a connection. Once a read was asked
/// for, whether it was granted or refused, every further request is refused
/// with a failure and leaves the state as it is, until a read gives the
/// stream back; then the next request gets that stream.
pub proof fn lemma_single_reader<T, S>(
    connection: ConnectionModel<T, S>,
    second: Result<(T, capnp::message::ReaderOptions), Error>,
    stream: T,
    next: Result<(T, capnp::message::ReaderOptions), Error>,
)
    requires
        connection.receive().receive_answers(second),
        connection.receive().give_back(stream).receive_answers(next),
    ensures
        second is Err,
        second->Err_0.reads(ErrorKind::Failed, second_reader_text()),
        connection.receive().receive() == connection.receive(),
        next == Ok::<(T, capnp::message::ReaderOptions), Error>(
            (stream, connection.receive_options),
        ),
{
}

/// The disconnect signal is given exactly once: by the first drop, and by
/// no later one.
pub proof fn lemma_signal_once<T, S>(connection: ConnectionModel<T, S>)
    ensures
        connection.signal_taken().on_disconnect_fulfiller is None,
        connection.signal_taken().signal_taken() == connection.signal_taken(),
{
}

/// The drive of a network ends with the writer's outcome, and only after
/// both the writer has ended and the disconnect signal has come, in
/// whichever order. In particular, once the writer has ended well and the
/// connection was dropped, the drive has ended well; and an error of the
/// writer is held back until the signal has come.
pub proof fn lemma_clean_shutdown(driver: DriverModel, result: Result<(), Error>)
    requires
        driver.writer is None,
        !driver.disconnected,
    ensures
        driver.outcome() is None,
        driver.writer_finished(result).outcome() is None,
        driver.disconnect().outcome() is None,
        driver.writer_finished(result).disconnect().outcome() == Some(result),
        driver.disconnect().writer_finished(result).outcome() == Some(result),
        driver.writer_finished(Ok(())).disconnect().outcome() == Some(Ok::<(), Error>(())),
{
}

/// The two sides are not alike. A network that still owns its connection
/// answers a request to connect to its own side with nothing, and keeps
/// the connection; it answers the first request for the peer with that
/// connection, whatever facade the caller offers. After that the network
/// owns none: a request for the peer is answered with the facade of the
/// live connection that the caller offers, and needs one.
pub proof fn lemma_two_party_asymmetry<K>(
    network: VatNetworkModel<K>,
    connection: K,
    peer: Side,
    first: Option<K>,
    second: Option<K>,
)
    requires
        network.connection == Some(connection),
        peer != network.side,
    ensures
        network.connected(network.side, first) is None,
        network.connect(network.side) == network,
        !network.needs_live_connection(peer),
        network.connected(peer, first) == Some(connection),
        network.connect(peer).needs_live_connection(peer),
        network.connect(peer).connected(peer, second) == second,
        network.connect(peer).connected(network.side, second) is None,
{
}

/// A network hands its connection out once: after a request to accept or
/// a request to connect to the peer, every request to accept never
/// completes.
pub proof fn lemma_accept_once<K>(network: VatNetworkModel<K>, peer: Side)
    requires
        peer != network.side,
    ensures
        network.accept().accepted() == Accept::<K>::Never,
        network.connect(peer).accepted() == Accept::<K>::Never,
        network.accept().needs_live_connection(peer),
{
}

} // verus!
