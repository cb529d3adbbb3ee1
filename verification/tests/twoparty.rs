use futures::Future;
use rpc_core::error::{Error, ErrorKind};
use rpc_core::twoparty::{
    disconnect_signal_lost, Accept, Connection, ExecutionDriver, IncomingMessage, OutgoingMessage,
    Side, VatId, VatNetwork,
};
use std::rc::Rc;

type Builder = capnp::message::Builder<capnp::message::HeapAllocator>;
type Channel = capnp_futures::Sender<Rc<Builder>>;

fn options() -> capnp::message::ReaderOptions {
    capnp::message::ReaderOptions::new()
}

/// A connection over the given input, with a write queue that nobody runs
/// and the receiving end of its disconnect signal.
fn connection(
    input: &'static [u8],
    side: Side,
) -> (Connection<&'static [u8], Channel>, futures::sync::oneshot::Receiver<()>) {
    let (sender, _queue) = capnp_futures::write_queue::<Vec<u8>, Rc<Builder>>(Vec::new());
    let (fulfiller, signal) = futures::sync::oneshot::channel::<()>();
    (Connection::new(input, sender, side, options(), fulfiller), signal)
}

#[test]
fn two_party_accept() {
    let mut network: VatNetwork<&'static str> = VatNetwork::new("K", Side::Server);
    // accept() yields the connection K.
    assert_eq!(network.accept(), Accept::Ready("K"));
    // accept() again never resolves.
    assert_eq!(network.accept(), Accept::Never);
    // connect(Server) is a connection to oneself.
    assert_eq!(network.connect(Side::Server, Some("facade of K")), None);
    // connect(Client) while K is alive returns a facade that shares K.
    assert!(network.needs_live_connection(Side::Client));
    assert_eq!(network.connect(Side::Client, Some("facade of K")), Some("facade of K"));
}

#[test]
fn clean_shutdown() {
    // K is shut down with Ok: the writer ends well; then K is dropped.
    let mut network: VatNetwork<u8> = VatNetwork::new(1, Side::Client);
    assert_eq!(network.drive_until_shutdown(), None);
    network.writer_finished(Ok(()));
    assert_eq!(network.drive_until_shutdown(), None);
    network.disconnected();
    assert_eq!(network.drive_until_shutdown(), Some(Ok(())));

    // K is dropped without a shutdown: the drive ends with the writer's
    // outcome, whatever it is, once the writer has ended.
    let mut dropped: VatNetwork<u8> = VatNetwork::new(1, Side::Client);
    dropped.disconnected();
    assert_eq!(dropped.drive_until_shutdown(), None);
    dropped.writer_finished(Err(Error::failed("broken pipe".to_string())));
    assert_eq!(dropped.drive_until_shutdown(), Some(Err(Error::failed("broken pipe".to_string()))));

    let mut idle: VatNetwork<u8> = VatNetwork::new(1, Side::Client);
    idle.disconnected();
    idle.writer_finished(Ok(()));
    assert_eq!(idle.drive_until_shutdown(), Some(Ok(())));
}

#[test]
fn connect_to_own_side_keeps_the_connection() {
    let mut network: VatNetwork<u8> = VatNetwork::new(9, Side::Client);
    assert_eq!(network.side(), Side::Client);
    assert!(!network.needs_live_connection(Side::Client));
    assert_eq!(network.connect(Side::Client, None), None);
    assert_eq!(network.connect(Side::Client, Some(3)), None);
    // The owned connection is still there for the peer.
    assert!(!network.needs_live_connection(Side::Server));
    assert_eq!(network.connect(Side::Server, None), Some(9));
}

#[test]
fn connect_hands_out_the_owned_connection_once() {
    let mut network: VatNetwork<u8> = VatNetwork::new(9, Side::Server);
    // The owned connection wins over an offered facade.
    assert_eq!(network.connect(Side::Client, Some(3)), Some(9));
    assert!(network.needs_live_connection(Side::Client));
    assert_eq!(network.connect(Side::Client, Some(4)), Some(4));
    assert_eq!(network.connect(Side::Client, Some(5)), Some(5));
    assert_eq!(network.accept(), Accept::Never);
}

#[test]
fn accept_then_connect_shares() {
    let mut network: VatNetwork<u8> = VatNetwork::new(9, Side::Client);
    assert_eq!(network.accept(), Accept::Ready(9));
    assert!(network.needs_live_connection(Side::Server));
    assert!(!network.needs_live_connection(Side::Client));
    assert_eq!(network.connect(Side::Server, Some(8)), Some(8));
}

#[test]
fn vat_ids_are_equal_iff_same_end() {
    let server: VatId = Side::Server;
    let client: VatId = Side::Client;
    assert_eq!(server, Side::Server);
    assert_eq!(client, Side::Client);
    assert_ne!(server, client);
}

#[test]
fn second_reader_is_refused() {
    let (mut conn, _signal) = connection(b"abc", Side::Server);
    let (stream, _options) = conn.receive_incoming_message().unwrap();
    assert_eq!(stream, b"abc");

    let refused = conn.receive_incoming_message().unwrap_err();
    assert_eq!(refused.kind, ErrorKind::Failed);
    assert_eq!(refused.description, "this should not be possible");
    // It stays refused until the stream is back.
    assert!(conn.receive_incoming_message().is_err());

    let nothing = conn.incoming_message_received::<u8>(&stream[1..], None);
    assert!(nothing.is_none());
    let (rest, _options) = conn.receive_incoming_message().unwrap();
    assert_eq!(rest, b"bc");
}

#[test]
fn receive_hands_out_the_limits_it_was_made_with() {
    let (sender, _queue) = capnp_futures::write_queue::<Vec<u8>, Rc<Builder>>(Vec::new());
    let (fulfiller, _signal) = futures::sync::oneshot::channel::<()>();
    let mut limits = capnp::message::ReaderOptions::new();
    limits.traversal_limit_in_words(1234).nesting_limit(5);
    let mut conn: Connection<u8, Channel> =
        Connection::new(0u8, sender, Side::Client, limits, fulfiller);
    let (stream, got) = conn.receive_incoming_message().unwrap();
    assert_eq!(stream, 0);
    assert_eq!(got.traversal_limit_in_words, 1234);
    assert_eq!(got.nesting_limit, 5);
}

#[test]
fn end_of_stream_yields_no_message() {
    let (mut conn, _signal) = connection(b"", Side::Client);
    let (stream, _) = conn.receive_incoming_message().unwrap();
    assert!(conn.incoming_message_received::<String>(stream, None).is_none());
    let wrapped = conn.incoming_message_received(stream, Some("body".to_string())).unwrap();
    assert_eq!(wrapped.message(), "body");
}

#[test]
fn peer_vat_id_is_the_side_given() {
    let (server, _s1) = connection(b"", Side::Server);
    let (client, _s2) = connection(b"", Side::Client);
    assert_eq!(server.get_peer_vat_id(), Side::Server);
    assert_eq!(client.get_peer_vat_id(), Side::Client);
}

#[test]
fn disconnect_signal_is_given_once() {
    let (mut conn, signal) = connection(b"", Side::Server);
    assert!(conn.disconnect());
    assert!(!conn.disconnect());
    assert!(!conn.disconnect());
    assert_eq!(signal.wait(), Ok(()));
}

#[test]
fn lost_disconnect_signal_reads_as_disconnected() {
    let e = disconnect_signal_lost();
    assert_eq!(e.kind, ErrorKind::Disconnected);
    assert_eq!(e.description, "disconnected");

    // A signal whose giver went away still ends the wait of the driver.
    let (conn, signal) = connection(b"", Side::Server);
    drop(conn);
    let lost = signal.wait().map_err(|_| disconnect_signal_lost());
    assert_eq!(lost, Err(Error::disconnected("disconnected".to_string())));
    let mut driver = ExecutionDriver::new();
    driver.writer_finished(Ok(()));
    driver.disconnected();
    assert_eq!(driver.outcome(), Some(Ok(())));
}

#[test]
fn writer_error_waits_for_the_disconnect_signal() {
    let mut driver = ExecutionDriver::new();
    assert_eq!(driver.outcome(), None);
    driver.writer_finished(Err(Error::overloaded("slow".to_string())));
    assert_eq!(driver.outcome(), None);
    driver.disconnected();
    assert_eq!(driver.outcome(), Some(Err(Error::overloaded("slow".to_string()))));
    // Every caller gets the same outcome.
    assert_eq!(driver.outcome(), driver.outcome());
}

#[test]
fn only_the_first_end_of_the_writer_counts() {
    let mut driver = ExecutionDriver::new();
    driver.writer_finished(Ok(()));
    driver.writer_finished(Err(Error::failed("late".to_string())));
    driver.disconnected();
    driver.disconnected();
    assert_eq!(driver.outcome(), Some(Ok(())));
}

#[test]
fn incoming_message_wraps_what_it_is_given() {
    let incoming = IncomingMessage::new(vec![1u8, 2, 3]);
    assert_eq!(incoming.message(), &vec![1u8, 2, 3]);
}

#[test]
fn outgoing_message_can_be_taken_back() {
    let mut outgoing = OutgoingMessage::new(vec![1u8], "channel");
    outgoing.message_mut().push(2);
    assert_eq!(outgoing.message(), &vec![1u8, 2]);
    assert_eq!(outgoing.take(), vec![1u8, 2]);
}

#[test]
fn sent_message_is_shared_and_keeps_its_channel() {
    let mut outgoing = OutgoingMessage::new(String::from("he"), 42u8);
    outgoing.message_mut().push_str("llo");
    let (shared, channel) = outgoing.send();
    assert_eq!(*shared, "hello");
    assert_eq!(channel, 42);
    let copy = shared.clone();
    assert!(Rc::ptr_eq(&shared, &copy));
}

#[test]
fn message_round_trip_over_the_write_queue() {
    let (sender, queue) = capnp_futures::write_queue::<Vec<u8>, Rc<Builder>>(Vec::new());
    let (fulfiller, signal) = futures::sync::oneshot::channel::<()>();
    let mut conn: Connection<&[u8], Channel> =
        Connection::new(&b""[..], sender, Side::Client, options(), fulfiller);
    let mut network: VatNetwork<u8> = VatNetwork::new(0, conn.get_peer_vat_id());

    // Build and send one message.
    let mut outgoing = conn.new_outgoing_message(0, Builder::new_default());
    outgoing
        .message_mut()
        .set_root::<capnp::text::Builder, capnp::text::Reader>("over the wire")
        .unwrap();
    assert_eq!(
        outgoing.message().get_root_as_reader::<capnp::text::Reader>().unwrap(),
        "over the wire"
    );
    let (shared, mut channel) = outgoing.send();
    let written = channel.send(shared.clone());
    drop(channel);

    // Shut the connection down and run the writer to its end.
    let ended = conn.sender().clone().terminate(Ok(()));
    let bytes = queue.wait().expect("the writer ends well after a clean shutdown");
    network.writer_finished(Ok(()));
    assert!(written.wait().is_ok());
    assert!(ended.wait().is_ok());
    assert_eq!(shared.get_root_as_reader::<capnp::text::Reader>().unwrap(), "over the wire");

    // Drop the connection: the signal is given and the drive ends.
    assert_eq!(network.drive_until_shutdown(), None);
    assert!(conn.disconnect());
    assert_eq!(signal.wait(), Ok(()));
    network.disconnected();
    assert_eq!(network.drive_until_shutdown(), Some(Ok(())));

    // The other end reads the message back.
    let (sender2, _queue2) = capnp_futures::write_queue::<Vec<u8>, Rc<Builder>>(Vec::new());
    let (fulfiller2, _signal2) = futures::sync::oneshot::channel::<()>();
    let mut peer: Connection<&[u8], Channel> =
        Connection::new(&bytes[..], sender2, Side::Server, options(), fulfiller2);
    let (stream, limits) = peer.receive_incoming_message().unwrap();
    let (stream, message) = capnp_futures::serialize::read_message(stream, limits).wait().unwrap();
    let incoming = peer.incoming_message_received(stream, message).expect("one message was sent");
    assert_eq!(
        incoming.message().get_root::<capnp::text::Reader>().unwrap(),
        "over the wire"
    );

    // Then the stream ends cleanly.
    let (stream, limits) = peer.receive_incoming_message().unwrap();
    let (stream, message) = capnp_futures::serialize::read_message(stream, limits).wait().unwrap();
    assert!(peer.incoming_message_received(stream, message).is_none());
}

#[test]
fn shutdown_with_an_error_ends_the_drive_with_it() {
    let (sender, queue) = capnp_futures::write_queue::<Vec<u8>, Rc<Builder>>(Vec::new());
    let (fulfiller, _signal) = futures::sync::oneshot::channel::<()>();
    let mut conn: Connection<&[u8], Channel> =
        Connection::new(&b""[..], sender, Side::Server, options(), fulfiller);
    let mut network: VatNetwork<u8> = VatNetwork::new(0, Side::Server);

    let _ended = conn
        .sender()
        .clone()
        .terminate(Err(capnp::Error::disconnected("bye".to_string())));
    let outcome = match queue.wait() {
        Ok(_) => Ok(()),
        Err(e) => Err(Error::disconnected(e.description)),
    };
    network.writer_finished(outcome);
    assert!(conn.disconnect());
    network.disconnected();
    assert_eq!(
        network.drive_until_shutdown(),
        Some(Err(Error::disconnected("bye".to_string())))
    );
}

#[test]
fn new_outgoing_message_gets_its_own_handle_of_the_channel() {
    let (sender, queue) = capnp_futures::write_queue::<Vec<u8>, Rc<Builder>>(Vec::new());
    let (fulfiller, _signal) = futures::sync::oneshot::channel::<()>();
    let conn: Connection<&[u8], Channel> =
        Connection::new(&b""[..], sender, Side::Client, options(), fulfiller);
    let first = conn.new_outgoing_message(16, Builder::new_default());
    let second = conn.new_outgoing_message(0, Builder::new_default());
    // All handles lead to the same queue: it holds what either sent.
    let (m1, mut c1) = first.send();
    let (m2, mut c2) = second.send();
    let _w1 = c1.send(m1);
    let _w2 = c2.send(m2);
    assert_eq!(conn.sender().clone().len(), 2);
    drop(queue);
}

#[test]
fn new_outgoing_message_wraps_the_given_message() {
    let (fulfiller, _signal) = futures::sync::oneshot::channel::<()>();
    let conn: Connection<u8, String> =
        Connection::new(0, "channel".to_string(), Side::Server, options(), fulfiller);
    let outgoing = conn.new_outgoing_message(8, vec![1u8, 2]);
    assert_eq!(outgoing.message(), &vec![1u8, 2]);
    let (shared, channel) = outgoing.send();
    assert_eq!(*shared, vec![1u8, 2]);
    assert_eq!(channel, "channel");
    assert_eq!(conn.sender(), "channel");
}
