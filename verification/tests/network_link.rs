use std::collections::BTreeMap;

use multisnake::grid::{Coord, Direction};
use multisnake::network::{
    link_error, local_endpoint, player, remote_endpoint, Endpoint, Ipv4, LinkError, Network, NetworkMode,
    PollError, RX_BYTES, RX_PACKETS, TX_BYTES, TX_PACKETS,
};
use multisnake::packet::{DecodeError, PeerState};
use smoltcp::iface::{EthernetInterface, EthernetInterfaceBuilder, NeighborCache};
use smoltcp::phy::Loopback;
use smoltcp::socket::{SocketHandle, SocketSet, UdpPacketMetadata, UdpSocket, UdpSocketBuffer};
use smoltcp::time::Instant;
use smoltcp::wire::{EthernetAddress, IpAddress, IpCidr, IpEndpoint};

fn socket() -> UdpSocket<'static, 'static> {
    Network::socket()
}

#[test]
fn sizes_of_the_socket_buffers() {
    assert_eq!((RX_PACKETS, RX_BYTES, TX_PACKETS, TX_BYTES), (3, 256, 1, 128));
    let mut s = socket();
    assert!(!s.is_open());
    assert!(!s.can_recv());
    assert!(s.can_send());
    assert_eq!(s.recv().err(), Some(smoltcp::Error::Exhausted));
    assert_eq!(s.packet_recv_capacity(), 3);
    assert_eq!(s.payload_recv_capacity(), 256);
    assert_eq!(s.packet_send_capacity(), 1);
    assert_eq!(s.payload_send_capacity(), 128);
}

fn state(id: u8, x: u16, y: u16, direction: Direction) -> PeerState {
    PeerState { id, head: Coord { x, y }, direction }
}

/// Two devices on one wire: a loopback interface that owns both addresses, the
/// sockets of both roles in its set.
struct Wire {
    iface: EthernetInterface<'static, 'static, 'static, Loopback>,
    sockets: SocketSet<'static, 'static, 'static>,
    client: SocketHandle,
    server: SocketHandle,
    now: i64,
}

impl Wire {
    fn new(client: UdpSocket<'static, 'static>, server: UdpSocket<'static, 'static>) -> Wire {
        let iface = EthernetInterfaceBuilder::new(Loopback::new())
            .ethernet_addr(EthernetAddress(Network::get_ethernet_addr(NetworkMode::Client)))
            .neighbor_cache(NeighborCache::new(BTreeMap::new()))
            .ip_addrs(vec![
                IpCidr::new(IpAddress::v4(192, 168, 0, 42), 24),
                IpCidr::new(IpAddress::v4(192, 168, 0, 24), 24),
            ])
            .finalize();
        let mut sockets = SocketSet::new(vec![]);
        let client = sockets.add(client);
        let server = sockets.add(server);
        Wire { iface, sockets, client, server, now: 0 }
    }

    fn poll(&mut self) -> Result<bool, smoltcp::Error> {
        self.now += 10;
        self.iface.poll(&mut self.sockets, Instant::from_millis(self.now))
    }

    /// Polls until whatever was queued has been carried over.
    fn settle(&mut self) {
        for _ in 0..8 {
            let _ = self.poll();
        }
    }
}

#[test]
fn endpoints_of_the_roles() {
    let client = Endpoint { addr: Ipv4(192, 168, 0, 42), port: 4242 };
    let server = Endpoint { addr: Ipv4(192, 168, 0, 24), port: 2424 };
    assert_eq!(local_endpoint(NetworkMode::Client), client);
    assert_eq!(local_endpoint(NetworkMode::Server), server);
    assert_eq!(remote_endpoint(NetworkMode::Client), server);
    assert_eq!(remote_endpoint(NetworkMode::Server), client);
}

#[test]
fn ethernet_addresses_of_the_roles() {
    assert_eq!(Network::get_ethernet_addr(NetworkMode::Client), [0x00, 0x08, 0xdc, 0xab, 0xcd, 0xef]);
    assert_eq!(Network::get_ethernet_addr(NetworkMode::Server), [0x00, 0x08, 0xdc, 0xab, 0xcd, 0xf0]);
}

#[test]
fn new_binds_the_socket_to_the_endpoint_of_the_role() {
    let mut s = socket();
    assert!(!s.is_open());
    let network = Network::new(&mut s, NetworkMode::Client).unwrap();
    assert_eq!(network.network_mode(), NetworkMode::Client);
    assert_eq!(network.remote(), None);
    assert_eq!(s.endpoint(), IpEndpoint::new(IpAddress::v4(192, 168, 0, 42), 4242));
    let mut s = socket();
    let network = Network::new(&mut s, NetworkMode::Server).unwrap();
    assert_eq!(network.network_mode(), NetworkMode::Server);
    assert_eq!(s.endpoint(), IpEndpoint::new(IpAddress::v4(192, 168, 0, 24), 2424));
}

#[test]
fn new_refuses_a_socket_that_is_bound() {
    let mut s = socket();
    s.bind(IpEndpoint::new(IpAddress::v4(10, 0, 0, 1), 7)).unwrap();
    assert_eq!(Network::new(&mut s, NetworkMode::Client).err(), Some(LinkError::Illegal));
    assert_eq!(s.endpoint(), IpEndpoint::new(IpAddress::v4(10, 0, 0, 1), 7));
    let mut s = socket();
    assert!(Network::new(&mut s, NetworkMode::Client).is_ok());
    assert_eq!(Network::new(&mut s, NetworkMode::Server).err(), Some(LinkError::Illegal));
    assert_eq!(s.endpoint(), IpEndpoint::new(IpAddress::v4(192, 168, 0, 42), 4242));
}

#[test]
fn operate_without_a_datagram_gives_no_update() {
    let mut s = socket();
    let mut network = Network::new(&mut s, NetworkMode::Client).unwrap();
    assert_eq!(network.operate(&mut s, Ok(true)), Ok(None));
    assert_eq!(network.operate(&mut s, Ok(false)), Ok(None));
    assert_eq!(network.operate(&mut s, Err(smoltcp::Error::Exhausted)), Ok(None));
    assert_eq!(network.remote(), None);
}

#[test]
fn operate_passes_the_errors_of_the_link_on() {
    let mut s = socket();
    let mut network = Network::new(&mut s, NetworkMode::Client).unwrap();
    assert_eq!(
        network.operate(&mut s, Err(smoltcp::Error::Unrecognized)),
        Err(PollError::Link(LinkError::Unrecognized))
    );
    assert_eq!(
        network.operate(&mut s, Err(smoltcp::Error::Checksum)),
        Err(PollError::Link(LinkError::Checksum))
    );
    assert_eq!(
        network.operate(&mut s, Err(smoltcp::Error::Unaddressable)),
        Err(PollError::Link(LinkError::Unaddressable))
    );
    assert_eq!(network.remote(), None);
}

#[test]
fn names_of_the_link_errors() {
    assert_eq!(link_error(smoltcp::Error::Exhausted), LinkError::Exhausted);
    assert_eq!(link_error(smoltcp::Error::Illegal), LinkError::Illegal);
    assert_eq!(link_error(smoltcp::Error::Unaddressable), LinkError::Unaddressable);
    assert_eq!(link_error(smoltcp::Error::Truncated), LinkError::Truncated);
    assert_eq!(link_error(smoltcp::Error::Checksum), LinkError::Checksum);
    assert_eq!(link_error(smoltcp::Error::Unrecognized), LinkError::Unrecognized);
    assert_eq!(link_error(smoltcp::Error::Fragmented), LinkError::Fragmented);
    assert_eq!(link_error(smoltcp::Error::Malformed), LinkError::Malformed);
    assert_eq!(link_error(smoltcp::Error::Dropped), LinkError::Dropped);
    assert_eq!(link_error(smoltcp::Error::__Nonexhaustive), LinkError::Unknown);
}

#[test]
fn reconcile_reads_what_was_taken() {
    assert_eq!(Network::reconcile(Ok(None)), Ok(None));
    assert_eq!(
        Network::reconcile(Ok(Some(vec![1, 5, 0, 5, 0, 2]))),
        Ok(Some(state(1, 5, 5, Direction::Left)))
    );
    assert_eq!(
        Network::reconcile(Ok(Some(vec![1, 5, 0]))),
        Err(PollError::Packet(DecodeError::BadLength))
    );
    assert_eq!(
        Network::reconcile(Ok(Some(vec![1, 5, 0, 5, 0, 9]))),
        Err(PollError::Packet(DecodeError::BadDirection))
    );
    assert_eq!(
        Network::reconcile(Err(LinkError::Dropped)),
        Err(PollError::Link(LinkError::Dropped))
    );
}

#[test]
fn publish_on_a_socket_that_is_not_bound_is_refused() {
    let mut bound = socket();
    let mut network = Network::new(&mut bound, NetworkMode::Server).unwrap();
    let mut fresh = socket();
    assert_eq!(
        network.publish(&mut fresh, &state(1, 5, 5, Direction::Left)),
        Err(LinkError::Unaddressable)
    );
    assert!(fresh.can_send());
}

#[test]
fn publish_queues_one_datagram_and_does_not_wait() {
    let mut s = socket();
    let mut network = Network::new(&mut s, NetworkMode::Server).unwrap();
    assert!(s.can_send());
    assert_eq!(network.local(), None);
    assert_eq!(network.publish(&mut s, &state(1, 5, 5, Direction::Left)), Ok(()));
    assert_eq!(network.local(), Some(state(1, 5, 5, Direction::Left)));
    // the send buffer has room for one datagram
    assert!(!s.can_send());
    assert_eq!(network.publish(&mut s, &state(1, 6, 5, Direction::Left)), Err(LinkError::Exhausted));
    assert_eq!(network.local(), Some(state(1, 6, 5, Direction::Left)));
    assert_eq!(network.remote(), None);
    assert!(!s.can_recv());
}

#[test]
fn a_fresh_link_takes_one_state_to_publish() {
    for mode in [NetworkMode::Client, NetworkMode::Server] {
        let mut s = Network::socket();
        let mut network = Network::new(&mut s, mode).unwrap();
        assert_eq!(network.publish(&mut s, &state(9, 65535, 65535, Direction::Right)), Ok(()));
    }
}

fn socket_with_send_buffer(slots: usize, bytes: usize) -> UdpSocket<'static, 'static> {
    let rx = UdpSocketBuffer::new(vec![UdpPacketMetadata::EMPTY; RX_PACKETS], vec![0u8; RX_BYTES]);
    let tx = UdpSocketBuffer::new(vec![UdpPacketMetadata::EMPTY; slots], vec![0u8; bytes]);
    UdpSocket::new(rx, tx)
}

#[test]
fn publish_through_a_send_buffer_that_cannot_wrap_is_refused() {
    // two slots and fewer bytes than two datagrams
    for bytes in [6usize, 8, 11] {
        let mut s = socket_with_send_buffer(2, bytes);
        let mut network = Network::new(&mut s, NetworkMode::Server).unwrap();
        let sent = state(1, 5, 5, Direction::Left);
        assert_eq!(network.publish(&mut s, &sent), Err(LinkError::Unfit));
        assert_eq!(network.local(), Some(sent));
        assert!(s.can_send());
    }
    // not bound as well: the buffer is looked at first
    let mut s = socket_with_send_buffer(3, 8);
    let mut bound = socket();
    let mut network = Network::new(&mut bound, NetworkMode::Server).unwrap();
    assert_eq!(network.publish(&mut s, &state(1, 5, 5, Direction::Left)), Err(LinkError::Unfit));
}

#[test]
fn publish_through_a_send_buffer_of_two_datagrams_wraps() {
    let mut client_socket = socket();
    let mut server_socket = socket_with_send_buffer(2, 12);
    let mut client = Network::new(&mut client_socket, NetworkMode::Client).unwrap();
    let mut server = Network::new(&mut server_socket, NetworkMode::Server).unwrap();
    let mut wire = Wire::new(client_socket, server_socket);
    let mut heard = 0;
    for round in 0..40u16 {
        let sent = state(1, round, 2 * round, Direction::Up);
        let r = server.publish(&mut wire.sockets.get::<UdpSocket>(wire.server), &sent);
        assert!(r == Ok(()) || r == Err(LinkError::Exhausted));
        wire.settle();
        let got = client.operate(&mut wire.sockets.get::<UdpSocket>(wire.client), Ok(true));
        if r.is_ok() {
            assert_eq!(got, Ok(Some(sent)));
            heard += 1;
        } else {
            assert_eq!(got, Ok(None));
        }
    }
    assert!(heard >= 20);
}

#[test]
fn the_socket_of_the_link_carries_state_after_state() {
    let mut client_socket = socket();
    let mut server_socket = socket();
    let mut client = Network::new(&mut client_socket, NetworkMode::Client).unwrap();
    let mut server = Network::new(&mut server_socket, NetworkMode::Server).unwrap();
    let mut wire = Wire::new(client_socket, server_socket);
    let mut heard = 0;
    for round in 0..100u16 {
        let sent = state(1, round, 3 * round, Direction::Right);
        let r = server.publish(&mut wire.sockets.get::<UdpSocket>(wire.server), &sent);
        assert!(r == Ok(()) || r == Err(LinkError::Exhausted));
        wire.settle();
        let got = client.operate(&mut wire.sockets.get::<UdpSocket>(wire.client), Ok(true));
        if r.is_ok() {
            assert_eq!(got, Ok(Some(sent)));
            assert_eq!(client.remote(), Some(sent));
            heard += 1;
        } else {
            assert_eq!(got, Ok(None));
        }
    }
    assert!(heard >= 90);
}

#[test]
fn poll_socket_hands_out_the_bytes_of_the_state() {
    let mut client_socket = socket();
    let mut server_socket = socket();
    let _client = Network::new(&mut client_socket, NetworkMode::Client).unwrap();
    let mut server = Network::new(&mut server_socket, NetworkMode::Server).unwrap();
    let mut wire = Wire::new(client_socket, server_socket);
    assert_eq!(Network::poll_socket(&mut wire.sockets.get::<UdpSocket>(wire.client), 4242), Ok(None));
    let sent = state(200, 47, 26, Direction::Down);
    assert_eq!(server.publish(&mut wire.sockets.get::<UdpSocket>(wire.server), &sent), Ok(()));
    wire.settle();
    // another port than the socket's: nothing is taken
    assert_eq!(Network::poll_socket(&mut wire.sockets.get::<UdpSocket>(wire.client), 2424), Ok(None));
    let taken = Network::poll_socket(&mut wire.sockets.get::<UdpSocket>(wire.client), 4242);
    assert_eq!(taken, Ok(Some(vec![200, 47, 0, 26, 0, 1])));
    assert_eq!(taken.clone().unwrap().unwrap().len(), 6);
    assert_eq!(Network::reconcile(taken), Ok(Some(sent)));
    assert_eq!(Network::poll_socket(&mut wire.sockets.get::<UdpSocket>(wire.client), 4242), Ok(None));
}

#[test]
fn every_error_that_a_poll_returns_is_worth_logging() {
    let mut s = socket();
    let mut network = Network::new(&mut s, NetworkMode::Client).unwrap();
    let faults = [
        smoltcp::Error::Illegal,
        smoltcp::Error::Unaddressable,
        smoltcp::Error::Truncated,
        smoltcp::Error::Checksum,
        smoltcp::Error::Unrecognized,
        smoltcp::Error::Fragmented,
        smoltcp::Error::Malformed,
        smoltcp::Error::Dropped,
    ];
    for fault in faults {
        let e = network.operate(&mut s, Err(fault)).unwrap_err();
        assert_eq!(e, PollError::Link(link_error(fault)));
        assert!(e.worth_logging());
        assert_eq!(network.remote(), None);
    }
    assert_eq!(network.operate(&mut s, Err(smoltcp::Error::Exhausted)), Ok(None));
    assert!(PollError::Packet(DecodeError::BadLength).worth_logging());
}

#[test]
fn players_of_the_roles_differ() {
    assert_eq!(player(NetworkMode::Client), 1);
    assert_eq!(player(NetworkMode::Server), 2);
}

#[test]
fn every_error_but_exhausted_is_worth_logging() {
    assert!(!PollError::Link(LinkError::Exhausted).worth_logging());
    assert!(PollError::Link(LinkError::Unrecognized).worth_logging());
    assert!(PollError::Link(LinkError::Illegal).worth_logging());
    assert!(PollError::Link(LinkError::Unaddressable).worth_logging());
    assert!(PollError::Link(LinkError::Truncated).worth_logging());
    assert!(PollError::Link(LinkError::Fragmented).worth_logging());
    assert!(PollError::Link(LinkError::Dropped).worth_logging());
    assert!(PollError::Link(LinkError::Unfit).worth_logging());
    assert!(PollError::Link(LinkError::Checksum).worth_logging());
    assert!(PollError::Link(LinkError::Malformed).worth_logging());
    assert!(PollError::Link(LinkError::Unknown).worth_logging());
    assert!(PollError::Packet(DecodeError::BadLength).worth_logging());
    assert!(PollError::Packet(DecodeError::BadDirection).worth_logging());
}

#[test]
fn publish_into_a_send_buffer_that_is_too_small_is_refused() {
    let rx = UdpSocketBuffer::new(vec![UdpPacketMetadata::EMPTY; 3], vec![0u8; 256]);
    let tx = UdpSocketBuffer::new(vec![UdpPacketMetadata::EMPTY; 1], vec![0u8; 5]);
    let mut s = UdpSocket::new(rx, tx);
    let mut network = Network::new(&mut s, NetworkMode::Client).unwrap();
    assert_eq!(network.publish(&mut s, &state(1, 5, 5, Direction::Left)), Err(LinkError::Truncated));
    assert!(s.can_send());
}

#[test]
fn peer_state_crosses_the_link() {
    let mut client_socket = socket();
    let mut server_socket = socket();
    let mut client = Network::new(&mut client_socket, NetworkMode::Client).unwrap();
    let mut server = Network::new(&mut server_socket, NetworkMode::Server).unwrap();
    let mut wire = Wire::new(client_socket, server_socket);

    let polled = wire.poll();
    assert_eq!(client.operate(&mut wire.sockets.get::<UdpSocket>(wire.client), polled), Ok(None));
    assert_eq!(client.remote(), None);

    let sent = state(1, 5, 5, Direction::Left);
    assert_eq!(server.publish(&mut wire.sockets.get::<UdpSocket>(wire.server), &sent), Ok(()));
    wire.settle();
    let polled = wire.poll();
    assert!(polled.is_ok());
    assert_eq!(
        client.operate(&mut wire.sockets.get::<UdpSocket>(wire.client), polled),
        Ok(Some(sent))
    );
    assert_eq!(client.remote(), Some(sent));

    // the datagram was taken: the next poll has nothing, and the state stays
    let polled = wire.poll();
    assert_eq!(client.operate(&mut wire.sockets.get::<UdpSocket>(wire.client), polled), Ok(None));
    assert_eq!(client.remote(), Some(sent));
}

#[test]
fn both_roles_hear_each_other() {
    let mut client_socket = socket();
    let mut server_socket = socket();
    let mut client = Network::new(&mut client_socket, NetworkMode::Client).unwrap();
    let mut server = Network::new(&mut server_socket, NetworkMode::Server).unwrap();
    let mut wire = Wire::new(client_socket, server_socket);
    let from_client = state(2, 47, 26, Direction::Up);
    let from_server = state(1, 0, 300, Direction::Down);
    assert_eq!(client.publish(&mut wire.sockets.get::<UdpSocket>(wire.client), &from_client), Ok(()));
    assert_eq!(server.publish(&mut wire.sockets.get::<UdpSocket>(wire.server), &from_server), Ok(()));
    wire.settle();
    assert_eq!(
        server.operate(&mut wire.sockets.get::<UdpSocket>(wire.server), Ok(true)),
        Ok(Some(from_client))
    );
    assert_eq!(
        client.operate(&mut wire.sockets.get::<UdpSocket>(wire.client), Ok(true)),
        Ok(Some(from_server))
    );
}

#[test]
fn datagrams_are_read_oldest_first_and_the_latest_state_stays() {
    let mut client_socket = socket();
    let mut server_socket = socket();
    let mut client = Network::new(&mut client_socket, NetworkMode::Client).unwrap();
    let mut server = Network::new(&mut server_socket, NetworkMode::Server).unwrap();
    let mut wire = Wire::new(client_socket, server_socket);
    let first = state(1, 5, 5, Direction::Left);
    let second = state(1, 4, 5, Direction::Left);
    assert_eq!(server.publish(&mut wire.sockets.get::<UdpSocket>(wire.server), &first), Ok(()));
    wire.settle();
    assert_eq!(server.publish(&mut wire.sockets.get::<UdpSocket>(wire.server), &second), Ok(()));
    wire.settle();
    // the link has nothing new to report, and the datagrams are still handed out
    assert_eq!(
        client.operate(&mut wire.sockets.get::<UdpSocket>(wire.client), Ok(false)),
        Ok(Some(first))
    );
    assert_eq!(client.remote(), Some(first));
    assert_eq!(
        client.operate(&mut wire.sockets.get::<UdpSocket>(wire.client), Ok(false)),
        Ok(Some(second))
    );
    assert_eq!(client.remote(), Some(second));
    assert_eq!(client.operate(&mut wire.sockets.get::<UdpSocket>(wire.client), Ok(false)), Ok(None));
    assert_eq!(client.remote(), Some(second));
}

#[test]
fn an_error_of_the_link_leaves_the_datagram_in_the_socket() {
    let mut client_socket = socket();
    let mut server_socket = socket();
    let mut client = Network::new(&mut client_socket, NetworkMode::Client).unwrap();
    let mut server = Network::new(&mut server_socket, NetworkMode::Server).unwrap();
    let mut wire = Wire::new(client_socket, server_socket);
    let sent = state(1, 5, 5, Direction::Left);
    assert_eq!(server.publish(&mut wire.sockets.get::<UdpSocket>(wire.server), &sent), Ok(()));
    wire.settle();
    assert_eq!(
        client.operate(&mut wire.sockets.get::<UdpSocket>(wire.client), Err(smoltcp::Error::Exhausted)),
        Ok(None)
    );
    assert_eq!(
        client.operate(&mut wire.sockets.get::<UdpSocket>(wire.client), Err(smoltcp::Error::Malformed)),
        Err(PollError::Link(LinkError::Malformed))
    );
    assert_eq!(client.remote(), None);
    assert!(wire.sockets.get::<UdpSocket>(wire.client).can_recv());
    assert_eq!(
        client.operate(&mut wire.sockets.get::<UdpSocket>(wire.client), Ok(true)),
        Ok(Some(sent))
    );
}

#[test]
fn a_datagram_that_cannot_be_read_is_an_error_and_is_taken() {
    let mut client_socket = socket();
    let mut other = socket();
    let mut client = Network::new(&mut client_socket, NetworkMode::Client).unwrap();
    other.bind(IpEndpoint::new(IpAddress::v4(192, 168, 0, 24), 2424)).unwrap();
    let mut wire = Wire::new(client_socket, other);
    let to_client = IpEndpoint::new(IpAddress::v4(192, 168, 0, 42), 4242);
    wire.sockets.get::<UdpSocket>(wire.server).send_slice(&[1, 5, 0], to_client).unwrap();
    wire.settle();
    assert_eq!(
        client.operate(&mut wire.sockets.get::<UdpSocket>(wire.client), Ok(true)),
        Err(PollError::Packet(DecodeError::BadLength))
    );
    assert_eq!(client.remote(), None);
    wire.sockets.get::<UdpSocket>(wire.server).send_slice(&[1, 5, 0, 5, 0, 4], to_client).unwrap();
    wire.settle();
    assert_eq!(
        client.operate(&mut wire.sockets.get::<UdpSocket>(wire.client), Ok(true)),
        Err(PollError::Packet(DecodeError::BadDirection))
    );
    assert_eq!(client.remote(), None);
    assert_eq!(client.operate(&mut wire.sockets.get::<UdpSocket>(wire.client), Ok(true)), Ok(None));
}

#[test]
fn a_socket_on_another_port_is_left_alone() {
    // the link of a server is handed the socket of the client
    let mut client_socket = socket();
    let mut server_socket = socket();
    let _client = Network::new(&mut client_socket, NetworkMode::Client).unwrap();
    let mut server = Network::new(&mut server_socket, NetworkMode::Server).unwrap();
    let mut wire = Wire::new(client_socket, server_socket);
    let sent = state(1, 5, 5, Direction::Left);
    assert_eq!(server.publish(&mut wire.sockets.get::<UdpSocket>(wire.server), &sent), Ok(()));
    wire.settle();
    assert!(wire.sockets.get::<UdpSocket>(wire.client).can_recv());
    assert_eq!(server.operate(&mut wire.sockets.get::<UdpSocket>(wire.client), Ok(true)), Ok(None));
    assert!(wire.sockets.get::<UdpSocket>(wire.client).can_recv());
    assert_eq!(server.remote(), None);
}
