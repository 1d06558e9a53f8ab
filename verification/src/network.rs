//! The link to the peer: one UDP socket of `smoltcp`, bound to the endpoint of
//! this device's role, over which the two players tell each other where their
//! heads are.
//!
//! The socket lives in the socket set that the network interface polls, so the
//! functions here borrow it for each call.

use vstd::prelude::*;
use smoltcp::socket::{UdpPacketMetadata, UdpSocket, UdpSocketBuffer};
use smoltcp::wire::{IpAddress, IpEndpoint};
use crate::packet::{
    decode, decode_spec, encode, encode_spec, lemma_round_trip, DecodeError, PeerState,
    PACKET_LEN,
};

verus! {

/// Number of datagrams that the receive buffer of the socket is made for.
pub const RX_PACKETS: usize = 3;

/// Number of bytes that the receive buffer of the socket is made for.
pub const RX_BYTES: usize = 256;

/// Number of datagrams that the send buffer of the socket is made for.
pub const TX_PACKETS: usize = 1;

/// Number of bytes that the send buffer of the socket is made for.
pub const TX_BYTES: usize = 128;

/// Operate as either client or server.
#[derive(Clone, Copy, Debug, PartialEq, Eq, Structural)]
pub enum NetworkMode {
    /// The device at 192.168.0.42, port 4242.
    Client,
    /// The device at 192.168.0.24, port 2424.
    Server,
}

/// An IPv4 address, byte by byte.
#[derive(Clone, Copy, Debug, PartialEq, Eq, Structural)]
pub struct Ipv4(pub u8, pub u8, pub u8, pub u8);

/// An IPv4 address with a UDP port.
#[derive(Clone, Copy, Debug, PartialEq, Eq, Structural)]
pub struct Endpoint {
    pub addr: Ipv4,
    pub port: u16,
}

/// What went wrong on the link, after the errors of `smoltcp`.
#[derive(Clone, Copy, Debug, PartialEq, Eq, Structural)]
pub enum LinkError {
    /// A buffer is empty or full.
    Exhausted,
    /// The socket does not allow this in its state.
    Illegal,
    /// An endpoint is not given, or cannot be reached.
    Unaddressable,
    /// A packet does not fit, or ends too early.
    Truncated,
    /// A packet came with a wrong checksum.
    Checksum,
    /// A packet of a kind that the stack does not know.
    Unrecognized,
    /// A packet came in fragments.
    Fragmented,
    /// A packet contradicts itself.
    Malformed,
    /// A packet contradicts the state of the stack.
    Dropped,
    /// An error that this library has no name for.
    Unknown,
    /// The send buffer of the socket has several slots and fewer bytes than
    /// two datagrams: `smoltcp` cannot lead a datagram round the end of such
    /// a buffer, so this library sends nothing through it.
    Unfit,
}

/// Why a poll of the link gave no state of the peer.
#[derive(Clone, Copy, Debug, PartialEq, Eq, Structural)]
pub enum PollError {
    /// The link reported an error.
    Link(LinkError),
    /// A datagram came and could not be read.
    Packet(DecodeError),
}

/// The state of the link: the role of this device, the state that it last
/// published and the state that the peer last sent.
pub struct LinkView {
    pub mode: NetworkMode,
    pub local: Option<PeerState>,
    pub remote: Option<PeerState>,
}

/// The link to the peer.
pub struct Network {
    network_mode: NetworkMode,
    local: Option<PeerState>,
    remote: Option<PeerState>,
}

/// `smoltcp::socket::UdpSocket`: a socket with a buffer of received datagrams
/// and a buffer of datagrams to send. Nothing of its inside is known here.
#[verifier::external_type_specification]
#[verifier::external_body]
pub struct ExUdpSocket<'a, 'b>(smoltcp::socket::UdpSocket<'a, 'b>);

/// `smoltcp::Error`, with its variants, which have no fields.
#[verifier::external_type_specification]
pub struct ExError(smoltcp::Error);

/// The endpoint that the socket is bound to, as `UdpSocket::endpoint` returns
/// it. A socket that is not bound has port 0.
pub uninterp spec fn udp_endpoint(socket: &UdpSocket<'static, 'static>) -> Endpoint;

/// The payloads of the datagrams that the socket has received and not yet
/// handed out, oldest first.
pub uninterp spec fn udp_received(socket: &UdpSocket<'static, 'static>) -> Seq<Seq<u8>>;

/// The datagrams that the socket holds for sending, oldest first, each with
/// its payload and the endpoint it goes to.
pub uninterp spec fn udp_queued(socket: &UdpSocket<'static, 'static>) -> Seq<(Seq<u8>, Endpoint)>;

/// Whether `PacketBuffer::enqueue` finds room in the send buffer of the socket
/// for one more datagram of `len` bytes.
pub uninterp spec fn udp_has_room(socket: &UdpSocket<'static, 'static>, len: nat) -> bool;

/// The number of datagrams that the send buffer of the socket was made for,
/// as `UdpSocket::packet_send_capacity` returns it.
pub uninterp spec fn udp_send_slots(socket: &UdpSocket<'static, 'static>) -> nat;

/// The number of bytes that the send buffer of the socket was made for, as
/// `UdpSocket::payload_send_capacity` returns it.
pub uninterp spec fn udp_send_bytes(socket: &UdpSocket<'static, 'static>) -> nat;

/// Whether `smoltcp` can send datagrams of `len` bytes through a send buffer
/// that was made for `slots` datagrams in `bytes` bytes. Where a datagram
/// does not fit before the end of the buffer, `PacketBuffer::enqueue` fills
/// the end with padding and starts again at the front; in an empty buffer the
/// padding itself lands at the front, and the datagram then needs its own
/// length once more behind it. A buffer made for one datagram at most never
/// gets that far, since the padding takes its one slot.
pub open spec fn send_fits(slots: nat, bytes: nat, len: nat) -> bool {
    slots <= 1 || 2 * len <= bytes
}

/// Whether the send buffer of `after` was made for what that of `before` was
/// made for.
pub open spec fn send_made_alike(
    before: &UdpSocket<'static, 'static>,
    after: &UdpSocket<'static, 'static>,
) -> bool {
    udp_send_slots(after) == udp_send_slots(before) && udp_send_bytes(after) == udp_send_bytes(
        before,
    )
}

/// Whether the send buffer of `after` is that of `before`: made for as much,
/// holding the same datagrams, and with room for the same.
pub open spec fn send_side_kept(
    before: &UdpSocket<'static, 'static>,
    after: &UdpSocket<'static, 'static>,
) -> bool {
    &&& send_made_alike(before, after)
    &&& udp_queued(after) == udp_queued(before)
    &&& forall|len: nat| #[trigger] udp_has_room(after, len) == udp_has_room(before, len)
}

/// Whether a socket that is bound to `local` can send to `remote` at all: the
/// socket is bound, and `remote` has a port and an address whose first byte
/// is not 0.
pub open spec fn can_send(local: Endpoint, remote: Endpoint) -> bool {
    local.port != 0 && remote.port != 0 && remote.addr.0 != 0
}

/// Calls `UdpSocket::new` with a receive buffer for `rx_packets` datagrams in
/// `rx_bytes` bytes and a send buffer for `tx_packets` datagrams in `tx_bytes`
/// bytes. As its source shows, the socket is not bound and its buffers are
/// empty; and as `PacketBuffer::enqueue` shows, an empty send buffer has room
/// for a datagram exactly if it was made for one datagram at least and for as
/// many bytes as the datagram has.
#[verifier::external_body]
fn udp_socket(
    rx_packets: usize,
    rx_bytes: usize,
    tx_packets: usize,
    tx_bytes: usize,
) -> (socket: UdpSocket<'static, 'static>)
    requires
        rx_packets <= 0xffff,
        rx_bytes <= 0xffff,
        tx_packets <= 0xffff,
        tx_bytes <= 0xffff,
    ensures
        udp_endpoint(&socket).port == 0,
        udp_received(&socket).len() == 0,
        udp_queued(&socket).len() == 0,
        udp_send_slots(&socket) == tx_packets,
        udp_send_bytes(&socket) == tx_bytes,
        forall|len: nat| #[trigger]
            udp_has_room(&socket, len) == (tx_packets > 0 && len <= tx_bytes),
{
    let rx = UdpSocketBuffer::new(vec![UdpPacketMetadata::EMPTY; rx_packets], vec![0u8; rx_bytes]);
    let tx = UdpSocketBuffer::new(vec![UdpPacketMetadata::EMPTY; tx_packets], vec![0u8; tx_bytes]);
    UdpSocket::new(rx, tx)
}

/// Calls `UdpSocket::endpoint` and picks the port. It is the port of
/// `udp_endpoint`.
#[verifier::external_body]
fn udp_port(socket: &UdpSocket<'static, 'static>) -> (port: u16)
    ensures
        port == udp_endpoint(socket).port,
{
    socket.endpoint().port
}

/// Calls `UdpSocket::packet_send_capacity`: the number of datagrams that the
/// send buffer was made for.
#[verifier::external_body]
fn udp_slots(socket: &UdpSocket<'static, 'static>) -> (slots: usize)
    ensures
        slots == udp_send_slots(socket),
{
    socket.packet_send_capacity()
}

/// Calls `UdpSocket::payload_send_capacity`: the number of bytes that the
/// send buffer was made for.
#[verifier::external_body]
fn udp_bytes(socket: &UdpSocket<'static, 'static>) -> (bytes: usize)
    ensures
        bytes == udp_send_bytes(socket),
{
    socket.payload_send_capacity()
}

/// Calls `UdpSocket::bind` with an IPv4 endpoint. As its source shows, it refuses
/// port 0 with `Unaddressable`, then a socket that is bound already with
/// `Illegal`, and else makes the endpoint that of the socket; the buffers are
/// not touched.
#[verifier::external_body]
fn udp_bind(
    socket: &mut UdpSocket<'static, 'static>,
    endpoint: Endpoint,
) -> (r: Result<(), smoltcp::Error>)
    ensures
        r == (if endpoint.port == 0 {
            Err::<(), smoltcp::Error>(smoltcp::Error::Unaddressable)
        } else if udp_endpoint(old(socket)).port != 0 {
            Err::<(), smoltcp::Error>(smoltcp::Error::Illegal)
        } else {
            Ok::<(), smoltcp::Error>(())
        }),
        udp_endpoint(final(socket)) == (if r is Ok {
            endpoint
        } else {
            udp_endpoint(old(socket))
        }),
        udp_received(final(socket)) == udp_received(old(socket)),
        send_side_kept(old(socket), final(socket)),
{
    let Ipv4(a, b, c, d) = endpoint.addr;
    socket.bind(IpEndpoint::new(IpAddress::v4(a, b, c, d), endpoint.port))
}

/// Calls `UdpSocket::recv` and copies the payload. As its source shows, it
/// takes the oldest datagram out of the receive buffer and hands out its
/// payload, and fails with `Exhausted`, changing nothing, exactly if that
/// buffer holds none. The send buffer is not touched.
#[verifier::external_body]
fn udp_recv(socket: &mut UdpSocket<'static, 'static>) -> (r: Result<Vec<u8>, smoltcp::Error>)
    ensures
        match r {
            Ok(payload) => udp_received(old(socket)).len() > 0 && payload@ == udp_received(
                old(socket),
            )[0] && udp_received(final(socket)) == udp_received(old(socket)).skip(1),
            Err(fault) => udp_received(old(socket)).len() == 0 && fault
                == smoltcp::Error::Exhausted && udp_received(final(socket)) == udp_received(
                old(socket),
            ),
        },
        udp_endpoint(final(socket)) == udp_endpoint(old(socket)),
        send_side_kept(old(socket), final(socket)),
{
    match socket.recv() {
        Ok((payload, _)) => Ok(payload.to_vec()),
        Err(fault) => Err(fault),
    }
}

/// Calls `UdpSocket::send_slice` with an IPv4 endpoint, on a send buffer that
/// `send_fits` admits for the payload; on another, the call can run over the
/// end of the buffer and panic. As its source shows, it fails with
/// `Unaddressable` where the socket is not bound or the endpoint has port 0
/// or an address whose first byte is 0, else with `Truncated` where the
/// buffer was made for fewer bytes than the payload has, and else with
/// `Exhausted` where the buffer has no room. Where it succeeds, the datagram
/// is the newest in the send buffer, and a buffer that was made for one
/// datagram has no room left; where it fails, the buffer holds what it held.
#[verifier::external_body]
fn udp_send(
    socket: &mut UdpSocket<'static, 'static>,
    payload: &[u8],
    endpoint: Endpoint,
) -> (r: Result<(), smoltcp::Error>)
    requires
        send_fits(udp_send_slots(old(socket)), udp_send_bytes(old(socket)), payload@.len()),
    ensures
        match r {
            Ok(_) => can_send(udp_endpoint(old(socket)), endpoint) && payload@.len()
                <= udp_send_bytes(old(socket)) && udp_has_room(old(socket), payload@.len()),
            Err(fault) => if !can_send(udp_endpoint(old(socket)), endpoint) {
                fault == smoltcp::Error::Unaddressable
            } else if udp_send_bytes(old(socket)) < payload@.len() {
                !udp_has_room(old(socket), payload@.len()) && fault == smoltcp::Error::Truncated
            } else {
                !udp_has_room(old(socket), payload@.len()) && fault == smoltcp::Error::Exhausted
            },
        },
        udp_queued(final(socket)) == (if r is Ok {
            udp_queued(old(socket)).push((payload@, endpoint))
        } else {
            udp_queued(old(socket))
        }),
        r is Ok && udp_send_slots(old(socket)) == 1 ==> forall|len: nat|
            !#[trigger] udp_has_room(final(socket), len),
        send_made_alike(old(socket), final(socket)),
        udp_endpoint(final(socket)) == udp_endpoint(old(socket)),
        udp_received(final(socket)) == udp_received(old(socket)),
{
    let Ipv4(a, b, c, d) = endpoint.addr;
    socket.send_slice(payload, IpEndpoint::new(IpAddress::v4(a, b, c, d), endpoint.port))
}

/// The endpoint that a device of role `mode` binds its socket to.
pub open spec fn local_endpoint_spec(mode: NetworkMode) -> Endpoint {
    match mode {
        NetworkMode::Client => Endpoint { addr: Ipv4(192, 168, 0, 42), port: 4242 },
        NetworkMode::Server => Endpoint { addr: Ipv4(192, 168, 0, 24), port: 2424 },
    }
}

/// The number under which a device of role `mode` plays: 1 for the client and
/// 2 for the server, so that the two players of a link differ.
pub open spec fn player_spec(mode: NetworkMode) -> u8 {
    match mode {
        NetworkMode::Client => 1,
        NetworkMode::Server => 2,
    }
}

/// The endpoint that a device of role `mode` sends to: the one that the device
/// of the other role binds its socket to.
pub open spec fn remote_endpoint_spec(mode: NetworkMode) -> Endpoint {
    match mode {
        NetworkMode::Client => local_endpoint_spec(NetworkMode::Server),
        NetworkMode::Server => local_endpoint_spec(NetworkMode::Client),
    }
}

/// This library's name for an error of `smoltcp`.
pub open spec fn link_error_of(fault: smoltcp::Error) -> LinkError {
    match fault {
        smoltcp::Error::Exhausted => LinkError::Exhausted,
        smoltcp::Error::Illegal => LinkError::Illegal,
        smoltcp::Error::Unaddressable => LinkError::Unaddressable,
        smoltcp::Error::Truncated => LinkError::Truncated,
        smoltcp::Error::Checksum => LinkError::Checksum,
        smoltcp::Error::Unrecognized => LinkError::Unrecognized,
        smoltcp::Error::Fragmented => LinkError::Fragmented,
        smoltcp::Error::Malformed => LinkError::Malformed,
        smoltcp::Error::Dropped => LinkError::Dropped,
        _ => LinkError::Unknown,
    }
}

/// What publishing a state gives on a socket whose send buffer was made for
/// `slots` datagrams in `bytes` bytes, that is bound to `port` (0 where it is
/// not bound) and whose send buffer has room for a datagram or not.
pub open spec fn publish_outcome(slots: nat, bytes: nat, port: u16, room: bool) -> Result<
    (),
    LinkError,
> {
    if !send_fits(slots, bytes, PACKET_LEN as nat) {
        Err(LinkError::Unfit)
    } else if port == 0 {
        Err(LinkError::Unaddressable)
    } else if bytes < PACKET_LEN {
        Err(LinkError::Truncated)
    } else if !room {
        Err(LinkError::Exhausted)
    } else {
        Ok(())
    }
}

/// What reading the socket gives after the link reported `link`: nothing
/// where the link had nothing to do, where the socket is bound to another port
/// than `port` or where it holds no datagram, and else the payload of its
/// oldest datagram. Any other error of the link is passed on.
pub open spec fn socket_outcome(
    link: Result<bool, smoltcp::Error>,
    port: u16,
    bound: u16,
    received: Seq<Seq<u8>>,
) -> Result<Option<Seq<u8>>, LinkError> {
    match link {
        Err(smoltcp::Error::Exhausted) => Ok(None),
        Err(fault) => Err(link_error_of(fault)),
        Ok(_) => if bound == port && received.len() > 0 {
            Ok(Some(received[0]))
        } else {
            Ok(None)
        },
    }
}

/// What a poll gives: the state that the payload taken from the socket
/// carries, nothing where none was taken, and an error where the link
/// reported one or the payload cannot be read.
pub open spec fn poll_outcome(taken: Result<Option<Seq<u8>>, LinkError>) -> Result<
    Option<PeerState>,
    PollError,
> {
    match taken {
        Err(e) => Err(PollError::Link(e)),
        Ok(None) => Ok(None),
        Ok(Some(payload)) => match decode_spec(payload) {
            Ok(state) => Ok(Some(state)),
            Err(e) => Err(PollError::Packet(e)),
        },
    }
}

/// The number under which a device of role `mode` plays.
pub fn player(mode: NetworkMode) -> (id: u8)
    ensures
        id == player_spec(mode),
{
    match mode {
        NetworkMode::Client => 1,
        NetworkMode::Server => 2,
    }
}

/// This library's name for an error of `smoltcp`.
pub fn link_error(fault: smoltcp::Error) -> (e: LinkError)
    ensures
        e == link_error_of(fault),
{
    match fault {
        smoltcp::Error::Exhausted => LinkError::Exhausted,
        smoltcp::Error::Illegal => LinkError::Illegal,
        smoltcp::Error::Unaddressable => LinkError::Unaddressable,
        smoltcp::Error::Truncated => LinkError::Truncated,
        smoltcp::Error::Checksum => LinkError::Checksum,
        smoltcp::Error::Unrecognized => LinkError::Unrecognized,
        smoltcp::Error::Fragmented => LinkError::Fragmented,
        smoltcp::Error::Malformed => LinkError::Malformed,
        smoltcp::Error::Dropped => LinkError::Dropped,
        _ => LinkError::Unknown,
    }
}

/// The endpoint that a device of role `mode` binds its socket to.
pub fn local_endpoint(mode: NetworkMode) -> (endpoint: Endpoint)
    ensures
        endpoint == local_endpoint_spec(mode),
{
    match mode {
        NetworkMode::Client => Endpoint { addr: Ipv4(192, 168, 0, 42), port: 4242 },
        NetworkMode::Server => Endpoint { addr: Ipv4(192, 168, 0, 24), port: 2424 },
    }
}

/// The endpoint that a device of role `mode` sends to.
pub fn remote_endpoint(mode: NetworkMode) -> (endpoint: Endpoint)
    ensures
        endpoint == remote_endpoint_spec(mode),
{
    match mode {
        NetworkMode::Client => local_endpoint(NetworkMode::Server),
        NetworkMode::Server => local_endpoint(NetworkMode::Client),
    }
}

impl View for Network {
    type V = LinkView;

    closed spec fn view(&self) -> LinkView {
        LinkView { mode: self.network_mode, local: self.local, remote: self.remote }
    }
}

impl Network {
    /// A socket for the link: not bound, with empty buffers, a receive buffer
    /// for three datagrams in 256 bytes and a send buffer for one datagram in
    /// 128 bytes.
    pub fn socket() -> (socket: UdpSocket<'static, 'static>)
        ensures
            udp_endpoint(&socket).port == 0,
            udp_received(&socket).len() == 0,
            udp_queued(&socket).len() == 0,
            udp_send_slots(&socket) == TX_PACKETS,
            udp_send_bytes(&socket) == TX_BYTES,
            forall|len: nat| #[trigger] udp_has_room(&socket, len) == (len <= TX_BYTES),
    {
        udp_socket(RX_PACKETS, RX_BYTES, TX_PACKETS, TX_BYTES)
    }

    /// Creates the link of a device of role `network_mode` over `socket`: binds
    /// the socket to the endpoint of that role. A socket that is bound already
    /// is refused and left as it is.
    pub fn new(
        socket: &mut UdpSocket<'static, 'static>,
        network_mode: NetworkMode,
    ) -> (r: Result<Network, LinkError>)
        ensures
            r is Ok <==> udp_endpoint(old(socket)).port == 0,
            r matches Ok(network) ==> network@ == (LinkView {
                mode: network_mode,
                local: None,
                remote: None,
            }) && udp_endpoint(final(socket)) == local_endpoint_spec(network_mode),
            r matches Err(e) ==> e == LinkError::Illegal && udp_endpoint(final(socket))
                == udp_endpoint(old(socket)),
            udp_received(final(socket)) == udp_received(old(socket)),
            send_side_kept(old(socket), final(socket)),
    {
        match udp_bind(socket, local_endpoint(network_mode)) {
            Ok(()) => Ok(Network { network_mode, local: None, remote: None }),
            Err(fault) => Err(link_error(fault)),
        }
    }

    /// The role of this device.
    pub fn network_mode(&self) -> (mode: NetworkMode)
        ensures
            mode == self@.mode,
    {
        self.network_mode
    }

    /// The state that this device last published, if it has published one.
    pub fn local(&self) -> (state: Option<PeerState>)
        ensures
            state == self@.local,
    {
        self.local
    }

    /// The last state that the peer sent, if it has sent one.
    pub fn remote(&self) -> (state: Option<PeerState>)
        ensures
            state == self@.remote,
    {
        self.remote
    }

    /// The hardware address of a device of role `network_mode`.
    pub fn get_ethernet_addr(network_mode: NetworkMode) -> (addr: [u8; 6])
        ensures
            addr@ == (match network_mode {
                NetworkMode::Client => seq![0x00u8, 0x08u8, 0xdcu8, 0xabu8, 0xcdu8, 0xefu8],
                NetworkMode::Server => seq![0x00u8, 0x08u8, 0xdcu8, 0xabu8, 0xcdu8, 0xf0u8],
            }),
    {
        let addr = match network_mode {
            NetworkMode::Client => [0x00u8, 0x08u8, 0xdcu8, 0xabu8, 0xcdu8, 0xefu8],
            NetworkMode::Server => [0x00u8, 0x08u8, 0xdcu8, 0xabu8, 0xcdu8, 0xf0u8],
        };
        assert(addr@ =~= (match network_mode {
            NetworkMode::Client => seq![0x00u8, 0x08u8, 0xdcu8, 0xabu8, 0xcdu8, 0xefu8],
            NetworkMode::Server => seq![0x00u8, 0x08u8, 0xdcu8, 0xabu8, 0xcdu8, 0xf0u8],
        }));
        addr
    }

    /// Takes the oldest datagram out of `socket` where the socket is bound to
    /// `port` and holds one, and hands out its payload. A datagram that
    /// carries a state is handed out as the six bytes of that state.
    pub fn poll_socket(
        socket: &mut UdpSocket<'static, 'static>,
        port: u16,
    ) -> (r: Result<Option<Vec<u8>>, LinkError>)
        ensures
            match r {
                Ok(Some(payload)) => udp_endpoint(old(socket)).port == port && udp_received(
                    old(socket),
                ).len() > 0 && payload@ == udp_received(old(socket))[0] && udp_received(
                    final(socket),
                ) == udp_received(old(socket)).skip(1),
                Ok(None) => (udp_endpoint(old(socket)).port != port || udp_received(
                    old(socket),
                ).len() == 0) && udp_received(final(socket)) == udp_received(old(socket)),
                Err(_) => false,
            },
            forall|state: PeerState|
                udp_endpoint(old(socket)).port == port && udp_received(old(socket)).len() > 0
                    && udp_received(old(socket))[0] == #[trigger] encode_spec(state) ==> (r
                    matches Ok(Some(payload)) && payload@.len() == PACKET_LEN && decode_spec(
                    payload@,
                ) == Ok::<PeerState, DecodeError>(state)),
            udp_endpoint(final(socket)) == udp_endpoint(old(socket)),
            send_side_kept(old(socket), final(socket)),
    {
        if udp_port(socket) != port {
            return Ok(None);
        }
        match udp_recv(socket) {
            Ok(payload) => Ok(Some(payload)),
            Err(fault) => match fault {
                smoltcp::Error::Exhausted => Ok(None),
                other => Err(link_error(other)),
            },
        }
    }

    /// One poll of the link, after the network interface was polled and
    /// reported `link`. Where the interface reported success, the oldest
    /// datagram that `socket` holds for the port of this device's role is taken
    /// and read, and the state that it carries becomes the last state of the
    /// peer. `Exhausted` from the interface means that there is nothing to do;
    /// any other error of the interface, and a datagram that cannot be read,
    /// are returned as errors for the caller to log, and leave the last state
    /// of the peer as it was.
    pub fn operate(
        &mut self,
        socket: &mut UdpSocket<'static, 'static>,
        link: Result<bool, smoltcp::Error>,
    ) -> (r: Result<Option<PeerState>, PollError>)
        ensures
            r == poll_outcome(
                socket_outcome(
                    link,
                    local_endpoint_spec(old(self)@.mode).port,
                    udp_endpoint(old(socket)).port,
                    udp_received(old(socket)),
                ),
            ),
            udp_received(final(socket)) == (if socket_outcome(
                link,
                local_endpoint_spec(old(self)@.mode).port,
                udp_endpoint(old(socket)).port,
                udp_received(old(socket)),
            ) matches Ok(Some(_)) {
                udp_received(old(socket)).skip(1)
            } else {
                udp_received(old(socket))
            }),
            udp_endpoint(final(socket)) == udp_endpoint(old(socket)),
            send_side_kept(old(socket), final(socket)),
            r matches Err(e) ==> e.worth_logging_spec(),
            final(self)@.mode == old(self)@.mode,
            final(self)@.local == old(self)@.local,
            final(self)@.remote == (match r {
                Ok(Some(state)) => Some(state),
                _ => old(self)@.remote,
            }),
    {
        let taken = match link {
            Err(fault) => match fault {
                smoltcp::Error::Exhausted => Ok(None),
                other => Err(link_error(other)),
            },
            Ok(_) => Network::poll_socket(socket, local_endpoint(self.network_mode).port),
        };
        let r = Network::reconcile(taken);
        match r {
            Ok(Some(state)) => {
                self.remote = Some(state);
            },
            _ => {},
        }
        r
    }

    /// Reads what a poll took from the socket: the state that the payload
    /// carries, nothing where none was taken, and an error where the link
    /// reported one or the payload cannot be read.
    pub fn reconcile(
        taken: Result<Option<Vec<u8>>, LinkError>,
    ) -> (r: Result<Option<PeerState>, PollError>)
        ensures
            r == poll_outcome(
                match taken {
                    Ok(Some(payload)) => Ok(Some(payload@)),
                    Ok(None) => Ok(None),
                    Err(e) => Err(e),
                },
            ),
    {
        match taken {
            Err(e) => Err(PollError::Link(e)),
            Ok(None) => Ok(None),
            Ok(Some(payload)) => match decode(payload.as_slice()) {
                Ok(state) => Ok(Some(state)),
                Err(e) => Err(PollError::Packet(e)),
            },
        }
    }

    /// Makes `state` the state of this device and queues it on `socket` for
    /// the peer: as one datagram of six bytes to the endpoint of the other
    /// role. Nothing is sent again and nothing is waited for. The datagram is
    /// queued exactly if the send buffer of the socket is one that `send_fits`
    /// admits, the socket is bound and the buffer has room. Else the queue
    /// holds what it held, and the error says why, in this order: `Unfit` for
    /// a buffer that `send_fits` does not admit, `Unaddressable` for a socket
    /// that is not bound, `Truncated` for a buffer that was made for fewer
    /// than six bytes, `Exhausted` for one that is full. A buffer that was
    /// made for one datagram is full once a datagram is queued.
    pub fn publish(
        &mut self,
        socket: &mut UdpSocket<'static, 'static>,
        state: &PeerState,
    ) -> (r: Result<(), LinkError>)
        ensures
            final(self)@ == (LinkView { local: Some(*state), ..old(self)@ }),
            r == publish_outcome(
                udp_send_slots(old(socket)),
                udp_send_bytes(old(socket)),
                udp_endpoint(old(socket)).port,
                udp_has_room(old(socket), PACKET_LEN as nat),
            ),
            udp_queued(final(socket)) == (if r is Ok {
                udp_queued(old(socket)).push(
                    (encode_spec(*state), remote_endpoint_spec(old(self)@.mode)),
                )
            } else {
                udp_queued(old(socket))
            }),
            r is Ok && udp_send_slots(old(socket)) == 1 ==> forall|len: nat|
                !#[trigger] udp_has_room(final(socket), len),
            send_made_alike(old(socket), final(socket)),
            udp_endpoint(final(socket)) == udp_endpoint(old(socket)),
            udp_received(final(socket)) == udp_received(old(socket)),
    {
        self.local = Some(*state);
        if udp_slots(socket) > 1 && udp_bytes(socket) < 2 * PACKET_LEN {
            return Err(LinkError::Unfit);
        }
        let payload = encode(state);
        match udp_send(socket, payload.as_slice(), remote_endpoint(self.network_mode)) {
            Ok(()) => Ok(()),
            Err(fault) => Err(link_error(fault)),
        }
    }
}

impl PollError {
    /// Whether the error is to be logged. Every error is, but `Exhausted`
    /// from the link, which says no more than that there was nothing to do.
    pub open spec fn worth_logging_spec(self) -> bool {
        self != PollError::Link(LinkError::Exhausted)
    }

    /// Whether the error is to be logged.
    pub fn worth_logging(&self) -> (r: bool)
        ensures
            r == self.worth_logging_spec(),
    {
        match self {
            PollError::Link(LinkError::Exhausted) => false,
            _ => true,
        }
    }
}

/// Every error that a poll returns is to be logged: what the link reports
/// beside `Exhausted`, and every datagram that cannot be read.
pub proof fn lemma_poll_errors_are_logged(
    link: Result<bool, smoltcp::Error>,
    port: u16,
    bound: u16,
    received: Seq<Seq<u8>>,
)
    ensures
        poll_outcome(socket_outcome(link, port, bound, received)) matches Err(e)
            ==> e.worth_logging_spec(),
        link matches Err(fault) && fault != smoltcp::Error::Exhausted ==> poll_outcome(
            socket_outcome(link, port, bound, received),
        ) is Err,
{
}

/// A state that one device published and that lies first in the socket of the
/// other is what the poll of the other returns: the six bytes are taken from
/// the socket and read as the state that was sent.
pub proof fn lemma_published_state_is_polled(
    state: PeerState,
    changed: bool,
    port: u16,
    received: Seq<Seq<u8>>,
)
    requires
        received.len() > 0,
        received[0] == encode_spec(state),
    ensures
        encode_spec(state).len() == PACKET_LEN,
        socket_outcome(Ok(changed), port, port, received) == Ok::<Option<Seq<u8>>, LinkError>(
            Some(encode_spec(state)),
        ),
        poll_outcome(socket_outcome(Ok(changed), port, port, received)) == Ok::<
            Option<PeerState>,
            PollError,
        >(Some(state)),
{
    lemma_round_trip(state);
}

} // verus!
