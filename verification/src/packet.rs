//! The datagram that tells a peer where a snake's head is.
//!
//! Six bytes: the player, the column of the head and its row as two bytes each
//! with the low byte first, and the heading as a code from 0 to 3.

use vstd::prelude::*;
use crate::grid::{Coord, Direction};

verus! {

/// Number of bytes of a datagram.
pub const PACKET_LEN: usize = 6;

/// What one player tells the other: who it is, where its head is and where it
/// is heading.
#[derive(Clone, Copy, Debug, PartialEq, Eq, Structural)]
pub struct PeerState {
    pub id: u8,
    pub head: Coord,
    pub direction: Direction,
}

/// Why a datagram could not be read.
#[derive(Clone, Copy, Debug, PartialEq, Eq, Structural)]
pub enum DecodeError {
    /// The datagram does not have six bytes.
    BadLength,
    /// The last byte is no code of a heading.
    BadDirection,
}

/// The code of a heading: 0 for up, 1 for down, 2 for left, 3 for right.
pub open spec fn code_of(direction: Direction) -> u8 {
    match direction {
        Direction::Up => 0,
        Direction::Down => 1,
        Direction::Left => 2,
        Direction::Right => 3,
    }
}

/// The heading that `code` stands for, if it stands for one.
pub open spec fn direction_of(code: u8) -> Option<Direction> {
    if code == 0 {
        Some(Direction::Up)
    } else if code == 1 {
        Some(Direction::Down)
    } else if code == 2 {
        Some(Direction::Left)
    } else if code == 3 {
        Some(Direction::Right)
    } else {
        None
    }
}

/// The six bytes that carry `state`.
pub open spec fn encode_spec(state: PeerState) -> Seq<u8> {
    seq![
        state.id,
        (state.head.x % 256) as u8,
        (state.head.x / 256) as u8,
        (state.head.y % 256) as u8,
        (state.head.y / 256) as u8,
        code_of(state.direction),
    ]
}

/// What `bytes` carry: a state, where they are six and the last is the code
/// of a heading.
pub open spec fn decode_spec(bytes: Seq<u8>) -> Result<PeerState, DecodeError> {
    if bytes.len() != PACKET_LEN {
        Err(DecodeError::BadLength)
    } else {
        match direction_of(bytes[5]) {
            None => Err(DecodeError::BadDirection),
            Some(direction) => Ok(
                PeerState {
                    id: bytes[0],
                    head: Coord {
                        x: (bytes[1] + 256 * bytes[2]) as u16,
                        y: (bytes[3] + 256 * bytes[4]) as u16,
                    },
                    direction,
                },
            ),
        }
    }
}

/// Reading the bytes that carry a state gives that state back, whatever the
/// player, the cell and the heading.
pub proof fn lemma_round_trip(state: PeerState)
    ensures
        encode_spec(state).len() == PACKET_LEN,
        decode_spec(encode_spec(state)) == Ok::<PeerState, DecodeError>(state),
{
}

/// The bytes that carry a state are the only bytes that are read as that
/// state.
pub proof fn lemma_decode_exact(bytes: Seq<u8>, state: PeerState)
    requires
        decode_spec(bytes) == Ok::<PeerState, DecodeError>(state),
    ensures
        encode_spec(state) == bytes,
{
}

/// Two states that differ never share their six bytes.
pub proof fn lemma_encode_injective(a: PeerState, b: PeerState)
    requires
        a != b,
    ensures
        encode_spec(a) != encode_spec(b),
{
    lemma_round_trip(a);
    lemma_round_trip(b);
}

/// The code of a heading.
pub fn direction_code(direction: Direction) -> (code: u8)
    ensures
        code == code_of(direction),
        direction_of(code) == Some(direction),
{
    match direction {
        Direction::Up => 0,
        Direction::Down => 1,
        Direction::Left => 2,
        Direction::Right => 3,
    }
}

/// The heading that `code` stands for, or `None` where it stands for none.
pub fn direction_from_code(code: u8) -> (r: Option<Direction>)
    ensures
        r == direction_of(code),
        r is Some <==> code <= 3,
{
    match code {
        0 => Some(Direction::Up),
        1 => Some(Direction::Down),
        2 => Some(Direction::Left),
        3 => Some(Direction::Right),
        _ => None,
    }
}

/// The six bytes that carry `state`.
pub fn encode(state: &PeerState) -> (bytes: Vec<u8>)
    ensures
        bytes@ == encode_spec(*state),
        decode_spec(bytes@) == Ok::<PeerState, DecodeError>(*state),
{
    let mut bytes: Vec<u8> = Vec::new();
    bytes.push(state.id);
    bytes.push((state.head.x % 256) as u8);
    bytes.push((state.head.x / 256) as u8);
    bytes.push((state.head.y % 256) as u8);
    bytes.push((state.head.y / 256) as u8);
    bytes.push(direction_code(state.direction));
    bytes
}

/// Reads a datagram. It is refused where it does not have six bytes, and else
/// where its last byte is no code of a heading.
pub fn decode(bytes: &[u8]) -> (r: Result<PeerState, DecodeError>)
    ensures
        r == decode_spec(bytes@),
{
    if bytes.len() != PACKET_LEN {
        return Err(DecodeError::BadLength);
    }
    match direction_from_code(bytes[5]) {
        None => Err(DecodeError::BadDirection),
        Some(direction) => Ok(
            PeerState {
                id: bytes[0],
                head: Coord {
                    x: bytes[1] as u16 + 256 * (bytes[2] as u16),
                    y: bytes[3] as u16 + 256 * (bytes[4] as u16),
                },
                direction,
            },
        ),
    }
}

} // verus!
