use multisnake::grid::{Coord, Direction};
use multisnake::packet::{decode, direction_code, direction_from_code, encode, DecodeError, PeerState, PACKET_LEN};

fn state(id: u8, x: u16, y: u16, direction: Direction) -> PeerState {
    PeerState { id, head: Coord { x, y }, direction }
}

#[test]
fn encode_writes_six_bytes_low_byte_first() {
    assert_eq!(PACKET_LEN, 6);
    assert_eq!(encode(&state(1, 5, 5, Direction::Left)), vec![1, 5, 0, 5, 0, 2]);
    assert_eq!(encode(&state(7, 0x1234, 0xabcd, Direction::Right)), vec![7, 0x34, 0x12, 0xcd, 0xab, 3]);
    assert_eq!(encode(&state(255, 65535, 0, Direction::Up)), vec![255, 255, 255, 0, 0, 0]);
    assert_eq!(encode(&state(0, 256, 255, Direction::Down)), vec![0, 0, 1, 255, 0, 1]);
}

#[test]
fn decode_reads_six_bytes() {
    assert_eq!(decode(&[1, 5, 0, 5, 0, 2]), Ok(state(1, 5, 5, Direction::Left)));
    assert_eq!(decode(&[7, 0x34, 0x12, 0xcd, 0xab, 3]), Ok(state(7, 0x1234, 0xabcd, Direction::Right)));
    assert_eq!(decode(&[255, 255, 255, 255, 255, 0]), Ok(state(255, 65535, 65535, Direction::Up)));
    assert_eq!(decode(&[0, 47, 0, 26, 0, 1]), Ok(state(0, 47, 26, Direction::Down)));
}

#[test]
fn decode_refuses_a_wrong_length() {
    assert_eq!(decode(&[]), Err(DecodeError::BadLength));
    assert_eq!(decode(&[1, 5, 0, 5, 0]), Err(DecodeError::BadLength));
    assert_eq!(decode(&[1, 5, 0, 5, 0, 2, 0]), Err(DecodeError::BadLength));
    // the length is looked at before the heading
    assert_eq!(decode(&[1, 5, 0, 5, 9]), Err(DecodeError::BadLength));
}

#[test]
fn decode_refuses_an_unknown_heading() {
    assert_eq!(decode(&[1, 5, 0, 5, 0, 4]), Err(DecodeError::BadDirection));
    assert_eq!(decode(&[1, 5, 0, 5, 0, 255]), Err(DecodeError::BadDirection));
}

#[test]
fn heading_codes() {
    assert_eq!(direction_code(Direction::Up), 0);
    assert_eq!(direction_code(Direction::Down), 1);
    assert_eq!(direction_code(Direction::Left), 2);
    assert_eq!(direction_code(Direction::Right), 3);
    assert_eq!(direction_from_code(0), Some(Direction::Up));
    assert_eq!(direction_from_code(1), Some(Direction::Down));
    assert_eq!(direction_from_code(2), Some(Direction::Left));
    assert_eq!(direction_from_code(3), Some(Direction::Right));
    assert_eq!(direction_from_code(4), None);
}

#[test]
fn round_trip_over_ids_cells_and_headings() {
    let directions = [Direction::Up, Direction::Down, Direction::Left, Direction::Right];
    for id in 0..=255u8 {
        for (i, direction) in directions.iter().enumerate() {
            let x = (id as u16) % 48;
            let y = (id as u16 * 7 + i as u16) % 27;
            let s = state(id, x, y, *direction);
            let bytes = encode(&s);
            assert_eq!(bytes.len(), 6);
            assert_eq!(decode(&bytes), Ok(s));
        }
    }
    for x in [0u16, 1, 255, 256, 257, 4660, 65534, 65535] {
        for y in [0u16, 1, 255, 256, 257, 4660, 65534, 65535] {
            let s = state(9, x, y, Direction::Left);
            assert_eq!(decode(&encode(&s)), Ok(s));
        }
    }
}

#[test]
fn bytes_that_decode_are_the_encoding() {
    let bytes = [200u8, 17, 3, 99, 1, 3];
    let s = decode(&bytes).unwrap();
    assert_eq!(encode(&s), bytes.to_vec());
}

#[test]
fn states_that_differ_have_bytes_that_differ() {
    let base = state(1, 5, 5, Direction::Left);
    let others = [
        state(2, 5, 5, Direction::Left),
        state(1, 6, 5, Direction::Left),
        state(1, 5, 6, Direction::Left),
        state(1, 5, 5, Direction::Right),
        state(1, 5 + 256, 5, Direction::Left),
        state(1, 5, 5 + 256, Direction::Left),
    ];
    for other in others {
        assert_ne!(encode(&base), encode(&other));
    }
    for (i, a) in others.iter().enumerate() {
        for b in others.iter().skip(i + 1) {
            assert_ne!(encode(a), encode(b));
        }
    }
}
