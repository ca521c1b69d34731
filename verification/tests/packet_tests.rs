use stupid_net::packets::{DecodeError, Packet, SpawnEntity};
use stupid_net::sys::vector::Vector;

fn sample_spawn() -> SpawnEntity {
    SpawnEntity {
        id: 7,
        kind: 2,
        max_health: 10,
        health: 10,
        pos: Vector::new(1, 2),
    }
}

#[test]
fn spawn_entity_payload_is_big_endian_and_13_bytes() {
    let bytes = sample_spawn().to_bytes();
    assert_eq!(bytes, vec![0, 0, 0, 7, 2, 0, 10, 0, 10, 0, 1, 0, 2]);
}

#[test]
fn spawn_entity_payload_orders_fields_canonically() {
    let se = SpawnEntity {
        id: 0x01020304,
        kind: 0xAB,
        max_health: 0x1122,
        health: 0x3344,
        pos: Vector::new(0x5566, 0x7788),
    };
    let bytes = se.to_bytes();
    assert_eq!(
        bytes,
        vec![0x01, 0x02, 0x03, 0x04, 0xAB, 0x11, 0x22, 0x33, 0x44, 0x55, 0x66, 0x77, 0x88]
    );
}

#[test]
fn spawn_entity_round_trip() {
    let se = sample_spawn();
    let bytes = se.to_bytes();
    assert_eq!(SpawnEntity::from_bytes(&bytes), se);
}

#[test]
fn spawn_entity_round_trip_extreme_values() {
    let se = SpawnEntity {
        id: u32::MAX,
        kind: u8::MAX,
        max_health: u16::MAX,
        health: 0,
        pos: Vector::new(u16::MAX, 0x1234),
    };
    assert_eq!(SpawnEntity::from_bytes(&se.to_bytes()), se);
}

#[test]
fn spawn_entity_bytes_round_trip() {
    let bytes: Vec<u8> = (1..=13).collect();
    assert_eq!(SpawnEntity::from_bytes(&bytes).to_bytes(), bytes);
}

#[test]
fn decode_accepts_exact_length_payload() {
    let se = sample_spawn();
    let decoded = Packet::decode(0, &se.to_bytes());
    assert_eq!(decoded, Ok(Packet::SpawnEntity(se)));
}

#[test]
fn decode_recovers_the_announced_field_values() {
    // The receiving side of a spawn notification sees the identical values.
    let bytes = sample_spawn().to_bytes();
    match Packet::decode(0, &bytes) {
        Ok(Packet::SpawnEntity(se)) => {
            assert_eq!(se.id, 7);
            assert_eq!(se.kind, 2);
            assert_eq!(se.max_health, 10);
            assert_eq!(se.health, 10);
            assert_eq!(se.pos, Vector::new(1, 2));
        }
        other => panic!("expected a spawn packet, got {:?}", other),
    }
}

#[test]
fn decode_rejects_wrong_length_for_registered_kind() {
    assert_eq!(Packet::decode(0, &[0u8; 12]), Err(DecodeError::LengthMismatch));
    assert_eq!(Packet::decode(0, &[0u8; 14]), Err(DecodeError::LengthMismatch));
    assert_eq!(Packet::decode(0, &[]), Err(DecodeError::LengthMismatch));
}

#[test]
fn decode_rejects_unregistered_kind() {
    assert_eq!(Packet::decode(1, &[0u8; 13]), Err(DecodeError::UnrecognizedKind));
    assert_eq!(Packet::decode(255, &[]), Err(DecodeError::UnrecognizedKind));
}

#[test]
fn size_dispatch_matches_the_registered_kind() {
    assert_eq!(Packet::get_matching_size(0), 13);
    assert_eq!(Packet::size_of_id(0), Some(13));
    assert_eq!(Packet::size_of_id(1), None);
    assert_eq!(Packet::size_of_id(255), None);
}

#[test]
fn frame_prefixes_the_id_byte() {
    let p = Packet::SpawnEntity(sample_spawn());
    let frame = p.encode_frame();
    assert_eq!(frame.len(), 14);
    assert_eq!(frame[0], 0);
    assert_eq!(&frame[1..], &p.to_bytes()[..]);
}

#[test]
fn datagram_round_trip() {
    let p = Packet::SpawnEntity(sample_spawn());
    assert_eq!(Packet::decode_datagram(&p.encode_frame()), Some(p));
}

#[test]
fn malformed_datagrams_are_discarded() {
    // Empty, truncated, oversized, and unregistered datagrams all decode to
    // nothing rather than blocking or crashing the receive loop.
    assert_eq!(Packet::decode_datagram(&[]), None);
    assert_eq!(Packet::decode_datagram(&[0u8; 5]), None);
    assert_eq!(Packet::decode_datagram(&[0u8; 15]), None);
    assert_eq!(Packet::decode_datagram(&[9u8; 14]), None);
}
