use stupid_net::packets::{Packet, SpawnEntity};
use stupid_net::srv::address::Address;
use stupid_net::srv::connection_hub::{ConnectionHub, NetError};
use stupid_net::sys::vector::Vector;

fn addr(last_octet: u32, port: u16) -> Address {
    Address::new(0x7F000000 | last_octet, port)
}

fn sample_packet() -> Packet {
    Packet::SpawnEntity(SpawnEntity {
        id: 7,
        kind: 2,
        max_health: 10,
        health: 10,
        pos: Vector::new(1, 2),
    })
}

#[test]
fn a_new_hub_has_an_empty_registry() {
    let hub = ConnectionHub::new();
    assert_eq!(hub.session_count(), 0);
    assert!(!hub.is_connected(addr(1, 4000)));
}

#[test]
fn accepting_n_distinct_peers_registers_n_sessions() {
    // One registry entry per distinct observed remote address, each open.
    let mut hub = ConnectionHub::new();
    let peers = [addr(1, 4000), addr(2, 4000), addr(1, 4001)];
    for p in peers {
        hub.accept(p);
    }
    assert_eq!(hub.session_count(), 3);
    for p in peers {
        assert!(hub.is_connected(p));
        assert_eq!(hub.is_session_open(p), Some(true));
    }
}

#[test]
fn reaccepting_the_same_address_replaces_the_session() {
    let mut hub = ConnectionHub::new();
    hub.accept(addr(1, 4000));
    hub.accept(addr(1, 4000));
    assert_eq!(hub.session_count(), 1);
    assert_eq!(hub.is_session_open(addr(1, 4000)), Some(true));
}

#[test]
fn send_tcp_frames_the_packet_for_a_registered_peer() {
    let mut hub = ConnectionHub::new();
    hub.accept(addr(1, 4000));
    let bytes = hub.send_tcp(addr(1, 4000), &sample_packet()).unwrap();
    assert_eq!(bytes, sample_packet().encode_frame());
    assert_eq!(bytes[0], 0);
    assert_eq!(bytes.len(), 14);
}

#[test]
fn send_tcp_to_an_unknown_address_is_a_typed_error() {
    let hub = ConnectionHub::new();
    let r = hub.send_tcp(addr(1, 4000), &sample_packet());
    assert_eq!(r, Err(NetError::NotConnected));
}

#[test]
fn send_udp_frames_one_datagram_for_a_registered_peer() {
    let mut hub = ConnectionHub::new();
    hub.accept(addr(9, 5000));
    let bytes = hub.send_udp(addr(9, 5000), &sample_packet()).unwrap();
    assert_eq!(bytes, sample_packet().encode_frame());
    assert_eq!(Packet::decode_datagram(&bytes), Some(sample_packet()));
}

#[test]
fn send_udp_to_an_unknown_address_fails_without_sending() {
    // The datagram transport is connectionless, but an address the hub does
    // not know is refused up front: no bytes are produced at all.
    let mut hub = ConnectionHub::new();
    hub.accept(addr(2, 5000));
    let r = hub.send_udp(addr(3, 5000), &sample_packet());
    assert_eq!(r, Err(NetError::NotConnected));
}

#[test]
fn a_dead_session_stays_registered_until_teardown() {
    let mut hub = ConnectionHub::new();
    hub.accept(addr(1, 4000));
    hub.close_all();
    assert!(hub.is_connected(addr(1, 4000)));
    assert_eq!(hub.is_session_open(addr(1, 4000)), Some(false));
}

#[test]
fn close_all_closes_every_session_and_keeps_the_registry() {
    let mut hub = ConnectionHub::new();
    let peers = [addr(1, 4000), addr(2, 4000), addr(3, 4000)];
    for p in peers {
        hub.accept(p);
    }
    hub.close_all();
    assert_eq!(hub.session_count(), 3);
    for p in peers {
        assert_eq!(hub.is_session_open(p), Some(false));
    }
}

#[test]
fn teardown_empties_the_registry() {
    let mut hub = ConnectionHub::new();
    let peers = [addr(1, 4000), addr(2, 4000)];
    for p in peers {
        hub.accept(p);
    }
    hub.close_all();
    hub.teardown();
    assert_eq!(hub.session_count(), 0);
    for p in peers {
        assert!(!hub.is_connected(p));
    }
}
