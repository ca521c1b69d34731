use stupid_net::packets::{Packet, SpawnEntity};
use stupid_net::srv::address::Address;
use stupid_net::srv::user::{ReadControl, ReadEvent, User};
use stupid_net::sys::vector::Vector;

fn peer() -> Address {
    Address::new(0x7F000001, 40000)
}

fn sample_packet() -> Packet {
    Packet::SpawnEntity(SpawnEntity {
        id: 7,
        kind: 2,
        max_health: 10,
        health: 10,
        pos: Vector::new(1, 2),
    })
}

#[test]
fn a_fresh_session_is_open_and_keeps_its_address() {
    let user = User::new(peer());
    assert!(user.is_open());
    assert_eq!(user.remote_address(), peer());
}

#[test]
fn close_marks_the_session_dead() {
    let mut user = User::new(peer());
    user.close();
    assert!(!user.is_open());
    assert_eq!(user.remote_address(), peer());
}

#[test]
fn close_is_idempotent() {
    let mut user = User::new(peer());
    user.close();
    user.close();
    assert!(!user.is_open());
}

#[test]
fn orderly_disconnect_flips_liveness_and_stops_the_read_loop() {
    // A read of zero bytes is the peer closing its side: the liveness flag
    // goes false with no action from anyone else.
    let mut user = User::new(peer());
    assert_eq!(user.handle_read_event(&ReadEvent::Eof), ReadControl::Stop);
    assert!(!user.is_open());
}

#[test]
fn read_error_flips_liveness_and_stops_the_read_loop() {
    let mut user = User::new(peer());
    assert_eq!(user.handle_read_event(&ReadEvent::Failed), ReadControl::Stop);
    assert!(!user.is_open());
}

#[test]
fn a_good_frame_is_delivered_and_the_session_stays_open() {
    let mut user = User::new(peer());
    let event = ReadEvent::Frame {
        id: 0,
        payload: sample_packet().to_bytes(),
    };
    assert_eq!(user.handle_read_event(&event), ReadControl::Deliver(sample_packet()));
    assert!(user.is_open());
}

#[test]
fn a_frame_with_an_unregistered_id_drops_the_connection() {
    let mut user = User::new(peer());
    let event = ReadEvent::Frame { id: 42, payload: Vec::new() };
    assert_eq!(user.handle_read_event(&event), ReadControl::Stop);
    assert!(!user.is_open());
}

#[test]
fn a_frame_of_the_wrong_length_drops_the_connection() {
    let mut user = User::new(peer());
    let event = ReadEvent::Frame { id: 0, payload: vec![1, 2, 3] };
    assert_eq!(user.handle_read_event(&event), ReadControl::Stop);
    assert!(!user.is_open());
}
