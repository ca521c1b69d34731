//! The entity-spawn notification.
//!
//! Command to spawn an entity with the given id, kind, health meter and
//! position. On the wire its payload is exactly [`PAYLOAD_SIZE`] bytes, fields
//! big-endian in the order id, kind, maximum health, current health, position.

use vstd::prelude::*;

use crate::packets::{
    push_u16_be, push_u32_be, read_u16_be, read_u32_be, u16_be_bytes, u16_from_be, u32_be_bytes,
    u32_from_be, lemma_u16_be_bytes_of, lemma_u16_be_roundtrip, lemma_u32_be_bytes_of,
    lemma_u32_be_roundtrip,
};
use crate::sys::vector::Vector;

verus! {

/// The declared payload length of an entity-spawn message, in bytes:
/// 4 (id) + 1 (kind) + 2 (maximum health) + 2 (health) + 4 (position).
pub const PAYLOAD_SIZE: u32 = 13;

/// A notification that an entity entered the game world.
#[derive(Clone, Copy, PartialEq, Eq, Structural, Debug)]
pub struct SpawnEntity {
    /// The id of the entity in the game world; later packets reference the
    /// entity by this id only.
    pub id: u32,

    /// The kind of the entity.
    pub kind: u8,

    /// The maximum health is sent along since it may vary between entities of
    /// the same kind.
    pub max_health: u16,

    /// The health of the entity at the moment it was sent.
    pub health: u16,

    /// The position of the entity on the game's integer grid.
    pub pos: Vector<u16>,
}

impl SpawnEntity {
    /// The payload bytes of this packet: every field big-endian, in the order
    /// id, kind, maximum health, current health, position x, position y.
    pub open spec fn spec_payload(self) -> Seq<u8> {
        u32_be_bytes(self.id) + seq![self.kind] + u16_be_bytes(self.max_health) + u16_be_bytes(
            self.health,
        ) + u16_be_bytes(self.pos.x) + u16_be_bytes(self.pos.y)
    }

    /// The packet described by a payload of exactly [`PAYLOAD_SIZE`] bytes.
    pub open spec fn spec_parse(data: Seq<u8>) -> SpawnEntity
        recommends
            data.len() == PAYLOAD_SIZE,
    {
        SpawnEntity {
            id: u32_from_be(data[0], data[1], data[2], data[3]),
            kind: data[4],
            max_health: u16_from_be(data[5], data[6]),
            health: u16_from_be(data[7], data[8]),
            pos: Vector { x: u16_from_be(data[9], data[10]), y: u16_from_be(data[11], data[12]) },
        }
    }

    /// Constructs the packet from a payload of exactly [`PAYLOAD_SIZE`] bytes.
    pub fn from_bytes(data: &[u8]) -> (r: SpawnEntity)
        requires
            data@.len() == PAYLOAD_SIZE,
        ensures
            r == SpawnEntity::spec_parse(data@),
    {
        let id = read_u32_be(data, 0);
        let kind = data[4];
        let max_health = read_u16_be(data, 5);
        let health = read_u16_be(data, 7);
        let x = read_u16_be(data, 9);
        let y = read_u16_be(data, 11);
        SpawnEntity { id, kind, max_health, health, pos: Vector { x, y } }
    }

    /// Writes the packet into its payload of exactly [`PAYLOAD_SIZE`] bytes.
    pub fn to_bytes(&self) -> (r: Vec<u8>)
        ensures
            r@ == self.spec_payload(),
            r@.len() == PAYLOAD_SIZE,
    {
        let mut data: Vec<u8> = Vec::new();
        push_u32_be(&mut data, self.id);
        data.push(self.kind);
        push_u16_be(&mut data, self.max_health);
        push_u16_be(&mut data, self.health);
        push_u16_be(&mut data, self.pos.x);
        push_u16_be(&mut data, self.pos.y);
        proof {
            assert(data@ =~= self.spec_payload());
        }
        data
    }

    /// The payload always has the declared length.
    pub proof fn lemma_payload_len(self)
        ensures
            self.spec_payload().len() == PAYLOAD_SIZE,
    {
    }

    /// Round trip one way: parsing the payload written for a packet yields the
    /// packet itself, for every field assignment.
    pub proof fn lemma_parse_of_payload(self)
        ensures
            SpawnEntity::spec_parse(self.spec_payload()) == self,
    {
        let p = self.spec_payload();
        assert(p[0] == ((self.id >> 24) & 0xff) as u8);
        assert(p[1] == ((self.id >> 16) & 0xff) as u8);
        assert(p[2] == ((self.id >> 8) & 0xff) as u8);
        assert(p[3] == (self.id & 0xff) as u8);
        assert(p[4] == self.kind);
        assert(p[5] == ((self.max_health >> 8) & 0xff) as u8);
        assert(p[6] == (self.max_health & 0xff) as u8);
        assert(p[7] == ((self.health >> 8) & 0xff) as u8);
        assert(p[8] == (self.health & 0xff) as u8);
        assert(p[9] == ((self.pos.x >> 8) & 0xff) as u8);
        assert(p[10] == (self.pos.x & 0xff) as u8);
        assert(p[11] == ((self.pos.y >> 8) & 0xff) as u8);
        assert(p[12] == (self.pos.y & 0xff) as u8);
        lemma_u32_be_roundtrip(self.id);
        lemma_u16_be_roundtrip(self.max_health);
        lemma_u16_be_roundtrip(self.health);
        lemma_u16_be_roundtrip(self.pos.x);
        lemma_u16_be_roundtrip(self.pos.y);
    }

    /// Round trip the other way: writing the packet parsed from any payload of
    /// the declared length yields that payload byte for byte.
    pub proof fn lemma_payload_of_parse(data: Seq<u8>)
        requires
            data.len() == PAYLOAD_SIZE,
        ensures
            SpawnEntity::spec_parse(data).spec_payload() == data,
    {
        let se = SpawnEntity::spec_parse(data);
        lemma_u32_be_bytes_of(data[0], data[1], data[2], data[3]);
        lemma_u16_be_bytes_of(data[5], data[6]);
        lemma_u16_be_bytes_of(data[7], data[8]);
        lemma_u16_be_bytes_of(data[9], data[10]);
        lemma_u16_be_bytes_of(data[11], data[12]);
        assert(se.spec_payload() =~= data);
    }
}

} // verus!
