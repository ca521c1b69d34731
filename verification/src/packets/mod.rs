//! The wire protocol.
//!
//! A message on either transport is a one-byte kind id followed by a payload
//! of exactly the length declared for that kind; every multi-byte field is
//! big-endian. The reliable transport carries such messages back-to-back with
//! no further delimiter; the unreliable transport carries exactly one message
//! per datagram. The protocol is stateless: no sequence numbers, no
//! acknowledgements, no cross-packet context.

pub mod spawn_entity;

use vstd::prelude::*;
use vstd::slice::slice_subrange;

pub use crate::packets::spawn_entity::SpawnEntity;

verus! {

/// Why a byte slice failed to decode.
#[derive(Clone, Copy, PartialEq, Eq, Structural, Debug)]
pub enum DecodeError {
    /// The payload's length is not the length declared for its kind id.
    LengthMismatch,
    /// The kind id byte is not a registered kind.
    UnrecognizedKind,
}

/// A message of the wire protocol: one variant per registered kind, each
/// tagged on the wire by a unique one-byte id and carrying a payload of a
/// fixed declared length.
#[derive(Clone, Copy, PartialEq, Eq, Structural, Debug)]
pub enum Packet {
    /// An entity entered the game world; id byte 0.
    SpawnEntity(SpawnEntity),
}

impl Packet {
    /// Whether `id` is the id byte of a registered kind.
    pub open spec fn spec_is_registered(id: u8) -> bool {
        id == 0
    }

    /// The declared payload length of the kind with id byte `id`.
    pub open spec fn spec_size(id: u8) -> u32
        recommends
            Packet::spec_is_registered(id),
    {
        spawn_entity::PAYLOAD_SIZE
    }

    /// Checks which kind the given id refers to and provides its declared
    /// payload size, so that exactly that many bytes can be read from the
    /// stream before decoding. Asking for an unregistered id is a programming
    /// error, ruled out by the precondition; readers facing untrusted input
    /// use [`Packet::size_of_id`] instead.
    pub fn get_matching_size(id: u8) -> (r: u32)
        requires
            Packet::spec_is_registered(id),
        ensures
            r == Packet::spec_size(id),
    {
        spawn_entity::PAYLOAD_SIZE
    }

    /// The total form of the size dispatch: `None` for an unregistered id, so
    /// a reader of untrusted bytes can reject the message instead of
    /// guessing at a length.
    pub fn size_of_id(id: u8) -> (r: Option<u32>)
        ensures
            Packet::spec_is_registered(id) ==> r == Some(Packet::spec_size(id)),
            !Packet::spec_is_registered(id) ==> r is None,
    {
        if id == 0 {
            Some(spawn_entity::PAYLOAD_SIZE)
        } else {
            None
        }
    }

    /// The id byte of this packet's kind.
    pub open spec fn spec_id(self) -> u8 {
        match self {
            Packet::SpawnEntity(_) => 0,
        }
    }

    /// Returns the id byte of this packet's kind.
    pub fn id(&self) -> (r: u8)
        ensures
            r == self.spec_id(),
    {
        match self {
            Packet::SpawnEntity(_) => 0,
        }
    }

    /// The payload bytes of this packet.
    pub open spec fn spec_payload(self) -> Seq<u8> {
        match self {
            Packet::SpawnEntity(se) => se.spec_payload(),
        }
    }

    /// Writes the packet's payload: exactly the declared number of bytes for
    /// its kind.
    pub fn to_bytes(&self) -> (r: Vec<u8>)
        ensures
            r@ == self.spec_payload(),
            r@.len() == Packet::spec_size(self.spec_id()),
    {
        match self {
            Packet::SpawnEntity(se) => se.to_bytes(),
        }
    }

    /// The packet, or the decode error, that a payload `data` read for kind
    /// id `id` yields: unregistered ids and payloads of the wrong length are
    /// explicit errors, never undefined behaviour.
    pub open spec fn spec_decode(id: u8, data: Seq<u8>) -> Result<Packet, DecodeError> {
        if !Packet::spec_is_registered(id) {
            Err(DecodeError::UnrecognizedKind)
        } else if data.len() != Packet::spec_size(id) {
            Err(DecodeError::LengthMismatch)
        } else {
            Ok(Packet::SpawnEntity(SpawnEntity::spec_parse(data)))
        }
    }

    /// Decodes the payload `data` read for kind id `id`.
    ///
    /// Succeeds exactly when `id` is registered and `data` has the declared
    /// length; an unregistered id fails with [`DecodeError::UnrecognizedKind`]
    /// and a registered id with a payload of any other length fails with
    /// [`DecodeError::LengthMismatch`].
    pub fn decode(id: u8, data: &[u8]) -> (r: Result<Packet, DecodeError>)
        ensures
            r == Packet::spec_decode(id, data@),
    {
        if id != 0 {
            Err(DecodeError::UnrecognizedKind)
        } else if data.len() != spawn_entity::PAYLOAD_SIZE as usize {
            Err(DecodeError::LengthMismatch)
        } else {
            Ok(Packet::SpawnEntity(SpawnEntity::from_bytes(data)))
        }
    }

    /// The packet as framed for the wire: its kind's id byte, then its
    /// payload.
    pub open spec fn spec_frame(self) -> Seq<u8> {
        seq![self.spec_id()] + self.spec_payload()
    }

    /// Frames the packet for either transport: the id byte first, then the
    /// payload of exactly the declared length.
    pub fn encode_frame(&self) -> (r: Vec<u8>)
        ensures
            r@ == self.spec_frame(),
    {
        let mut data: Vec<u8> = Vec::new();
        data.push(self.id());
        let mut payload = self.to_bytes();
        data.append(&mut payload);
        proof {
            assert(data@ =~= self.spec_frame());
        }
        data
    }

    /// The packet a whole datagram decodes to, if any: the unreliable
    /// transport carries exactly one framed message per datagram, and a
    /// malformed datagram is discarded, not an error and never a crash.
    pub open spec fn spec_decode_datagram(data: Seq<u8>) -> Option<Packet> {
        if data.len() == 0 {
            None
        } else {
            match Packet::spec_decode(data[0], data.subrange(1, data.len() as int)) {
                Ok(p) => Some(p),
                Err(_) => None,
            }
        }
    }

    /// Decodes one whole datagram: the id byte, then the payload. A datagram
    /// that is empty, carries an unregistered id, or is the wrong length for
    /// its declared kind yields `None` and is discarded by the receive loop.
    pub fn decode_datagram(data: &[u8]) -> (r: Option<Packet>)
        ensures
            r == Packet::spec_decode_datagram(data@),
    {
        if data.len() == 0 {
            None
        } else {
            let id = data[0];
            let payload = slice_subrange(data, 1, data.len());
            match Packet::decode(id, payload) {
                Ok(p) => Some(p),
                Err(_) => None,
            }
        }
    }

    /// Round-trip law: for every field assignment and every registered kind,
    /// decoding a packet's encoded payload under the packet's own id yields
    /// the packet again.
    pub proof fn lemma_decode_of_encode(p: Packet)
        ensures
            Packet::spec_decode(p.spec_id(), p.spec_payload()) == Ok::<Packet, DecodeError>(p),
    {
        match p {
            Packet::SpawnEntity(se) => {
                se.lemma_payload_len();
                se.lemma_parse_of_payload();
            },
        }
    }

    /// Framing round-trip law: a packet framed for the wire and carried as
    /// one whole datagram decodes back to the packet.
    pub proof fn lemma_datagram_of_frame(p: Packet)
        ensures
            Packet::spec_decode_datagram(p.spec_frame()) == Some(p),
    {
        Packet::lemma_decode_of_encode(p);
        assert(p.spec_frame()[0] == p.spec_id());
        assert(p.spec_frame().subrange(1, p.spec_frame().len() as int) =~= p.spec_payload());
    }

    /// Length law: for every registered kind, a payload of any length other
    /// than the declared one fails to decode with a length mismatch — never
    /// silently truncated or padded.
    pub proof fn lemma_wrong_length_rejected(id: u8, data: Seq<u8>)
        requires
            Packet::spec_is_registered(id),
            data.len() != Packet::spec_size(id),
        ensures
            Packet::spec_decode(id, data) == Err::<Packet, DecodeError>(
                DecodeError::LengthMismatch,
            ),
    {
    }

    /// Kind law: an unregistered id never decodes, whatever the payload — an
    /// explicit error, not a silent no-op.
    pub proof fn lemma_unregistered_rejected(id: u8, data: Seq<u8>)
        requires
            !Packet::spec_is_registered(id),
        ensures
            Packet::spec_decode(id, data) == Err::<Packet, DecodeError>(
                DecodeError::UnrecognizedKind,
            ),
    {
    }

    /// Exactness law: every payload of the declared length decodes under a
    /// registered id, and encoding the decoded packet yields the same bytes
    /// again — so declared size, decode and encode agree byte for byte.
    pub proof fn lemma_encode_of_decode(id: u8, data: Seq<u8>)
        requires
            Packet::spec_is_registered(id),
            data.len() == Packet::spec_size(id),
        ensures
            Packet::spec_decode(id, data) is Ok,
            Packet::spec_decode(id, data)->Ok_0.spec_payload() == data,
            Packet::spec_decode(id, data)->Ok_0.spec_id() == id,
    {
        SpawnEntity::lemma_payload_of_parse(data);
    }
}

/// The two big-endian bytes of a 16-bit value, most significant first.
pub open spec fn u16_be_bytes(v: u16) -> Seq<u8> {
    seq![((v >> 8) & 0xff) as u8, (v & 0xff) as u8]
}

/// The 16-bit value read from two big-endian bytes.
pub open spec fn u16_from_be(b0: u8, b1: u8) -> u16 {
    ((b0 as u16) << 8) | (b1 as u16)
}

/// The four big-endian bytes of a 32-bit value, most significant first.
pub open spec fn u32_be_bytes(v: u32) -> Seq<u8> {
    seq![
        ((v >> 24) & 0xff) as u8,
        ((v >> 16) & 0xff) as u8,
        ((v >> 8) & 0xff) as u8,
        (v & 0xff) as u8,
    ]
}

/// The 32-bit value read from four big-endian bytes.
pub open spec fn u32_from_be(b0: u8, b1: u8, b2: u8, b3: u8) -> u32 {
    ((b0 as u32) << 24) | ((b1 as u32) << 16) | ((b2 as u32) << 8) | (b3 as u32)
}

/// Appends the two big-endian bytes of `v` to `data`.
pub fn push_u16_be(data: &mut Vec<u8>, v: u16)
    ensures
        final(data)@ == old(data)@ + u16_be_bytes(v),
{
    proof {
        assert((v >> 8) & 0xff < 256 && v & 0xff < 256) by (bit_vector);
    }
    data.push(((v >> 8) & 0xff) as u8);
    data.push((v & 0xff) as u8);
    proof {
        assert(data@ =~= old(data)@ + u16_be_bytes(v));
    }
}

/// Appends the four big-endian bytes of `v` to `data`.
pub fn push_u32_be(data: &mut Vec<u8>, v: u32)
    ensures
        final(data)@ == old(data)@ + u32_be_bytes(v),
{
    proof {
        assert((v >> 24) & 0xff < 256 && (v >> 16) & 0xff < 256 && (v >> 8) & 0xff < 256
            && v & 0xff < 256) by (bit_vector);
    }
    data.push(((v >> 24) & 0xff) as u8);
    data.push(((v >> 16) & 0xff) as u8);
    data.push(((v >> 8) & 0xff) as u8);
    data.push((v & 0xff) as u8);
    proof {
        assert(data@ =~= old(data)@ + u32_be_bytes(v));
    }
}

/// Reads the big-endian 16-bit value at offset `i` of `data`.
pub fn read_u16_be(data: &[u8], i: usize) -> (v: u16)
    requires
        i + 2 <= data@.len(),
    ensures
        v == u16_from_be(data@[i as int], data@[i as int + 1]),
{
    ((data[i] as u16) << 8) | (data[i + 1] as u16)
}

/// Reads the big-endian 32-bit value at offset `i` of `data`.
pub fn read_u32_be(data: &[u8], i: usize) -> (v: u32)
    requires
        i + 4 <= data@.len(),
    ensures
        v == u32_from_be(
            data@[i as int],
            data@[i as int + 1],
            data@[i as int + 2],
            data@[i as int + 3],
        ),
{
    ((data[i] as u32) << 24) | ((data[i + 1] as u32) << 16) | ((data[i + 2] as u32) << 8)
        | (data[i + 3] as u32)
}

/// Reading back the big-endian bytes of a 16-bit value yields the value.
pub proof fn lemma_u16_be_roundtrip(v: u16)
    ensures
        u16_from_be(u16_be_bytes(v)[0], u16_be_bytes(v)[1]) == v,
{
    assert((((((v >> 8) & 0xff) as u8) as u16) << 8) | (((v & 0xff) as u8) as u16) == v)
        by (bit_vector);
}

/// Writing the 16-bit value read from two bytes yields the same two bytes.
pub proof fn lemma_u16_be_bytes_of(b0: u8, b1: u8)
    ensures
        u16_be_bytes(u16_from_be(b0, b1)) == seq![b0, b1],
{
    let v = u16_from_be(b0, b1);
    assert(((v >> 8) & 0xff) as u8 == b0 && (v & 0xff) as u8 == b1) by (bit_vector)
        requires
            v == ((b0 as u16) << 8) | (b1 as u16),
    ;
    assert(u16_be_bytes(v) =~= seq![b0, b1]);
}

/// Reading back the big-endian bytes of a 32-bit value yields the value.
pub proof fn lemma_u32_be_roundtrip(v: u32)
    ensures
        u32_from_be(
            u32_be_bytes(v)[0],
            u32_be_bytes(v)[1],
            u32_be_bytes(v)[2],
            u32_be_bytes(v)[3],
        ) == v,
{
    assert((((((v >> 24) & 0xff) as u8) as u32) << 24) | (((((v >> 16) & 0xff) as u8) as u32)
        << 16) | (((((v >> 8) & 0xff) as u8) as u32) << 8) | (((v & 0xff) as u8) as u32) == v)
        by (bit_vector);
}

/// Writing the 32-bit value read from four bytes yields the same four bytes.
pub proof fn lemma_u32_be_bytes_of(b0: u8, b1: u8, b2: u8, b3: u8)
    ensures
        u32_be_bytes(u32_from_be(b0, b1, b2, b3)) == seq![b0, b1, b2, b3],
{
    let v = u32_from_be(b0, b1, b2, b3);
    assert(((v >> 24) & 0xff) as u8 == b0 && ((v >> 16) & 0xff) as u8 == b1 && ((v >> 8) & 0xff)
        as u8 == b2 && (v & 0xff) as u8 == b3) by (bit_vector)
        requires
            v == ((b0 as u32) << 24) | ((b1 as u32) << 16) | ((b2 as u32) << 8) | (b3 as u32),
    ;
    assert(u32_be_bytes(v) =~= seq![b0, b1, b2, b3]);
}

} // verus!
