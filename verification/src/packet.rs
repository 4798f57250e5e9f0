//! The packet: the unit that travels over the channel.
//!
//! On the wire a packet is a 32-bit slot tag, most significant byte first,
//! followed by the payload. Bit 31 of the tag is clear in a request and set
//! in a response; the low 31 bits are the slot id of the call.

use crate::bytes::{copy_of, lemma_u32_bytes_round_trip, push_bytes, push_u32, read_u32, tail_of};
use crate::bytes::{spec_u32_at, spec_u32_bytes};
use vstd::prelude::*;

verus! {

/// Bytes that the slot tag takes at the front of an encoded packet.
pub const SLOT_TAG_SIZE: usize = 4;

/// Bit 31 of a slot tag. Slot ids lie below it.
pub const RESPONSE_BIT: u32 = 0x8000_0000;

/// Whether `tag` marks a response.
pub open spec fn tag_is_response(tag: u32) -> bool {
    tag >= RESPONSE_BIT
}

/// The slot id in the low 31 bits of `tag`.
pub open spec fn tag_slot(tag: u32) -> u32 {
    if tag >= RESPONSE_BIT {
        (tag - RESPONSE_BIT) as u32
    } else {
        tag
    }
}

/// The tag of a request on slot `slot`.
pub open spec fn request_tag(slot: u32) -> u32
    recommends
        slot < RESPONSE_BIT,
{
    slot
}

/// The tag of a response on slot `slot`.
pub open spec fn response_tag(slot: u32) -> u32
    recommends
        slot < RESPONSE_BIT,
{
    (slot + RESPONSE_BIT) as u32
}

/// `tag` with its direction bit flipped and its slot id kept.
pub open spec fn flip_direction(tag: u32) -> u32 {
    if tag >= RESPONSE_BIT {
        (tag - RESPONSE_BIT) as u32
    } else {
        (tag + RESPONSE_BIT) as u32
    }
}

/// Identifies one call slot of a client. Always below `RESPONSE_BIT`.
#[derive(Clone, Copy, Debug)]
pub struct SlotId {
    raw: u32,
}

impl View for SlotId {
    type V = u32;

    closed spec fn view(&self) -> u32 {
        self.raw
    }
}

impl SlotId {
    #[verifier::type_invariant]
    spec fn fits_in_tag(self) -> bool {
        self.raw < RESPONSE_BIT
    }

    /// The slot id `raw`, if `raw` fits in 31 bits.
    pub fn new(raw: u32) -> (id: Option<SlotId>)
        ensures
            id is Some <==> raw < RESPONSE_BIT,
            id matches Some(s) ==> s@ == raw,
    {
        if raw < RESPONSE_BIT {
            Some(SlotId { raw })
        } else {
            None
        }
    }

    /// The id as a number.
    pub fn as_raw(&self) -> (raw: u32)
        ensures
            raw == self@,
            raw < RESPONSE_BIT,
    {
        proof {
            use_type_invariant(self);
        }
        self.raw
    }

    /// The id as an index into per-slot tables.
    pub fn as_usize(&self) -> (index: usize)
        ensures
            index == self@,
            index < RESPONSE_BIT,
    {
        proof {
            use_type_invariant(self);
        }
        self.raw as usize
    }

    /// The tag that a request on this slot carries.
    pub fn into_request(self) -> (tag: u32)
        ensures
            tag == request_tag(self@),
            !tag_is_response(tag),
            tag_slot(tag) == self@,
    {
        proof {
            use_type_invariant(self);
        }
        self.raw
    }

    /// The tag that a response on this slot carries.
    pub fn into_response(self) -> (tag: u32)
        ensures
            tag == response_tag(self@),
            tag_is_response(tag),
            tag_slot(tag) == self@,
    {
        proof {
            use_type_invariant(self);
        }
        self.raw + RESPONSE_BIT
    }
}

/// What a packet is: its tag and its payload.
pub struct PacketView {
    pub slot_tag: u32,
    pub payload: Seq<u8>,
}

impl PacketView {
    /// The slot id that the packet carries.
    pub open spec fn slot(self) -> u32 {
        tag_slot(self.slot_tag)
    }

    /// Whether the packet is a response.
    pub open spec fn is_response(self) -> bool {
        tag_is_response(self.slot_tag)
    }

    /// Whether the packet is a request.
    pub open spec fn is_request(self) -> bool {
        !tag_is_response(self.slot_tag)
    }
}

/// The bytes of `p` on the wire.
pub open spec fn spec_encode(p: PacketView) -> Seq<u8> {
    spec_u32_bytes(p.slot_tag) + p.payload
}

/// The packet that `bytes` hold, if they hold a whole slot tag.
pub open spec fn spec_decode(bytes: Seq<u8>) -> Option<PacketView> {
    if bytes.len() < SLOT_TAG_SIZE {
        None
    } else {
        Some(PacketView { slot_tag: spec_u32_at(bytes, 0), payload: bytes.skip(SLOT_TAG_SIZE as int) })
    }
}

/// The request that carries `payload` on slot `slot`.
pub open spec fn spec_request(slot: u32, payload: Seq<u8>) -> PacketView {
    PacketView { slot_tag: request_tag(slot), payload }
}

/// The response to `request` that carries `payload`: same slot id, direction
/// bit flipped.
pub open spec fn spec_response_to(request: PacketView, payload: Seq<u8>) -> PacketView {
    PacketView { slot_tag: flip_direction(request.slot_tag), payload }
}

/// A tagged payload.
#[derive(Debug)]
pub struct Packet {
    slot_tag: u32,
    payload: Vec<u8>,
}

impl View for Packet {
    type V = PacketView;

    closed spec fn view(&self) -> PacketView {
        PacketView { slot_tag: self.slot_tag, payload: self.payload@ }
    }
}

impl Packet {
    /// A packet with the given tag and payload.
    pub fn new(slot_tag: u32, payload: Vec<u8>) -> (p: Packet)
        ensures
            p@ == (PacketView { slot_tag, payload: payload@ }),
    {
        Packet { slot_tag, payload }
    }

    /// The request on `slot` that carries `payload`.
    pub fn new_request(slot: SlotId, payload: Vec<u8>) -> (p: Packet)
        ensures
            p@ == spec_request(slot@, payload@),
            p@.is_request(),
            p@.slot() == slot@,
    {
        Packet { slot_tag: slot.into_request(), payload }
    }

    /// An empty packet that answers `request`: it copies the slot id and
    /// flips the direction bit.
    pub fn new_response_from_request(request: &Packet) -> (p: Packet)
        ensures
            p@ == spec_response_to(request@, Seq::<u8>::empty()),
    {
        let tag: u32 = if request.slot_tag >= RESPONSE_BIT {
            request.slot_tag - RESPONSE_BIT
        } else {
            request.slot_tag + RESPONSE_BIT
        };
        Packet { slot_tag: tag, payload: Vec::new() }
    }

    /// The packet's tag.
    pub fn slot_tag(&self) -> (tag: u32)
        ensures
            tag == self@.slot_tag,
    {
        self.slot_tag
    }

    /// The slot id in the low 31 bits of the tag.
    pub fn slot(&self) -> (id: SlotId)
        ensures
            id@ == self@.slot(),
    {
        let raw: u32 = if self.slot_tag >= RESPONSE_BIT {
            self.slot_tag - RESPONSE_BIT
        } else {
            self.slot_tag
        };
        SlotId { raw }
    }

    /// Whether the packet is a request.
    pub fn is_request(&self) -> (yes: bool)
        ensures
            yes == self@.is_request(),
    {
        self.slot_tag < RESPONSE_BIT
    }

    /// Whether the packet is a response.
    pub fn is_response(&self) -> (yes: bool)
        ensures
            yes == self@.is_response(),
    {
        self.slot_tag >= RESPONSE_BIT
    }

    /// The payload.
    pub fn data(&self) -> (payload: &Vec<u8>)
        ensures
            payload@ == self@.payload,
    {
        &self.payload
    }

    /// Gives up the packet for its payload.
    pub fn into_data(self) -> (payload: Vec<u8>)
        ensures
            payload@ == self@.payload,
    {
        self.payload
    }

    /// Replaces the tag and keeps the payload.
    pub fn set_slot(&mut self, slot_tag: u32)
        ensures
            final(self)@ == (PacketView { slot_tag, payload: old(self)@.payload }),
    {
        self.slot_tag = slot_tag;
    }

    /// Appends `data` to the payload and keeps the tag.
    pub fn append_data(&mut self, data: &[u8])
        ensures
            final(self)@ == (PacketView {
                slot_tag: old(self)@.slot_tag,
                payload: old(self)@.payload + data@,
            }),
    {
        push_bytes(&mut self.payload, data);
    }

    /// A second packet with the same tag and payload.
    pub fn duplicate(&self) -> (p: Packet)
        ensures
            p@ == self@,
    {
        Packet { slot_tag: self.slot_tag, payload: copy_of(self.payload.as_slice()) }
    }

    /// The packet on the wire: the tag, most significant byte first, and the
    /// payload after it.
    pub fn encode(&self) -> (bytes: Vec<u8>)
        ensures
            bytes@ == spec_encode(self@),
    {
        let mut bytes: Vec<u8> = Vec::new();
        push_u32(&mut bytes, self.slot_tag);
        push_bytes(&mut bytes, self.payload.as_slice());
        bytes
    }

    /// Reads a packet off the wire. Any buffer that holds a whole tag is a
    /// packet; a shorter one is none.
    pub fn decode(bytes: &[u8]) -> (p: Option<Packet>)
        ensures
            p is Some <==> bytes@.len() >= SLOT_TAG_SIZE,
            match p {
                Some(packet) => spec_decode(bytes@) == Some(packet@),
                None => spec_decode(bytes@) is None,
            },
    {
        if bytes.len() < SLOT_TAG_SIZE {
            return None;
        }
        let slot_tag: u32 = read_u32(bytes, 0);
        let payload: Vec<u8> = tail_of(bytes, SLOT_TAG_SIZE);
        Some(Packet { slot_tag, payload })
    }
}

/// Decoding what was encoded gives the packet back.
pub proof fn lemma_decode_encode(p: PacketView)
    ensures
        spec_decode(spec_encode(p)) == Some(p),
{
    let bytes = spec_encode(p);
    lemma_u32_bytes_round_trip(p.slot_tag, bytes, 0);
    assert(bytes.skip(SLOT_TAG_SIZE as int) =~= p.payload);
    assert(spec_u32_at(bytes, 0) == spec_u32_at(spec_u32_bytes(p.slot_tag), 0));
}

/// Encoding what was decoded gives the bytes back.
pub proof fn lemma_encode_decode(bytes: Seq<u8>)
    requires
        bytes.len() >= SLOT_TAG_SIZE,
    ensures
        spec_decode(bytes) matches Some(p) && spec_encode(p) == bytes,
{
    lemma_u32_bytes_round_trip(0, bytes, 0);
    let p = spec_decode(bytes).unwrap();
    assert(spec_encode(p) =~= bytes);
}

/// A response built from a request is a response on the request's slot, and
/// flipping twice gives the tag back.
pub proof fn lemma_response_echoes_slot(request: PacketView, payload: Seq<u8>)
    ensures
        flip_direction(flip_direction(request.slot_tag)) == request.slot_tag,
        spec_response_to(request, payload).slot() == request.slot(),
        spec_response_to(request, payload).payload == payload,
        request.is_request() ==> spec_response_to(request, payload).is_response(),
        request.is_request() ==> spec_response_to(request, payload).slot_tag == response_tag(
            request.slot(),
        ),
{
}

} // verus!
