use crate::entity_map::{mapped_live, translate, translation, Entities, ServerEntityMap};
use vstd::prelude::*;

verus! {

/// The codec of one schema: the shape of its values and how they are laid out
/// on the wire.
#[derive(Clone, Copy, Debug, PartialEq, Eq, Structural)]
pub enum RuleFns {
    /// A tag without payload: encodes to no bytes.
    Tag,
    /// One unsigned 64-bit scalar: eight bytes, little endian.
    Scalar,
    /// One reference to an entity: its id in eight bytes, little endian,
    /// mapped to the local id space on decode.
    EntityRef,
}

/// A value of some schema.
#[derive(Clone, Copy, Debug, PartialEq, Eq, Structural)]
pub enum ComponentValue {
    Tag,
    Scalar(u64),
    Entity(u64),
}

/// The payload is malformed for the schema.
#[derive(Clone, Copy, Debug, PartialEq, Eq, Structural)]
pub enum DecodeError {
    /// The payload's length is not the schema's encoded length.
    WrongLength,
}

/// The values that a codec can carry.
pub open spec fn in_domain(rule: RuleFns, v: ComponentValue) -> bool {
    match (rule, v) {
        (RuleFns::Tag, ComponentValue::Tag) => true,
        (RuleFns::Scalar, ComponentValue::Scalar(_)) => true,
        (RuleFns::EntityRef, ComponentValue::Entity(_)) => true,
        _ => false,
    }
}

/// The eight little-endian bytes of `n`.
pub open spec fn le_bytes(n: u64) -> Seq<u8> {
    seq![
        n as u8,
        (n >> 8u64) as u8,
        (n >> 16u64) as u8,
        (n >> 24u64) as u8,
        (n >> 32u64) as u8,
        (n >> 40u64) as u8,
        (n >> 48u64) as u8,
        (n >> 56u64) as u8,
    ]
}

/// The number that eight little-endian bytes hold.
pub open spec fn le_value(b: Seq<u8>) -> u64
    recommends
        b.len() == 8,
{
    (b[0] as u64) | ((b[1] as u64) << 8u64) | ((b[2] as u64) << 16u64) | ((b[3] as u64) << 24u64)
        | ((b[4] as u64) << 32u64) | ((b[5] as u64) << 40u64) | ((b[6] as u64) << 48u64) | ((
    b[7] as u64) << 56u64)
}

/// The wire form of a value.
pub open spec fn encode(v: ComponentValue) -> Seq<u8> {
    match v {
        ComponentValue::Tag => Seq::empty(),
        ComponentValue::Scalar(n) => le_bytes(n),
        ComponentValue::Entity(e) => le_bytes(e),
    }
}

/// The value that a payload holds as the sender wrote it, entity references
/// still in the server's id space; `None` when the payload is malformed.
pub open spec fn wire_value(rule: RuleFns, b: Seq<u8>) -> Option<ComponentValue> {
    match rule {
        RuleFns::Tag => if b.len() == 0 {
            Some(ComponentValue::Tag)
        } else {
            None
        },
        RuleFns::Scalar => if b.len() == 8 {
            Some(ComponentValue::Scalar(le_value(b)))
        } else {
            None
        },
        RuleFns::EntityRef => if b.len() == 8 {
            Some(ComponentValue::Entity(le_value(b)))
        } else {
            None
        },
    }
}

/// A value with its entity reference, if any, mapped into the client's id
/// space; `fresh` is the id a placeholder would get.
pub open spec fn localized(v: ComponentValue, to_client: Map<u64, u64>, fresh: u64) -> ComponentValue {
    match v {
        ComponentValue::Entity(s) => ComponentValue::Entity(translation(to_client, s, fresh)),
        _ => v,
    }
}

/// What decoding `b` gives against the map `to_client`.
pub open spec fn decoded(rule: RuleFns, b: Seq<u8>, to_client: Map<u64, u64>, fresh: u64) -> Option<
    ComponentValue,
> {
    match wire_value(rule, b) {
        Some(v) => Some(localized(v, to_client, fresh)),
        None => None,
    }
}

/// Whether decoding `b` spawns a placeholder: an entity reference whose server
/// id the map does not hold yet.
pub open spec fn spawns_placeholder(rule: RuleFns, b: Seq<u8>, to_client: Map<u64, u64>) -> bool {
    rule == RuleFns::EntityRef && b.len() == 8 && !to_client.contains_key(le_value(b))
}

/// How decoding `b` changes the entity map and the entities: a placeholder is
/// spawned and mapped, or nothing changes.
pub open spec fn decode_effect(
    rule: RuleFns,
    b: Seq<u8>,
    map0: ServerEntityMap,
    ent0: Entities,
    map1: ServerEntityMap,
    ent1: Entities,
) -> bool {
    if spawns_placeholder(rule, b, map0.to_client()) {
        &&& ent1.live() == ent0.live().insert(ent0.next_id())
        &&& !ent0.live().contains(ent0.next_id())
        &&& ent1.next_id() == ent0.next_id() + 1
        &&& map1.to_client() == map0.to_client().insert(le_value(b), ent0.next_id())
        &&& map1.to_server() == map0.to_server().insert(ent0.next_id(), le_value(b))
    } else {
        map1 == map0 && ent1 == ent0
    }
}

pub proof fn lemma_le_round_trip(n: u64)
    ensures
        le_value(le_bytes(n)) == n,
{
    let b = le_bytes(n);
    let (b0, b1, b2, b3, b4, b5, b6, b7) = (b[0], b[1], b[2], b[3], b[4], b[5], b[6], b[7]);
    assert(((b0 as u64) | ((b1 as u64) << 8u64) | ((b2 as u64) << 16u64) | ((b3 as u64) << 24u64)
        | ((b4 as u64) << 32u64) | ((b5 as u64) << 40u64) | ((b6 as u64) << 48u64) | ((
    b7 as u64) << 56u64)) == n) by (bit_vector)
        requires
            b0 == n as u8,
            b1 == (n >> 8u64) as u8,
            b2 == (n >> 16u64) as u8,
            b3 == (n >> 24u64) as u8,
            b4 == (n >> 32u64) as u8,
            b5 == (n >> 40u64) as u8,
            b6 == (n >> 48u64) as u8,
            b7 == (n >> 56u64) as u8,
    ;
}

/// Decoding what was encoded gives the value back, with its entity reference,
/// if any, mapped into the client's id space.
pub proof fn lemma_round_trip(rule: RuleFns, v: ComponentValue, to_client: Map<u64, u64>, fresh: u64)
    requires
        in_domain(rule, v),
    ensures
        wire_value(rule, encode(v)) == Some(v),
        decoded(rule, encode(v), to_client, fresh) == Some(localized(v, to_client, fresh)),
{
    match v {
        ComponentValue::Scalar(n) => lemma_le_round_trip(n),
        ComponentValue::Entity(e) => lemma_le_round_trip(e),
        ComponentValue::Tag => {},
    }
}

/// Appends the eight little-endian bytes of `n`.
pub fn write_u64_le(n: u64, sink: &mut Vec<u8>)
    ensures
        final(sink)@ == old(sink)@ + le_bytes(n),
{
    sink.push(n as u8);
    sink.push((n >> 8u64) as u8);
    sink.push((n >> 16u64) as u8);
    sink.push((n >> 24u64) as u8);
    sink.push((n >> 32u64) as u8);
    sink.push((n >> 40u64) as u8);
    sink.push((n >> 48u64) as u8);
    sink.push((n >> 56u64) as u8);
    assert(sink@ =~= old(sink)@ + le_bytes(n));
}

/// Reads eight little-endian bytes.
pub fn read_u64_le(b: &[u8]) -> (r: u64)
    requires
        b@.len() == 8,
    ensures
        r == le_value(b@),
{
    (b[0] as u64) | ((b[1] as u64) << 8u64) | ((b[2] as u64) << 16u64) | ((b[3] as u64) << 24u64)
        | ((b[4] as u64) << 32u64) | ((b[5] as u64) << 40u64) | ((b[6] as u64) << 48u64) | ((
    b[7] as u64) << 56u64)
}

impl RuleFns {
    /// Appends the wire form of `value` to `sink`.
    pub fn serialize(&self, value: &ComponentValue, sink: &mut Vec<u8>)
        requires
            in_domain(*self, *value),
        ensures
            final(sink)@ == old(sink)@ + encode(*value),
    {
        match value {
            ComponentValue::Tag => {
                assert(sink@ =~= old(sink)@ + encode(*value));
            },
            ComponentValue::Scalar(n) => write_u64_le(*n, sink),
            ComponentValue::Entity(e) => write_u64_le(*e, sink),
        }
    }

    /// Decodes a whole payload. An entity reference is translated through the
    /// map, which spawns a placeholder for a server id it does not hold yet.
    /// A malformed payload leaves the map and the entities as they were.
    pub fn deserialize(
        &self,
        data: &[u8],
        map: &mut ServerEntityMap,
        entities: &mut Entities,
    ) -> (r: Result<ComponentValue, DecodeError>)
        requires
            old(map).wf(),
            old(entities).wf(),
            mapped_live(old(map), old(entities)),
            old(entities).next_id() < u64::MAX,
        ensures
            final(map).wf(),
            final(entities).wf(),
            mapped_live(final(map), final(entities)),
            match decoded(*self, data@, old(map).to_client(), old(entities).next_id()) {
                Some(v) => r == Ok::<ComponentValue, DecodeError>(v),
                None => r == Err::<ComponentValue, DecodeError>(DecodeError::WrongLength),
            },
            r.is_ok() ==> in_domain(*self, r.unwrap()),
            decode_effect(*self, data@, *old(map), *old(entities), *final(map), *final(entities)),
    {
        match self {
            RuleFns::Tag => {
                if data.len() == 0 {
                    Ok(ComponentValue::Tag)
                } else {
                    Err(DecodeError::WrongLength)
                }
            },
            RuleFns::Scalar => {
                if data.len() == 8 {
                    Ok(ComponentValue::Scalar(read_u64_le(data)))
                } else {
                    Err(DecodeError::WrongLength)
                }
            },
            RuleFns::EntityRef => {
                if data.len() == 8 {
                    let server = read_u64_le(data);
                    let client = translate(map, entities, server);
                    Ok(ComponentValue::Entity(client))
                } else {
                    Err(DecodeError::WrongLength)
                }
            },
        }
    }
}

} // verus!
