//! Map scenes: a grid with pinned level nodes and partitioned node pools.
//! The level-node instance is a closed ten-variant union whose tag order is
//! part of the wire contract: Enemy, TreasureChest, RecoverPoint,
//! ItemMerchant, CardMerchant, Unknown, Campsite, Barrier, StartingPoint,
//! TargetingPoint. The last three carry no payload: they still occupy a tag,
//! followed by a zero-length payload.

use vstd::prelude::*;

use crate::codec::{
    bool_byte, bool_cell, build_dynvec, byte_cell, byte_seqs, cell_max, encode_fixvec16,
    encode_pool, fixvec16_bytes, le16, lemma_dynvec_ge_part, pool_bytes, push_u32_cell,
    table_bytes, u16_cell, union_bytes, views, Encode, EncodeError,
};
use crate::json::{
    dec_pool_doc, dec_u8, decode_pool_doc, field_bool, field_rec, field_seq, field_u16,
    field_u16_vec, field_u8, fields_view, get_bool, get_rec, get_seq, get_u16, get_u16_vec,
    get_u8, get_field, json_doc, obj_get, parse_json, Decode, DecodeError, Json, JsonV,
};
use crate::types::{
    coordinate_bytes, dec_context, dec_size, encode_coordinate, encode_random_u8, encode_size,
    random_u8_bytes, size_bytes, context_bytes, Context, ContextV, Coordinate, GridSize, Random,
};

verus! {

/// An enemy encounter node: draw `count` enemies from `enemy_pool`.
#[derive(Clone, Debug, PartialEq, Eq)]
pub struct NodeEnemy {
    pub count: u8,
    pub enemy_pool: Vec<u16>,
}

/// The mathematical value of a `NodeEnemy`.
pub struct NodeEnemyV {
    pub count: u8,
    pub enemy_pool: Seq<u16>,
}

impl View for NodeEnemy {
    type V = NodeEnemyV;

    open spec fn view(&self) -> NodeEnemyV {
        NodeEnemyV { count: self.count, enemy_pool: self.enemy_pool@ }
    }
}

pub open spec fn node_enemy_bytes(n: NodeEnemyV) -> Seq<u8> {
    table_bytes(seq![seq![n.count], fixvec16_bytes(n.enemy_pool)])
}

impl Encode for NodeEnemy {
    open spec fn wire_bytes(v: NodeEnemyV) -> Seq<u8> {
        node_enemy_bytes(v)
    }

    fn encode(&self) -> (r: Result<Vec<u8>, EncodeError>) {
        let ghost goal = seq![seq![self.count], fixvec16_bytes(self.enemy_pool@)];
        let pool = match encode_fixvec16(&self.enemy_pool) {
            Ok(b) => b,
            Err(e) => {
                proof {
                    lemma_dynvec_ge_part(goal, 1);
                }
                return Err(e);
            },
        };
        let mut fields: Vec<Vec<u8>> = Vec::new();
        fields.push(byte_cell(self.count));
        fields.push(pool);
        proof {
            assert(byte_seqs(fields@) =~= goal);
        }
        build_dynvec(&fields)
    }
}

/// A treasure chest node: pick `pick` of `count` drawn items.
#[derive(Clone, Debug, PartialEq, Eq)]
pub struct NodeTreasureChest {
    pub pick: u8,
    pub count: u8,
    pub item_pool: Vec<u16>,
}

/// The mathematical value of a `NodeTreasureChest`.
pub struct NodeTreasureChestV {
    pub pick: u8,
    pub count: u8,
    pub item_pool: Seq<u16>,
}

impl View for NodeTreasureChest {
    type V = NodeTreasureChestV;

    open spec fn view(&self) -> NodeTreasureChestV {
        NodeTreasureChestV { pick: self.pick, count: self.count, item_pool: self.item_pool@ }
    }
}

pub open spec fn node_treasure_chest_bytes(n: NodeTreasureChestV) -> Seq<u8> {
    table_bytes(seq![seq![n.pick], seq![n.count], fixvec16_bytes(n.item_pool)])
}

impl Encode for NodeTreasureChest {
    open spec fn wire_bytes(v: NodeTreasureChestV) -> Seq<u8> {
        node_treasure_chest_bytes(v)
    }

    fn encode(&self) -> (r: Result<Vec<u8>, EncodeError>) {
        let ghost goal = seq![seq![self.pick], seq![self.count], fixvec16_bytes(self.item_pool@)];
        let pool = match encode_fixvec16(&self.item_pool) {
            Ok(b) => b,
            Err(e) => {
                proof {
                    lemma_dynvec_ge_part(goal, 2);
                }
                return Err(e);
            },
        };
        let mut fields: Vec<Vec<u8>> = Vec::new();
        fields.push(byte_cell(self.pick));
        fields.push(byte_cell(self.count));
        fields.push(pool);
        proof {
            assert(byte_seqs(fields@) =~= goal);
        }
        build_dynvec(&fields)
    }
}

/// An item merchant node: offer `count` items from `item_pool`.
#[derive(Clone, Debug, PartialEq, Eq)]
pub struct NodeItemMerchant {
    pub count: u8,
    pub item_pool: Vec<u16>,
}

/// The mathematical value of a `NodeItemMerchant`.
pub struct NodeItemMerchantV {
    pub count: u8,
    pub item_pool: Seq<u16>,
}

impl View for NodeItemMerchant {
    type V = NodeItemMerchantV;

    open spec fn view(&self) -> NodeItemMerchantV {
        NodeItemMerchantV { count: self.count, item_pool: self.item_pool@ }
    }
}

pub open spec fn node_item_merchant_bytes(n: NodeItemMerchantV) -> Seq<u8> {
    table_bytes(seq![seq![n.count], fixvec16_bytes(n.item_pool)])
}

impl Encode for NodeItemMerchant {
    open spec fn wire_bytes(v: NodeItemMerchantV) -> Seq<u8> {
        node_item_merchant_bytes(v)
    }

    fn encode(&self) -> (r: Result<Vec<u8>, EncodeError>) {
        let ghost goal = seq![seq![self.count], fixvec16_bytes(self.item_pool@)];
        let pool = match encode_fixvec16(&self.item_pool) {
            Ok(b) => b,
            Err(e) => {
                proof {
                    lemma_dynvec_ge_part(goal, 1);
                }
                return Err(e);
            },
        };
        let mut fields: Vec<Vec<u8>> = Vec::new();
        fields.push(byte_cell(self.count));
        fields.push(pool);
        proof {
            assert(byte_seqs(fields@) =~= goal);
        }
        build_dynvec(&fields)
    }
}

/// A card merchant node: offer `count` cards from `card_pool`.
#[derive(Clone, Debug, PartialEq, Eq)]
pub struct NodeCardMerchant {
    pub count: u8,
    pub card_pool: Vec<u16>,
}

/// The mathematical value of a `NodeCardMerchant`.
pub struct NodeCardMerchantV {
    pub count: u8,
    pub card_pool: Seq<u16>,
}

impl View for NodeCardMerchant {
    type V = NodeCardMerchantV;

    open spec fn view(&self) -> NodeCardMerchantV {
        NodeCardMerchantV { count: self.count, card_pool: self.card_pool@ }
    }
}

pub open spec fn node_card_merchant_bytes(n: NodeCardMerchantV) -> Seq<u8> {
    table_bytes(seq![seq![n.count], fixvec16_bytes(n.card_pool)])
}

impl Encode for NodeCardMerchant {
    open spec fn wire_bytes(v: NodeCardMerchantV) -> Seq<u8> {
        node_card_merchant_bytes(v)
    }

    fn encode(&self) -> (r: Result<Vec<u8>, EncodeError>) {
        let ghost goal = seq![seq![self.count], fixvec16_bytes(self.card_pool@)];
        let pool = match encode_fixvec16(&self.card_pool) {
            Ok(b) => b,
            Err(e) => {
                proof {
                    lemma_dynvec_ge_part(goal, 1);
                }
                return Err(e);
            },
        };
        let mut fields: Vec<Vec<u8>> = Vec::new();
        fields.push(byte_cell(self.count));
        fields.push(pool);
        proof {
            assert(byte_seqs(fields@) =~= goal);
        }
        build_dynvec(&fields)
    }
}

/// An unknown-event node: `count` draws from a pool of system invocations.
#[derive(Clone, Debug, PartialEq, Eq)]
pub struct NodeUnknown {
    pub count: u8,
    pub system_pool: Vec<Context>,
}

/// The mathematical value of a `NodeUnknown`.
pub struct NodeUnknownV {
    pub count: u8,
    pub system_pool: Seq<ContextV>,
}

impl View for NodeUnknown {
    type V = NodeUnknownV;

    open spec fn view(&self) -> NodeUnknownV {
        NodeUnknownV {
            count: self.count,
            system_pool: self.system_pool@.map_values(|c: Context| c@),
        }
    }
}

pub open spec fn node_unknown_bytes(n: NodeUnknownV) -> Seq<u8> {
    table_bytes(seq![seq![n.count], pool_bytes::<Context>(n.system_pool)])
}

impl Encode for NodeUnknown {
    open spec fn wire_bytes(v: NodeUnknownV) -> Seq<u8> {
        node_unknown_bytes(v)
    }

    fn encode(&self) -> (r: Result<Vec<u8>, EncodeError>) {
        let ghost goal = seq![
            seq![self.count],
            pool_bytes::<Context>(self.system_pool@.map_values(|c: Context| c@)),
        ];
        let pool = match encode_pool::<Context>(&self.system_pool) {
            Ok(b) => b,
            Err(e) => {
                proof {
                    assert(views(self.system_pool@) =~= self.system_pool@.map_values(
                        |c: Context| c@,
                    ));
                    lemma_dynvec_ge_part(goal, 1);
                }
                return Err(e);
            },
        };
        let mut fields: Vec<Vec<u8>> = Vec::new();
        fields.push(byte_cell(self.count));
        fields.push(pool);
        proof {
            assert(views(self.system_pool@) =~= self.system_pool@.map_values(|c: Context| c@));
            assert(byte_seqs(fields@) =~= goal);
        }
        build_dynvec(&fields)
    }
}

/// A `NodeEnemy` document: an object with a `count` number and an
/// `enemy_pool` array of numbers.
pub open spec fn dec_node_enemy(j: JsonV) -> Option<NodeEnemyV> {
    match j {
        JsonV::Obj(fields) => match (
            field_u8(fields, "count"@),
            field_u16_vec(fields, "enemy_pool"@),
        ) {
            (Option::Some(count), Option::Some(pool)) => Option::Some(
                (NodeEnemyV { count, enemy_pool: pool }),
            ),
            _ => Option::None,
        },
        _ => Option::None,
    }
}

impl Decode for NodeEnemy {
    open spec fn dec(j: JsonV) -> Option<NodeEnemyV> {
        dec_node_enemy(j)
    }

    fn from_json(j: &Json) -> (r: Result<NodeEnemy, DecodeError>) {
        match j {
            Json::Obj(fields) => {
                let count = match get_u8(fields, "count") {
                    Ok(v) => v,
                    Err(e) => {
                        return Err(e);
                    },
                };
                let enemy_pool = match get_u16_vec(fields, "enemy_pool") {
                    Ok(v) => v,
                    Err(e) => {
                        return Err(e);
                    },
                };
                Ok(NodeEnemy { count, enemy_pool })
            },
            _ => Err(DecodeError::ShapeMismatch),
        }
    }
}

/// A `NodeTreasureChest` document: an object with `pick` and `count`
/// numbers and an `item_pool` array of numbers.
pub open spec fn dec_node_treasure_chest(j: JsonV) -> Option<NodeTreasureChestV> {
    match j {
        JsonV::Obj(fields) => match (
            field_u8(fields, "pick"@),
            field_u8(fields, "count"@),
            field_u16_vec(fields, "item_pool"@),
        ) {
            (Option::Some(pick), Option::Some(count), Option::Some(pool)) => Option::Some(
                (NodeTreasureChestV { pick, count, item_pool: pool }),
            ),
            _ => Option::None,
        },
        _ => Option::None,
    }
}

impl Decode for NodeTreasureChest {
    open spec fn dec(j: JsonV) -> Option<NodeTreasureChestV> {
        dec_node_treasure_chest(j)
    }

    fn from_json(j: &Json) -> (r: Result<NodeTreasureChest, DecodeError>) {
        match j {
            Json::Obj(fields) => {
                let pick = match get_u8(fields, "pick") {
                    Ok(v) => v,
                    Err(e) => {
                        return Err(e);
                    },
                };
                let count = match get_u8(fields, "count") {
                    Ok(v) => v,
                    Err(e) => {
                        return Err(e);
                    },
                };
                let item_pool = match get_u16_vec(fields, "item_pool") {
                    Ok(v) => v,
                    Err(e) => {
                        return Err(e);
                    },
                };
                Ok(NodeTreasureChest { pick, count, item_pool })
            },
            _ => Err(DecodeError::ShapeMismatch),
        }
    }
}

/// A `NodeItemMerchant` document: an object with a `count` number and an
/// `item_pool` array of numbers.
pub open spec fn dec_node_item_merchant(j: JsonV) -> Option<NodeItemMerchantV> {
    match j {
        JsonV::Obj(fields) => match (
            field_u8(fields, "count"@),
            field_u16_vec(fields, "item_pool"@),
        ) {
            (Option::Some(count), Option::Some(pool)) => Option::Some(
                (NodeItemMerchantV { count, item_pool: pool }),
            ),
            _ => Option::None,
        },
        _ => Option::None,
    }
}

impl Decode for NodeItemMerchant {
    open spec fn dec(j: JsonV) -> Option<NodeItemMerchantV> {
        dec_node_item_merchant(j)
    }

    fn from_json(j: &Json) -> (r: Result<NodeItemMerchant, DecodeError>) {
        match j {
            Json::Obj(fields) => {
                let count = match get_u8(fields, "count") {
                    Ok(v) => v,
                    Err(e) => {
                        return Err(e);
                    },
                };
                let item_pool = match get_u16_vec(fields, "item_pool") {
                    Ok(v) => v,
                    Err(e) => {
                        return Err(e);
                    },
                };
                Ok(NodeItemMerchant { count, item_pool })
            },
            _ => Err(DecodeError::ShapeMismatch),
        }
    }
}

/// A `NodeCardMerchant` document: an object with a `count` number and a
/// `card_pool` array of numbers.
pub open spec fn dec_node_card_merchant(j: JsonV) -> Option<NodeCardMerchantV> {
    match j {
        JsonV::Obj(fields) => match (
            field_u8(fields, "count"@),
            field_u16_vec(fields, "card_pool"@),
        ) {
            (Option::Some(count), Option::Some(pool)) => Option::Some(
                (NodeCardMerchantV { count, card_pool: pool }),
            ),
            _ => Option::None,
        },
        _ => Option::None,
    }
}

impl Decode for NodeCardMerchant {
    open spec fn dec(j: JsonV) -> Option<NodeCardMerchantV> {
        dec_node_card_merchant(j)
    }

    fn from_json(j: &Json) -> (r: Result<NodeCardMerchant, DecodeError>) {
        match j {
            Json::Obj(fields) => {
                let count = match get_u8(fields, "count") {
                    Ok(v) => v,
                    Err(e) => {
                        return Err(e);
                    },
                };
                let card_pool = match get_u16_vec(fields, "card_pool") {
                    Ok(v) => v,
                    Err(e) => {
                        return Err(e);
                    },
                };
                Ok(NodeCardMerchant { count, card_pool })
            },
            _ => Err(DecodeError::ShapeMismatch),
        }
    }
}

/// A `NodeUnknown` document: an object with a `count` number and a
/// `system_pool` array of `Context` documents.
pub open spec fn dec_node_unknown(j: JsonV) -> Option<NodeUnknownV> {
    match j {
        JsonV::Obj(fields) => match (
            field_u8(fields, "count"@),
            field_seq::<Context>(fields, "system_pool"@),
        ) {
            (Option::Some(count), Option::Some(pool)) => Option::Some(
                (NodeUnknownV { count, system_pool: pool }),
            ),
            _ => Option::None,
        },
        _ => Option::None,
    }
}

impl Decode for NodeUnknown {
    open spec fn dec(j: JsonV) -> Option<NodeUnknownV> {
        dec_node_unknown(j)
    }

    fn from_json(j: &Json) -> (r: Result<NodeUnknown, DecodeError>) {
        match j {
            Json::Obj(fields) => {
                let count = match get_u8(fields, "count") {
                    Ok(v) => v,
                    Err(e) => {
                        return Err(e);
                    },
                };
                let system_pool = match get_seq::<Context>(fields, "system_pool") {
                    Ok(v) => v,
                    Err(e) => {
                        return Err(e);
                    },
                };
                proof {
                    assert(views(system_pool@) =~= system_pool@.map_values(|c: Context| c@));
                }
                Ok(NodeUnknown { count, system_pool })
            },
            _ => Err(DecodeError::ShapeMismatch),
        }
    }
}

/// What stands on a level node. The variant set is closed and each variant's
/// tag is fixed by its position in this declaration order.
#[derive(Clone, Debug, PartialEq, Eq)]
pub enum NodeInstance {
    Enemy(NodeEnemy),
    TreasureChest(NodeTreasureChest),
    RecoverPoint(u8),
    ItemMerchant(NodeItemMerchant),
    CardMerchant(NodeCardMerchant),
    Unknown(NodeUnknown),
    Campsite(Context),
    Barrier,
    StartingPoint,
    TargetingPoint,
}

/// The mathematical value of a `NodeInstance`.
pub enum NodeInstanceV {
    Enemy(NodeEnemyV),
    TreasureChest(NodeTreasureChestV),
    RecoverPoint(u8),
    ItemMerchant(NodeItemMerchantV),
    CardMerchant(NodeCardMerchantV),
    Unknown(NodeUnknownV),
    Campsite(ContextV),
    Barrier,
    StartingPoint,
    TargetingPoint,
}

impl View for NodeInstance {
    type V = NodeInstanceV;

    open spec fn view(&self) -> NodeInstanceV {
        match self {
            NodeInstance::Enemy(n) => NodeInstanceV::Enemy(n@),
            NodeInstance::TreasureChest(n) => NodeInstanceV::TreasureChest(n@),
            NodeInstance::RecoverPoint(hp) => NodeInstanceV::RecoverPoint(*hp),
            NodeInstance::ItemMerchant(n) => NodeInstanceV::ItemMerchant(n@),
            NodeInstance::CardMerchant(n) => NodeInstanceV::CardMerchant(n@),
            NodeInstance::Unknown(n) => NodeInstanceV::Unknown(n@),
            NodeInstance::Campsite(c) => NodeInstanceV::Campsite(c@),
            NodeInstance::Barrier => NodeInstanceV::Barrier,
            NodeInstance::StartingPoint => NodeInstanceV::StartingPoint,
            NodeInstance::TargetingPoint => NodeInstanceV::TargetingPoint,
        }
    }
}

/// The fixed union tag of each node instance variant.
pub open spec fn node_instance_tag(n: NodeInstanceV) -> int {
    match n {
        NodeInstanceV::Enemy(_) => 0,
        NodeInstanceV::TreasureChest(_) => 1,
        NodeInstanceV::RecoverPoint(_) => 2,
        NodeInstanceV::ItemMerchant(_) => 3,
        NodeInstanceV::CardMerchant(_) => 4,
        NodeInstanceV::Unknown(_) => 5,
        NodeInstanceV::Campsite(_) => 6,
        NodeInstanceV::Barrier => 7,
        NodeInstanceV::StartingPoint => 8,
        NodeInstanceV::TargetingPoint => 9,
    }
}

/// The payload of each node instance variant. A recover point is one byte; a
/// campsite wraps its invocation context as a one-field table; the three
/// payload-free variants have a zero-length payload.
pub open spec fn node_instance_payload(n: NodeInstanceV) -> Seq<u8> {
    match n {
        NodeInstanceV::Enemy(v) => node_enemy_bytes(v),
        NodeInstanceV::TreasureChest(v) => node_treasure_chest_bytes(v),
        NodeInstanceV::RecoverPoint(hp) => seq![hp],
        NodeInstanceV::ItemMerchant(v) => node_item_merchant_bytes(v),
        NodeInstanceV::CardMerchant(v) => node_card_merchant_bytes(v),
        NodeInstanceV::Unknown(v) => node_unknown_bytes(v),
        NodeInstanceV::Campsite(c) => table_bytes(seq![context_bytes(c)]),
        NodeInstanceV::Barrier => Seq::empty(),
        NodeInstanceV::StartingPoint => Seq::empty(),
        NodeInstanceV::TargetingPoint => Seq::empty(),
    }
}

/// A `NodeInstance` as a tagged union: its fixed tag, then its payload.
pub open spec fn node_instance_bytes(n: NodeInstanceV) -> Seq<u8> {
    union_bytes(node_instance_tag(n), node_instance_payload(n))
}

/// Union tag stability: every node instance variant always encodes with the
/// same fixed tag in its first four bytes, across any two compiles; the
/// three payload-free variants are exactly their tag with a zero-length
/// payload.
pub proof fn lemma_node_instance_tag_stable(n: NodeInstanceV)
    ensures
        node_instance_bytes(n).len() >= 4,
        node_instance_bytes(n).subrange(0, 4) == crate::codec::le32(node_instance_tag(n)),
        (n is Barrier || n is StartingPoint || n is TargetingPoint) ==> node_instance_bytes(
            n,
        ).len() == 4,
{
    assert(node_instance_bytes(n).subrange(0, 4) =~= crate::codec::le32(node_instance_tag(n)));
}

/// A `NodeInstance` document is discriminated by a tag string from the
/// closed set below, either the variant name or its lower-case alias. A
/// payload-free variant is a bare tag string, or an object mapping the tag
/// to `null`; a payload-carrying variant is an object with exactly one
/// field mapping the tag to the payload. Any other tag is rejected.
pub open spec fn dec_node_instance(j: JsonV) -> Option<NodeInstanceV> {
    match j {
        JsonV::Text(s) => if s == "Barrier"@ || s == "barrier"@ {
            Option::Some(NodeInstanceV::Barrier)
        } else if s == "StartingPoint"@ || s == "starting_point"@ {
            Option::Some(NodeInstanceV::StartingPoint)
        } else if s == "TargetingPoint"@ || s == "targeting_point"@ {
            Option::Some(NodeInstanceV::TargetingPoint)
        } else {
            Option::None
        },
        JsonV::Obj(fields) => if fields.len() == 1 {
            dec_tagged_instance(fields[0].0, fields[0].1)
        } else {
            Option::None
        },
        _ => Option::None,
    }
}

/// One tagged `NodeInstance` variant: the tag names the variant, the value
/// is its payload.
pub open spec fn dec_tagged_instance(tag: Seq<char>, payload: JsonV) -> Option<
    NodeInstanceV,
> {
    if tag == "Enemy"@ || tag == "enemy"@ {
        match dec_node_enemy(payload) {
            Option::Some(v) => Option::Some(NodeInstanceV::Enemy(v)),
            Option::None => Option::None,
        }
    } else if tag == "TreasureChest"@ || tag == "treasure_chest"@ {
        match dec_node_treasure_chest(payload) {
            Option::Some(v) => Option::Some(NodeInstanceV::TreasureChest(v)),
            Option::None => Option::None,
        }
    } else if tag == "RecoverPoint"@ || tag == "recover_point"@ {
        match dec_u8(payload) {
            Option::Some(hp) => Option::Some(NodeInstanceV::RecoverPoint(hp)),
            Option::None => Option::None,
        }
    } else if tag == "ItemMerchant"@ || tag == "item_merchant"@ {
        match dec_node_item_merchant(payload) {
            Option::Some(v) => Option::Some(NodeInstanceV::ItemMerchant(v)),
            Option::None => Option::None,
        }
    } else if tag == "CardMerchant"@ || tag == "card_merchant"@ {
        match dec_node_card_merchant(payload) {
            Option::Some(v) => Option::Some(NodeInstanceV::CardMerchant(v)),
            Option::None => Option::None,
        }
    } else if tag == "Unknown"@ || tag == "unknown"@ {
        match dec_node_unknown(payload) {
            Option::Some(v) => Option::Some(NodeInstanceV::Unknown(v)),
            Option::None => Option::None,
        }
    } else if tag == "Campsite"@ || tag == "campsite"@ {
        match dec_context(payload) {
            Option::Some(c) => Option::Some(NodeInstanceV::Campsite(c)),
            Option::None => Option::None,
        }
    } else if tag == "Barrier"@ || tag == "barrier"@ {
        if payload is Null {
            Option::Some(NodeInstanceV::Barrier)
        } else {
            Option::None
        }
    } else if tag == "StartingPoint"@ || tag == "starting_point"@ {
        if payload is Null {
            Option::Some(NodeInstanceV::StartingPoint)
        } else {
            Option::None
        }
    } else if tag == "TargetingPoint"@ || tag == "targeting_point"@ {
        if payload is Null {
            Option::Some(NodeInstanceV::TargetingPoint)
        } else {
            Option::None
        }
    } else {
        Option::None
    }
}

impl Decode for NodeInstance {
    open spec fn dec(j: JsonV) -> Option<NodeInstanceV> {
        dec_node_instance(j)
    }

    fn from_json(j: &Json) -> (r: Result<NodeInstance, DecodeError>) {
        match j {
            Json::Text(s) => {
                if *s == "Barrier".to_owned() || *s == "barrier".to_owned() {
                    Ok(NodeInstance::Barrier)
                } else if *s == "StartingPoint".to_owned() || *s == "starting_point".to_owned() {
                    Ok(NodeInstance::StartingPoint)
                } else if *s == "TargetingPoint".to_owned() || *s == "targeting_point".to_owned() {
                    Ok(NodeInstance::TargetingPoint)
                } else {
                    Err(DecodeError::ShapeMismatch)
                }
            },
            Json::Obj(fields) => {
                if fields.len() != 1 {
                    proof {
                        assert(fields_view(fields@).len() == fields@.len());
                    }
                    return Err(DecodeError::ShapeMismatch);
                }
                let pair = &fields[0];
                proof {
                    assert(fields_view(fields@)[0] == (fields@[0].0@, fields@[0].1@));
                }
                let tag = &pair.0;
                let payload = &pair.1;
                if *tag == "Enemy".to_owned() || *tag == "enemy".to_owned() {
                    match NodeEnemy::from_json(payload) {
                        Ok(v) => Ok(NodeInstance::Enemy(v)),
                        Err(e) => Err(e),
                    }
                } else if *tag == "TreasureChest".to_owned() || *tag
                    == "treasure_chest".to_owned() {
                    match NodeTreasureChest::from_json(payload) {
                        Ok(v) => Ok(NodeInstance::TreasureChest(v)),
                        Err(e) => Err(e),
                    }
                } else if *tag == "RecoverPoint".to_owned() || *tag
                    == "recover_point".to_owned() {
                    match payload {
                        Json::Num(n) => {
                            if *n <= 0xff {
                                Ok(NodeInstance::RecoverPoint(*n as u8))
                            } else {
                                Err(DecodeError::ShapeMismatch)
                            }
                        },
                        _ => Err(DecodeError::ShapeMismatch),
                    }
                } else if *tag == "ItemMerchant".to_owned() || *tag
                    == "item_merchant".to_owned() {
                    match NodeItemMerchant::from_json(payload) {
                        Ok(v) => Ok(NodeInstance::ItemMerchant(v)),
                        Err(e) => Err(e),
                    }
                } else if *tag == "CardMerchant".to_owned() || *tag
                    == "card_merchant".to_owned() {
                    match NodeCardMerchant::from_json(payload) {
                        Ok(v) => Ok(NodeInstance::CardMerchant(v)),
                        Err(e) => Err(e),
                    }
                } else if *tag == "Unknown".to_owned() || *tag == "unknown".to_owned() {
                    match NodeUnknown::from_json(payload) {
                        Ok(v) => Ok(NodeInstance::Unknown(v)),
                        Err(e) => Err(e),
                    }
                } else if *tag == "Campsite".to_owned() || *tag == "campsite".to_owned() {
                    match Context::from_json(payload) {
                        Ok(c) => Ok(NodeInstance::Campsite(c)),
                        Err(e) => Err(e),
                    }
                } else if *tag == "Barrier".to_owned() || *tag == "barrier".to_owned() {
                    match payload {
                        Json::Null => Ok(NodeInstance::Barrier),
                        _ => Err(DecodeError::ShapeMismatch),
                    }
                } else if *tag == "StartingPoint".to_owned() || *tag
                    == "starting_point".to_owned() {
                    match payload {
                        Json::Null => Ok(NodeInstance::StartingPoint),
                        _ => Err(DecodeError::ShapeMismatch),
                    }
                } else if *tag == "TargetingPoint".to_owned() || *tag
                    == "targeting_point".to_owned() {
                    match payload {
                        Json::Null => Ok(NodeInstance::TargetingPoint),
                        _ => Err(DecodeError::ShapeMismatch),
                    }
                } else {
                    Err(DecodeError::ShapeMismatch)
                }
            },
            _ => Err(DecodeError::ShapeMismatch),
        }
    }
}

/// Prefix a payload with its union tag; fails exactly when the tagged whole
/// would not fit a 32-bit size cell.
fn tag_payload(tag: u32, payload: Vec<u8>) -> (r: Result<Vec<u8>, EncodeError>)
    ensures
        (match r {
            Ok(b) => b@ == union_bytes(tag as int, payload@) && b@.len() <= cell_max(),
            Err(_) => union_bytes(tag as int, payload@).len() > cell_max(),
        }),
{
    if payload.len() > 0xffff_fffb {
        return Err(EncodeError::TooLarge);
    }
    let mut out: Vec<u8> = Vec::new();
    push_u32_cell(&mut out, tag);
    let mut body = payload;
    out.append(&mut body);
    proof {
        assert(out@ =~= union_bytes(tag as int, payload@));
    }
    Ok(out)
}

impl Encode for NodeInstance {
    open spec fn wire_bytes(v: NodeInstanceV) -> Seq<u8> {
        node_instance_bytes(v)
    }

    fn encode(&self) -> (r: Result<Vec<u8>, EncodeError>) {
        match self {
            NodeInstance::Enemy(n) => {
                let body = match n.encode() {
                    Ok(b) => b,
                    Err(e) => {
                        return Err(e);
                    },
                };
                tag_payload(0, body)
            },
            NodeInstance::TreasureChest(n) => {
                let body = match n.encode() {
                    Ok(b) => b,
                    Err(e) => {
                        return Err(e);
                    },
                };
                tag_payload(1, body)
            },
            NodeInstance::RecoverPoint(hp) => tag_payload(2, byte_cell(*hp)),
            NodeInstance::ItemMerchant(n) => {
                let body = match n.encode() {
                    Ok(b) => b,
                    Err(e) => {
                        return Err(e);
                    },
                };
                tag_payload(3, body)
            },
            NodeInstance::CardMerchant(n) => {
                let body = match n.encode() {
                    Ok(b) => b,
                    Err(e) => {
                        return Err(e);
                    },
                };
                tag_payload(4, body)
            },
            NodeInstance::Unknown(n) => {
                let body = match n.encode() {
                    Ok(b) => b,
                    Err(e) => {
                        return Err(e);
                    },
                };
                tag_payload(5, body)
            },
            NodeInstance::Campsite(c) => {
                let ghost goal = seq![context_bytes(c@)];
                let inner = match c.encode() {
                    Ok(b) => b,
                    Err(e) => {
                        proof {
                            lemma_dynvec_ge_part(goal, 0);
                        }
                        return Err(e);
                    },
                };
                let mut fields: Vec<Vec<u8>> = Vec::new();
                fields.push(inner);
                proof {
                    assert(byte_seqs(fields@) =~= goal);
                }
                let body = match build_dynvec(&fields) {
                    Ok(b) => b,
                    Err(e) => {
                        return Err(e);
                    },
                };
                tag_payload(6, body)
            },
            NodeInstance::Barrier => tag_payload(7, Vec::new()),
            NodeInstance::StartingPoint => tag_payload(8, Vec::new()),
            NodeInstance::TargetingPoint => tag_payload(9, Vec::new()),
        }
    }
}

/// One level node: its visibility flag, its grid extent (defaulting to
/// `{0, 0}` when the document omits it), and what stands on it.
#[derive(Clone, Debug, PartialEq, Eq)]
pub struct LevelNode {
    pub visible: bool,
    pub size: GridSize,
    pub instance: NodeInstance,
}

/// The mathematical value of a `LevelNode`.
pub struct LevelNodeV {
    pub visible: bool,
    pub size: GridSize,
    pub instance: NodeInstanceV,
}

impl View for LevelNode {
    type V = LevelNodeV;

    open spec fn view(&self) -> LevelNodeV {
        LevelNodeV { visible: self.visible, size: self.size, instance: self.instance@ }
    }
}

/// A `LevelNode` as a table: visibility, size, then the node instance union,
/// in that fixed field order.
pub open spec fn level_node_bytes(n: LevelNodeV) -> Seq<u8> {
    table_bytes(
        seq![seq![bool_byte(n.visible)], size_bytes(n.size), node_instance_bytes(n.instance)],
    )
}

impl Encode for LevelNode {
    open spec fn wire_bytes(v: LevelNodeV) -> Seq<u8> {
        level_node_bytes(v)
    }

    fn encode(&self) -> (r: Result<Vec<u8>, EncodeError>) {
        let ghost goal = seq![
            seq![bool_byte(self.visible)],
            size_bytes(self.size),
            node_instance_bytes(self.instance@),
        ];
        let node = match self.instance.encode() {
            Ok(b) => b,
            Err(e) => {
                proof {
                    lemma_dynvec_ge_part(goal, 2);
                }
                return Err(e);
            },
        };
        let mut fields: Vec<Vec<u8>> = Vec::new();
        fields.push(bool_cell(self.visible));
        fields.push(encode_size(&self.size));
        fields.push(node);
        proof {
            assert(byte_seqs(fields@) =~= goal);
        }
        build_dynvec(&fields)
    }
}

/// A level node pinned to an exact grid cell.
#[derive(Clone, Debug, PartialEq, Eq)]
pub struct FixedLevelNode {
    pub point: Coordinate,
    pub node: LevelNode,
}

/// The mathematical value of a `FixedLevelNode`.
pub struct FixedLevelNodeV {
    pub point: Coordinate,
    pub node: LevelNodeV,
}

impl View for FixedLevelNode {
    type V = FixedLevelNodeV;

    open spec fn view(&self) -> FixedLevelNodeV {
        FixedLevelNodeV { point: self.point, node: self.node@ }
    }
}

/// A `FixedLevelNode` as a table: the grid cell, then the node.
pub open spec fn fixed_level_node_bytes(n: FixedLevelNodeV) -> Seq<u8> {
    table_bytes(seq![coordinate_bytes(n.point), level_node_bytes(n.node)])
}

impl Encode for FixedLevelNode {
    open spec fn wire_bytes(v: FixedLevelNodeV) -> Seq<u8> {
        fixed_level_node_bytes(v)
    }

    fn encode(&self) -> (r: Result<Vec<u8>, EncodeError>) {
        let ghost goal = seq![coordinate_bytes(self.point), level_node_bytes(self.node@)];
        let node = match self.node.encode() {
            Ok(b) => b,
            Err(e) => {
                proof {
                    lemma_dynvec_ge_part(goal, 1);
                }
                return Err(e);
            },
        };
        let mut fields: Vec<Vec<u8>> = Vec::new();
        fields.push(encode_coordinate(&self.point));
        fields.push(node);
        proof {
            assert(byte_seqs(fields@) =~= goal);
        }
        build_dynvec(&fields)
    }
}

/// A region of the scene from which `count` nodes are drawn at runtime.
#[derive(Clone, Debug, PartialEq, Eq)]
pub struct ScenePartition {
    pub start_point: Coordinate,
    pub end_point: Coordinate,
    pub count: Random<u8>,
    pub node_pool: Vec<LevelNode>,
}

/// The mathematical value of a `ScenePartition`.
pub struct ScenePartitionV {
    pub start_point: Coordinate,
    pub end_point: Coordinate,
    pub count: Random<u8>,
    pub node_pool: Seq<LevelNodeV>,
}

impl View for ScenePartition {
    type V = ScenePartitionV;

    open spec fn view(&self) -> ScenePartitionV {
        ScenePartitionV {
            start_point: self.start_point,
            end_point: self.end_point,
            count: self.count,
            node_pool: self.node_pool@.map_values(|n: LevelNode| n@),
        }
    }
}

/// A `ScenePartition` as a table: both corner cells, the draw-count range,
/// then the node vector, in that fixed field order.
pub open spec fn scene_partition_bytes(p: ScenePartitionV) -> Seq<u8> {
    table_bytes(
        seq![
            coordinate_bytes(p.start_point),
            coordinate_bytes(p.end_point),
            random_u8_bytes(p.count),
            pool_bytes::<LevelNode>(p.node_pool),
        ],
    )
}

impl Encode for ScenePartition {
    open spec fn wire_bytes(v: ScenePartitionV) -> Seq<u8> {
        scene_partition_bytes(v)
    }

    fn encode(&self) -> (r: Result<Vec<u8>, EncodeError>) {
        let ghost goal = seq![
            coordinate_bytes(self.start_point),
            coordinate_bytes(self.end_point),
            random_u8_bytes(self.count),
            pool_bytes::<LevelNode>(self.node_pool@.map_values(|n: LevelNode| n@)),
        ];
        let nodes = match encode_pool::<LevelNode>(&self.node_pool) {
            Ok(b) => b,
            Err(e) => {
                proof {
                    assert(views(self.node_pool@) =~= self.node_pool@.map_values(
                        |n: LevelNode| n@,
                    ));
                    lemma_dynvec_ge_part(goal, 3);
                }
                return Err(e);
            },
        };
        let mut fields: Vec<Vec<u8>> = Vec::new();
        fields.push(encode_coordinate(&self.start_point));
        fields.push(encode_coordinate(&self.end_point));
        fields.push(encode_random_u8(&self.count));
        fields.push(nodes);
        proof {
            assert(views(self.node_pool@) =~= self.node_pool@.map_values(|n: LevelNode| n@));
            assert(byte_seqs(fields@) =~= goal);
        }
        build_dynvec(&fields)
    }
}

/// A map scene: grid width and height, the nodes pinned to exact cells, and
/// the partitioned node pools.
#[derive(Clone, Debug, PartialEq, Eq)]
pub struct Scene {
    pub id: u16,
    pub width: u8,
    pub height: u8,
    pub fixed_nodes: Vec<FixedLevelNode>,
    pub partition_list: Vec<ScenePartition>,
}

/// The mathematical value of a `Scene`.
pub struct SceneV {
    pub id: u16,
    pub width: u8,
    pub height: u8,
    pub fixed_nodes: Seq<FixedLevelNodeV>,
    pub partition_list: Seq<ScenePartitionV>,
}

impl View for Scene {
    type V = SceneV;

    open spec fn view(&self) -> SceneV {
        SceneV {
            id: self.id,
            width: self.width,
            height: self.height,
            fixed_nodes: self.fixed_nodes@.map_values(|n: FixedLevelNode| n@),
            partition_list: self.partition_list@.map_values(|p: ScenePartition| p@),
        }
    }
}

/// A `Scene` as a table: id, width, height, the pinned node vector, then the
/// partition vector, in that fixed field order.
pub open spec fn scene_bytes(s: SceneV) -> Seq<u8> {
    table_bytes(
        seq![
            le16(s.id as int),
            seq![s.width],
            seq![s.height],
            pool_bytes::<FixedLevelNode>(s.fixed_nodes),
            pool_bytes::<ScenePartition>(s.partition_list),
        ],
    )
}

impl Encode for Scene {
    open spec fn wire_bytes(v: SceneV) -> Seq<u8> {
        scene_bytes(v)
    }

    fn encode(&self) -> (r: Result<Vec<u8>, EncodeError>) {
        let ghost goal = seq![
            le16(self.id as int),
            seq![self.width],
            seq![self.height],
            pool_bytes::<FixedLevelNode>(self.fixed_nodes@.map_values(|n: FixedLevelNode| n@)),
            pool_bytes::<ScenePartition>(self.partition_list@.map_values(|p: ScenePartition| p@)),
        ];
        let fixed = match encode_pool::<FixedLevelNode>(&self.fixed_nodes) {
            Ok(b) => b,
            Err(e) => {
                proof {
                    assert(views(self.fixed_nodes@) =~= self.fixed_nodes@.map_values(
                        |n: FixedLevelNode| n@,
                    ));
                    lemma_dynvec_ge_part(goal, 3);
                }
                return Err(e);
            },
        };
        let partitions = match encode_pool::<ScenePartition>(&self.partition_list) {
            Ok(b) => b,
            Err(e) => {
                proof {
                    assert(views(self.partition_list@) =~= self.partition_list@.map_values(
                        |p: ScenePartition| p@,
                    ));
                    lemma_dynvec_ge_part(goal, 4);
                }
                return Err(e);
            },
        };
        let mut fields: Vec<Vec<u8>> = Vec::new();
        fields.push(u16_cell(self.id));
        fields.push(byte_cell(self.width));
        fields.push(byte_cell(self.height));
        fields.push(fixed);
        fields.push(partitions);
        proof {
            assert(views(self.fixed_nodes@) =~= self.fixed_nodes@.map_values(
                |n: FixedLevelNode| n@,
            ));
            assert(views(self.partition_list@) =~= self.partition_list@.map_values(
                |p: ScenePartition| p@,
            ));
            assert(byte_seqs(fields@) =~= goal);
        }
        build_dynvec(&fields)
    }
}

/// A `LevelNode` document: an object with a `visible` boolean, an optional
/// `size` extent defaulting to `{0, 0}`, and an `instance` node document.
pub open spec fn dec_level_node(j: JsonV) -> Option<LevelNodeV> {
    match j {
        JsonV::Obj(fields) => {
            let size = match obj_get(fields, "size"@) {
                Option::None => Option::Some((GridSize { x: 0u8, y: 0u8 })),
                Option::Some(sj) => dec_size(sj),
            };
            match (field_bool(fields, "visible"@), size, field_rec::<NodeInstance>(
                fields,
                "instance"@,
            )) {
                (Option::Some(visible), Option::Some(sz), Option::Some(instance)) =>
                    Option::Some((LevelNodeV { visible, size: sz, instance })),
                _ => Option::None,
            }
        },
        _ => Option::None,
    }
}

impl Decode for LevelNode {
    open spec fn dec(j: JsonV) -> Option<LevelNodeV> {
        dec_level_node(j)
    }

    fn from_json(j: &Json) -> (r: Result<LevelNode, DecodeError>) {
        match j {
            Json::Obj(fields) => {
                let visible = match get_bool(fields, "visible") {
                    Ok(v) => v,
                    Err(e) => {
                        return Err(e);
                    },
                };
                let size = match get_field(fields, "size") {
                    None => GridSize { x: 0, y: 0 },
                    Some(sj) => match GridSize::from_json(sj) {
                        Ok(v) => v,
                        Err(e) => {
                            return Err(e);
                        },
                    },
                };
                let instance = match get_rec::<NodeInstance>(fields, "instance") {
                    Ok(v) => v,
                    Err(e) => {
                        return Err(e);
                    },
                };
                Ok(LevelNode { visible, size, instance })
            },
            _ => Err(DecodeError::ShapeMismatch),
        }
    }
}

/// A `FixedLevelNode` document: an object with a `point` coordinate and a
/// `node` level-node document.
pub open spec fn dec_fixed_level_node(j: JsonV) -> Option<FixedLevelNodeV> {
    match j {
        JsonV::Obj(fields) => match (
            field_rec::<Coordinate>(fields, "point"@),
            field_rec::<LevelNode>(fields, "node"@),
        ) {
            (Option::Some(point), Option::Some(node)) => Option::Some(
                (FixedLevelNodeV { point, node }),
            ),
            _ => Option::None,
        },
        _ => Option::None,
    }
}

impl Decode for FixedLevelNode {
    open spec fn dec(j: JsonV) -> Option<FixedLevelNodeV> {
        dec_fixed_level_node(j)
    }

    fn from_json(j: &Json) -> (r: Result<FixedLevelNode, DecodeError>) {
        match j {
            Json::Obj(fields) => {
                let point = match get_rec::<Coordinate>(fields, "point") {
                    Ok(v) => v,
                    Err(e) => {
                        return Err(e);
                    },
                };
                let node = match get_rec::<LevelNode>(fields, "node") {
                    Ok(v) => v,
                    Err(e) => {
                        return Err(e);
                    },
                };
                Ok(FixedLevelNode { point, node })
            },
            _ => Err(DecodeError::ShapeMismatch),
        }
    }
}

/// A `ScenePartition` document: an object with `start_point` and
/// `end_point` coordinates, a `count` 8-bit range and a `node_pool` array
/// of level-node documents.
pub open spec fn dec_scene_partition(j: JsonV) -> Option<ScenePartitionV> {
    match j {
        JsonV::Obj(fields) => match (
            field_rec::<Coordinate>(fields, "start_point"@),
            field_rec::<Coordinate>(fields, "end_point"@),
            field_rec::<Random<u8>>(fields, "count"@),
            field_seq::<LevelNode>(fields, "node_pool"@),
        ) {
            (
                Option::Some(start_point),
                Option::Some(end_point),
                Option::Some(count),
                Option::Some(pool),
            ) => Option::Some(
                (ScenePartitionV { start_point, end_point, count, node_pool: pool }),
            ),
            _ => Option::None,
        },
        _ => Option::None,
    }
}

impl Decode for ScenePartition {
    open spec fn dec(j: JsonV) -> Option<ScenePartitionV> {
        dec_scene_partition(j)
    }

    fn from_json(j: &Json) -> (r: Result<ScenePartition, DecodeError>) {
        match j {
            Json::Obj(fields) => {
                let start_point = match get_rec::<Coordinate>(fields, "start_point") {
                    Ok(v) => v,
                    Err(e) => {
                        return Err(e);
                    },
                };
                let end_point = match get_rec::<Coordinate>(fields, "end_point") {
                    Ok(v) => v,
                    Err(e) => {
                        return Err(e);
                    },
                };
                let count = match get_rec::<Random<u8>>(fields, "count") {
                    Ok(v) => v,
                    Err(e) => {
                        return Err(e);
                    },
                };
                let node_pool = match get_seq::<LevelNode>(fields, "node_pool") {
                    Ok(v) => v,
                    Err(e) => {
                        return Err(e);
                    },
                };
                proof {
                    assert(views(node_pool@) =~= node_pool@.map_values(|n: LevelNode| n@));
                }
                Ok(ScenePartition { start_point, end_point, count, node_pool })
            },
            _ => Err(DecodeError::ShapeMismatch),
        }
    }
}

/// A `Scene` document: an object with `id`, `width` and `height` numbers, a
/// `fixed_nodes` array of pinned nodes and a `partition_list` array of
/// partitions.
pub open spec fn dec_scene(j: JsonV) -> Option<SceneV> {
    match j {
        JsonV::Obj(fields) => match (
            field_u16(fields, "id"@),
            field_u8(fields, "width"@),
            field_u8(fields, "height"@),
            field_seq::<FixedLevelNode>(fields, "fixed_nodes"@),
            field_seq::<ScenePartition>(fields, "partition_list"@),
        ) {
            (
                Option::Some(id),
                Option::Some(width),
                Option::Some(height),
                Option::Some(fixed),
                Option::Some(partitions),
            ) => Option::Some(
                (SceneV { id, width, height, fixed_nodes: fixed, partition_list: partitions }),
            ),
            _ => Option::None,
        },
        _ => Option::None,
    }
}

impl Decode for Scene {
    open spec fn dec(j: JsonV) -> Option<SceneV> {
        dec_scene(j)
    }

    fn from_json(j: &Json) -> (r: Result<Scene, DecodeError>) {
        match j {
            Json::Obj(fields) => {
                let id = match get_u16(fields, "id") {
                    Ok(v) => v,
                    Err(e) => {
                        return Err(e);
                    },
                };
                let width = match get_u8(fields, "width") {
                    Ok(v) => v,
                    Err(e) => {
                        return Err(e);
                    },
                };
                let height = match get_u8(fields, "height") {
                    Ok(v) => v,
                    Err(e) => {
                        return Err(e);
                    },
                };
                let fixed_nodes = match get_seq::<FixedLevelNode>(fields, "fixed_nodes") {
                    Ok(v) => v,
                    Err(e) => {
                        return Err(e);
                    },
                };
                let partition_list = match get_seq::<ScenePartition>(fields, "partition_list") {
                    Ok(v) => v,
                    Err(e) => {
                        return Err(e);
                    },
                };
                proof {
                    assert(views(fixed_nodes@) =~= fixed_nodes@.map_values(
                        |n: FixedLevelNode| n@,
                    ));
                    assert(views(partition_list@) =~= partition_list@.map_values(
                        |p: ScenePartition| p@,
                    ));
                }
                Ok(Scene { id, width, height, fixed_nodes, partition_list })
            },
            _ => Err(DecodeError::ShapeMismatch),
        }
    }
}

/// A scene pool document: a bare record array, or the array under `scene_pool` or its alias
/// `scenes`.
pub open spec fn dec_scene_pool(doc: JsonV) -> Option<Seq<SceneV>> {
    dec_pool_doc::<Scene>(doc, "scene_pool"@, "scenes"@)
}

/// What a scene pool document text decodes to.
pub open spec fn scene_pool_of_text(text: Seq<char>) -> Option<Seq<SceneV>> {
    match json_doc(text) {
        Option::Some(doc) => dec_scene_pool(doc),
        Option::None => Option::None,
    }
}

/// The ordered collection of all map scenes of one compile.
#[derive(Clone, Debug, PartialEq, Eq)]
pub struct ScenePool {
    pub scene_pool: Vec<Scene>,
}

/// A scene pool as a length-prefixed vector, preserving input order.
pub open spec fn scene_vec_bytes(pool: Seq<SceneV>) -> Seq<u8> {
    pool_bytes::<Scene>(pool)
}

impl ScenePool {
    /// Decode a whole pool document.
    pub fn from_json(doc: &Json) -> (r: Result<ScenePool, DecodeError>)
        ensures
            (match r {
                Ok(p) => dec_scene_pool(doc@) == Some(views(p.scene_pool@)),
                Err(_) => dec_scene_pool(doc@) is None,
            }),
    {
        match decode_pool_doc::<Scene>(doc, "scene_pool", "scenes") {
            Ok(v) => Ok(ScenePool { scene_pool: v }),
            Err(e) => Err(e),
        }
    }

    /// Decode a whole pool document from its JSON text.
    pub fn from_text(text: &str) -> (r: Result<ScenePool, DecodeError>)
        ensures
            (match r {
                Ok(p) => scene_pool_of_text(text@) == Some(views(p.scene_pool@)),
                Err(_) => scene_pool_of_text(text@) is None,
            }),
    {
        match parse_json(text) {
            Some(doc) => Self::from_json(&doc),
            None => Err(DecodeError::ShapeMismatch),
        }
    }

    /// Project the whole pool, preserving input order.
    pub fn encode(&self) -> (r: Result<Vec<u8>, EncodeError>)
        ensures
            (match r {
                Ok(b) => b@ == scene_vec_bytes(views(self.scene_pool@)) && b@.len() <= cell_max(),
                Err(_) => scene_vec_bytes(views(self.scene_pool@)).len() > cell_max(),
            }),
    {
        encode_pool::<Scene>(&self.scene_pool)
    }
}

} // verus!
