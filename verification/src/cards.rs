//! Cards: purchasable moves with a price range and attached systems.

use vstd::prelude::*;

use crate::codec::{
    build_dynvec, byte_cell, byte_seqs, cell_max, encode_fixvec16, encode_pool, fixvec16_bytes,
    le16, lemma_dynvec_ge_part, pool_bytes, table_bytes, u16_cell, views, Encode, EncodeError,
};
use crate::json::{
    dec_pool_doc, decode_pool_doc, field_rec, field_u16, field_u16_vec, field_u8, get_rec,
    get_u16, get_u16_vec, get_u8, json_doc, parse_json, Decode, DecodeError, Json, JsonV,
};
use crate::types::{encode_random_u16, random_u16_bytes, Random};

verus! {

/// A card: class and power cost bytes, a 16-bit price range, and the systems
/// it invokes, in order.
#[derive(Clone, Debug, PartialEq, Eq)]
pub struct Card {
    pub id: u16,
    pub class: u8,
    pub power_cost: u8,
    pub price: Random<u16>,
    pub system_pool: Vec<u16>,
}

/// The mathematical value of a `Card`.
pub struct CardV {
    pub id: u16,
    pub class: u8,
    pub power_cost: u8,
    pub price: Random<u16>,
    pub system_pool: Seq<u16>,
}

impl View for Card {
    type V = CardV;

    open spec fn view(&self) -> CardV {
        CardV {
            id: self.id,
            class: self.class,
            power_cost: self.power_cost,
            price: self.price,
            system_pool: self.system_pool@,
        }
    }
}

/// A `Card` as a table: id, class, cost, price, then the system id vector,
/// in that fixed field order.
pub open spec fn card_bytes(c: CardV) -> Seq<u8> {
    table_bytes(
        seq![
            le16(c.id as int),
            seq![c.class],
            seq![c.power_cost],
            random_u16_bytes(c.price),
            fixvec16_bytes(c.system_pool),
        ],
    )
}

impl Encode for Card {
    open spec fn wire_bytes(v: CardV) -> Seq<u8> {
        card_bytes(v)
    }

    fn encode(&self) -> (r: Result<Vec<u8>, EncodeError>) {
        let ghost goal = seq![
            le16(self.id as int),
            seq![self.class],
            seq![self.power_cost],
            random_u16_bytes(self.price),
            fixvec16_bytes(self.system_pool@),
        ];
        let sys = match encode_fixvec16(&self.system_pool) {
            Ok(b) => b,
            Err(e) => {
                proof {
                    lemma_dynvec_ge_part(goal, 4);
                }
                return Err(e);
            },
        };
        let mut fields: Vec<Vec<u8>> = Vec::new();
        fields.push(u16_cell(self.id));
        fields.push(byte_cell(self.class));
        fields.push(byte_cell(self.power_cost));
        fields.push(encode_random_u16(&self.price));
        fields.push(sys);
        proof {
            assert(byte_seqs(fields@) =~= goal);
        }
        build_dynvec(&fields)
    }
}

/// A `Card` document: an object with `id`, `class` and `power_cost`
/// numbers, a `price` range and a `system_pool` array of numbers.
pub open spec fn dec_card(j: JsonV) -> Option<CardV> {
    match j {
        JsonV::Obj(fields) => match (
            field_u16(fields, "id"@),
            field_u8(fields, "class"@),
            field_u8(fields, "power_cost"@),
            field_rec::<Random<u16>>(fields, "price"@),
            field_u16_vec(fields, "system_pool"@),
        ) {
            (
                Option::Some(id),
                Option::Some(class),
                Option::Some(power_cost),
                Option::Some(price),
                Option::Some(sys),
            ) => Option::Some((CardV { id, class, power_cost, price, system_pool: sys })),
            _ => Option::None,
        },
        _ => Option::None,
    }
}

impl Decode for Card {
    open spec fn dec(j: JsonV) -> Option<CardV> {
        dec_card(j)
    }

    fn from_json(j: &Json) -> (r: Result<Card, DecodeError>) {
        match j {
            Json::Obj(fields) => {
                let id = match get_u16(fields, "id") {
                    Ok(v) => v,
                    Err(e) => {
                        return Err(e);
                    },
                };
                let class = match get_u8(fields, "class") {
                    Ok(v) => v,
                    Err(e) => {
                        return Err(e);
                    },
                };
                let power_cost = match get_u8(fields, "power_cost") {
                    Ok(v) => v,
                    Err(e) => {
                        return Err(e);
                    },
                };
                let price = match get_rec::<Random<u16>>(fields, "price") {
                    Ok(v) => v,
                    Err(e) => {
                        return Err(e);
                    },
                };
                let system_pool = match get_u16_vec(fields, "system_pool") {
                    Ok(v) => v,
                    Err(e) => {
                        return Err(e);
                    },
                };
                Ok(Card { id, class, power_cost, price, system_pool })
            },
            _ => Err(DecodeError::ShapeMismatch),
        }
    }
}

/// The ordered collection of all cards of one compile.
#[derive(Clone, Debug, PartialEq, Eq)]
pub struct CardPool {
    pub card_pool: Vec<Card>,
}

/// A card pool as a length-prefixed vector, preserving input order.
pub open spec fn card_vec_bytes(pool: Seq<CardV>) -> Seq<u8> {
    pool_bytes::<Card>(pool)
}

/// A card pool document: a bare record array, or the array under `card_pool` or its alias
/// `cards`.
pub open spec fn dec_card_pool(doc: JsonV) -> Option<Seq<CardV>> {
    dec_pool_doc::<Card>(doc, "card_pool"@, "cards"@)
}

/// What a card pool document text decodes to.
pub open spec fn card_pool_of_text(text: Seq<char>) -> Option<Seq<CardV>> {
    match json_doc(text) {
        Option::Some(doc) => dec_card_pool(doc),
        Option::None => Option::None,
    }
}

impl CardPool {
    /// Decode a whole pool document.
    pub fn from_json(doc: &Json) -> (r: Result<CardPool, DecodeError>)
        ensures
            (match r {
                Ok(p) => dec_card_pool(doc@) == Some(views(p.card_pool@)),
                Err(_) => dec_card_pool(doc@) is None,
            }),
    {
        match decode_pool_doc::<Card>(doc, "card_pool", "cards") {
            Ok(v) => Ok(CardPool { card_pool: v }),
            Err(e) => Err(e),
        }
    }

    /// Decode a whole pool document from its JSON text.
    pub fn from_text(text: &str) -> (r: Result<CardPool, DecodeError>)
        ensures
            (match r {
                Ok(p) => card_pool_of_text(text@) == Some(views(p.card_pool@)),
                Err(_) => card_pool_of_text(text@) is None,
            }),
    {
        match parse_json(text) {
            Some(doc) => Self::from_json(&doc),
            None => Err(DecodeError::ShapeMismatch),
        }
    }

    /// Project the whole pool, preserving input order.
    pub fn encode(&self) -> (r: Result<Vec<u8>, EncodeError>)
        ensures
            (match r {
                Ok(b) => b@ == card_vec_bytes(views(self.card_pool@)) && b@.len() <= cell_max(),
                Err(_) => card_vec_bytes(views(self.card_pool@)).len() > cell_max(),
            }),
    {
        encode_pool::<Card>(&self.card_pool)
    }
}

} // verus!
