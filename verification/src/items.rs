//! Items: equipment and props with drop-weight and price ranges.

use vstd::prelude::*;

use crate::codec::{
    build_dynvec, byte_cell, byte_seqs, cell_max, encode_fixvec16, encode_pool, fixvec16_bytes,
    le16, lemma_dynvec_ge_part, pool_bytes, table_bytes, u16_cell, views, Encode, EncodeError,
};
use crate::json::{
    dec_pool_doc, decode_pool_doc, field_rec, field_u16, field_u16_vec, field_u8, get_rec,
    get_u16, get_u16_vec, get_u8, json_doc, parse_json, Decode, DecodeError, Json, JsonV,
};
use crate::types::{
    encode_random_u16, encode_random_u8, random_u16_bytes, random_u8_bytes, Random,
};

verus! {

/// An item: class and quality bytes, an 8-bit drop-weight range, a 16-bit
/// price range, and the systems it invokes, in order.
#[derive(Clone, Debug, PartialEq, Eq)]
pub struct Item {
    pub id: u16,
    pub class: u8,
    pub quality: u8,
    pub random_weight: Random<u8>,
    pub price: Random<u16>,
    pub system_pool: Vec<u16>,
}

/// The mathematical value of an `Item`.
pub struct ItemV {
    pub id: u16,
    pub class: u8,
    pub quality: u8,
    pub random_weight: Random<u8>,
    pub price: Random<u16>,
    pub system_pool: Seq<u16>,
}

impl View for Item {
    type V = ItemV;

    open spec fn view(&self) -> ItemV {
        ItemV {
            id: self.id,
            class: self.class,
            quality: self.quality,
            random_weight: self.random_weight,
            price: self.price,
            system_pool: self.system_pool@,
        }
    }
}

/// An `Item` as a table: id, class, quality, drop-weight range, price range,
/// then the system id vector, in that fixed field order.
pub open spec fn item_bytes(it: ItemV) -> Seq<u8> {
    table_bytes(
        seq![
            le16(it.id as int),
            seq![it.class],
            seq![it.quality],
            random_u8_bytes(it.random_weight),
            random_u16_bytes(it.price),
            fixvec16_bytes(it.system_pool),
        ],
    )
}

impl Encode for Item {
    open spec fn wire_bytes(v: ItemV) -> Seq<u8> {
        item_bytes(v)
    }

    fn encode(&self) -> (r: Result<Vec<u8>, EncodeError>) {
        let ghost goal = seq![
            le16(self.id as int),
            seq![self.class],
            seq![self.quality],
            random_u8_bytes(self.random_weight),
            random_u16_bytes(self.price),
            fixvec16_bytes(self.system_pool@),
        ];
        let sys = match encode_fixvec16(&self.system_pool) {
            Ok(b) => b,
            Err(e) => {
                proof {
                    lemma_dynvec_ge_part(goal, 5);
                }
                return Err(e);
            },
        };
        let mut fields: Vec<Vec<u8>> = Vec::new();
        fields.push(u16_cell(self.id));
        fields.push(byte_cell(self.class));
        fields.push(byte_cell(self.quality));
        fields.push(encode_random_u8(&self.random_weight));
        fields.push(encode_random_u16(&self.price));
        fields.push(sys);
        proof {
            assert(byte_seqs(fields@) =~= goal);
        }
        build_dynvec(&fields)
    }
}

/// An `Item` document: an object with `id`, `class` and `quality` numbers,
/// a `random_weight` 8-bit range, a `price` 16-bit range and a
/// `system_pool` array of numbers.
pub open spec fn dec_item(j: JsonV) -> Option<ItemV> {
    match j {
        JsonV::Obj(fields) => match (
            field_u16(fields, "id"@),
            field_u8(fields, "class"@),
            field_u8(fields, "quality"@),
            field_rec::<Random<u8>>(fields, "random_weight"@),
            field_rec::<Random<u16>>(fields, "price"@),
            field_u16_vec(fields, "system_pool"@),
        ) {
            (
                Option::Some(id),
                Option::Some(class),
                Option::Some(quality),
                Option::Some(random_weight),
                Option::Some(price),
                Option::Some(sys),
            ) => Option::Some(
                (ItemV { id, class, quality, random_weight, price, system_pool: sys }),
            ),
            _ => Option::None,
        },
        _ => Option::None,
    }
}

impl Decode for Item {
    open spec fn dec(j: JsonV) -> Option<ItemV> {
        dec_item(j)
    }

    fn from_json(j: &Json) -> (r: Result<Item, DecodeError>) {
        match j {
            Json::Obj(fields) => {
                let id = match get_u16(fields, "id") {
                    Ok(v) => v,
                    Err(e) => {
                        return Err(e);
                    },
                };
                let class = match get_u8(fields, "class") {
                    Ok(v) => v,
                    Err(e) => {
                        return Err(e);
                    },
                };
                let quality = match get_u8(fields, "quality") {
                    Ok(v) => v,
                    Err(e) => {
                        return Err(e);
                    },
                };
                let random_weight = match get_rec::<Random<u8>>(fields, "random_weight") {
                    Ok(v) => v,
                    Err(e) => {
                        return Err(e);
                    },
                };
                let price = match get_rec::<Random<u16>>(fields, "price") {
                    Ok(v) => v,
                    Err(e) => {
                        return Err(e);
                    },
                };
                let system_pool = match get_u16_vec(fields, "system_pool") {
                    Ok(v) => v,
                    Err(e) => {
                        return Err(e);
                    },
                };
                Ok(Item { id, class, quality, random_weight, price, system_pool })
            },
            _ => Err(DecodeError::ShapeMismatch),
        }
    }
}

/// The ordered collection of all items of one compile.
#[derive(Clone, Debug, PartialEq, Eq)]
pub struct ItemPool {
    pub item_pool: Vec<Item>,
}

/// An item pool as a length-prefixed vector, preserving input order.
pub open spec fn item_vec_bytes(pool: Seq<ItemV>) -> Seq<u8> {
    pool_bytes::<Item>(pool)
}

/// An item pool document: a bare record array, or the array under `item_pool` or its alias
/// `items`.
pub open spec fn dec_item_pool(doc: JsonV) -> Option<Seq<ItemV>> {
    dec_pool_doc::<Item>(doc, "item_pool"@, "items"@)
}

/// What an item pool document text decodes to.
pub open spec fn item_pool_of_text(text: Seq<char>) -> Option<Seq<ItemV>> {
    match json_doc(text) {
        Option::Some(doc) => dec_item_pool(doc),
        Option::None => Option::None,
    }
}

impl ItemPool {
    /// Decode a whole pool document.
    pub fn from_json(doc: &Json) -> (r: Result<ItemPool, DecodeError>)
        ensures
            (match r {
                Ok(p) => dec_item_pool(doc@) == Some(views(p.item_pool@)),
                Err(_) => dec_item_pool(doc@) is None,
            }),
    {
        match decode_pool_doc::<Item>(doc, "item_pool", "items") {
            Ok(v) => Ok(ItemPool { item_pool: v }),
            Err(e) => Err(e),
        }
    }

    /// Decode a whole pool document from its JSON text.
    pub fn from_text(text: &str) -> (r: Result<ItemPool, DecodeError>)
        ensures
            (match r {
                Ok(p) => item_pool_of_text(text@) == Some(views(p.item_pool@)),
                Err(_) => item_pool_of_text(text@) is None,
            }),
    {
        match parse_json(text) {
            Some(doc) => Self::from_json(&doc),
            None => Err(DecodeError::ShapeMismatch),
        }
    }

    /// Project the whole pool, preserving input order.
    pub fn encode(&self) -> (r: Result<Vec<u8>, EncodeError>)
        ensures
            (match r {
                Ok(b) => b@ == item_vec_bytes(views(self.item_pool@)) && b@.len() <= cell_max(),
                Err(_) => item_vec_bytes(views(self.item_pool@)).len() > cell_max(),
            }),
    {
        encode_pool::<Item>(&self.item_pool)
    }
}

} // verus!
