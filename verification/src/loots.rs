//! Loot tables: gold and score ranges plus card, prop and equipment drop
//! packages; the prop and equipment packages are optional.

use vstd::prelude::*;

use crate::codec::{
    build_dynvec, byte_cell, byte_seqs, cell_max, encode_fixvec16, encode_pool, fixvec16_bytes,
    le16, lemma_dynvec_ge_part, pool_bytes, table_bytes, u16_cell, views, Encode, EncodeError,
};
use crate::json::{
    dec_pool_doc, decode_pool_doc, field_opt_rec, field_rec, field_u16, field_u16_vec, field_u8,
    get_opt_rec, get_rec, get_u16, get_u16_vec, get_u8, json_doc, opt_view, parse_json, Decode,
    DecodeError, Json, JsonV,
};
use crate::types::{encode_random_u16, random_u16_bytes, Random};

verus! {

/// A weighted drop-table slice: draw `size` entries from `item_pool`.
#[derive(Clone, Debug, PartialEq, Eq)]
pub struct Package {
    pub size: u8,
    pub item_pool: Vec<u16>,
}

/// The mathematical value of a `Package`.
pub struct PackageV {
    pub size: u8,
    pub item_pool: Seq<u16>,
}

impl View for Package {
    type V = PackageV;

    open spec fn view(&self) -> PackageV {
        PackageV { size: self.size, item_pool: self.item_pool@ }
    }
}

/// A `Package` as a table: the draw count, then the item id vector.
pub open spec fn package_bytes(p: PackageV) -> Seq<u8> {
    table_bytes(seq![seq![p.size], fixvec16_bytes(p.item_pool)])
}

/// An optional `Package`: absent encodes to no bytes.
pub open spec fn package_opt_bytes(o: Option<PackageV>) -> Seq<u8> {
    match o {
        Option::None => Seq::empty(),
        Option::Some(p) => package_bytes(p),
    }
}

/// Optional-field fidelity: an absent package encodes to the empty-optional
/// marker — no bytes at all — and a present one to exactly that package's
/// table.
pub proof fn lemma_package_opt_fidelity(o: Option<PackageV>)
    ensures
        o is None ==> package_opt_bytes(o) == Seq::<u8>::empty(),
        o matches Some(p) ==> package_opt_bytes(o) == package_bytes(p),
{
}

impl Encode for Package {
    open spec fn wire_bytes(v: PackageV) -> Seq<u8> {
        package_bytes(v)
    }

    fn encode(&self) -> (r: Result<Vec<u8>, EncodeError>) {
        let ghost goal = seq![seq![self.size], fixvec16_bytes(self.item_pool@)];
        let items = match encode_fixvec16(&self.item_pool) {
            Ok(b) => b,
            Err(e) => {
                proof {
                    lemma_dynvec_ge_part(goal, 1);
                }
                return Err(e);
            },
        };
        let mut fields: Vec<Vec<u8>> = Vec::new();
        fields.push(byte_cell(self.size));
        fields.push(items);
        proof {
            assert(byte_seqs(fields@) =~= goal);
        }
        build_dynvec(&fields)
    }
}

/// The view of an optional package.
pub open spec fn package_opt_view(o: Option<Package>) -> Option<PackageV> {
    match o {
        Option::None => Option::None,
        Option::Some(p) => Option::Some(p@),
    }
}

/// Encode an optional package: absent yields no bytes at all.
fn encode_package_opt(o: &Option<Package>) -> (r: Result<Vec<u8>, EncodeError>)
    ensures
        (match r {
            Ok(b) => b@ == package_opt_bytes(package_opt_view(*o)) && b@.len() <= cell_max(),
            Err(_) => package_opt_bytes(package_opt_view(*o)).len() > cell_max(),
        }),
{
    match o {
        Option::None => Ok(Vec::new()),
        Option::Some(p) => p.encode(),
    }
}

/// A `Package` document: an object with a `size` number and an `item_pool`
/// array of numbers.
pub open spec fn dec_package(j: JsonV) -> Option<PackageV> {
    match j {
        JsonV::Obj(fields) => match (
            field_u8(fields, "size"@),
            field_u16_vec(fields, "item_pool"@),
        ) {
            (Option::Some(size), Option::Some(items)) => Option::Some(
                (PackageV { size, item_pool: items }),
            ),
            _ => Option::None,
        },
        _ => Option::None,
    }
}

impl Decode for Package {
    open spec fn dec(j: JsonV) -> Option<PackageV> {
        dec_package(j)
    }

    fn from_json(j: &Json) -> (r: Result<Package, DecodeError>) {
        match j {
            Json::Obj(fields) => {
                let size = match get_u8(fields, "size") {
                    Ok(v) => v,
                    Err(e) => {
                        return Err(e);
                    },
                };
                let item_pool = match get_u16_vec(fields, "item_pool") {
                    Ok(v) => v,
                    Err(e) => {
                        return Err(e);
                    },
                };
                Ok(Package { size, item_pool })
            },
            _ => Err(DecodeError::ShapeMismatch),
        }
    }
}

/// A loot record: gold and score ranges, the card package, and the optional
/// prop and equipment packages.
#[derive(Clone, Debug, PartialEq, Eq)]
pub struct Loot {
    pub id: u16,
    pub gold: Random<u16>,
    pub score: Random<u16>,
    pub card_pool: Package,
    pub props_pool: Option<Package>,
    pub equipment_pool: Option<Package>,
}

/// The mathematical value of a `Loot`.
pub struct LootV {
    pub id: u16,
    pub gold: Random<u16>,
    pub score: Random<u16>,
    pub card_pool: PackageV,
    pub props_pool: Option<PackageV>,
    pub equipment_pool: Option<PackageV>,
}

impl View for Loot {
    type V = LootV;

    open spec fn view(&self) -> LootV {
        LootV {
            id: self.id,
            gold: self.gold,
            score: self.score,
            card_pool: self.card_pool@,
            props_pool: package_opt_view(self.props_pool),
            equipment_pool: package_opt_view(self.equipment_pool),
        }
    }
}

/// A `Loot` as a table: id, gold range, score range, card package, optional
/// prop package, optional equipment package, in that fixed field order.
pub open spec fn loot_bytes(l: LootV) -> Seq<u8> {
    table_bytes(
        seq![
            le16(l.id as int),
            random_u16_bytes(l.gold),
            random_u16_bytes(l.score),
            package_bytes(l.card_pool),
            package_opt_bytes(l.props_pool),
            package_opt_bytes(l.equipment_pool),
        ],
    )
}

impl Encode for Loot {
    open spec fn wire_bytes(v: LootV) -> Seq<u8> {
        loot_bytes(v)
    }

    fn encode(&self) -> (r: Result<Vec<u8>, EncodeError>) {
        let ghost goal = seq![
            le16(self.id as int),
            random_u16_bytes(self.gold),
            random_u16_bytes(self.score),
            package_bytes(self.card_pool@),
            package_opt_bytes(package_opt_view(self.props_pool)),
            package_opt_bytes(package_opt_view(self.equipment_pool)),
        ];
        let cards = match self.card_pool.encode() {
            Ok(b) => b,
            Err(e) => {
                proof {
                    lemma_dynvec_ge_part(goal, 3);
                }
                return Err(e);
            },
        };
        let props = match encode_package_opt(&self.props_pool) {
            Ok(b) => b,
            Err(e) => {
                proof {
                    lemma_dynvec_ge_part(goal, 4);
                }
                return Err(e);
            },
        };
        let equipment = match encode_package_opt(&self.equipment_pool) {
            Ok(b) => b,
            Err(e) => {
                proof {
                    lemma_dynvec_ge_part(goal, 5);
                }
                return Err(e);
            },
        };
        let mut fields: Vec<Vec<u8>> = Vec::new();
        fields.push(u16_cell(self.id));
        fields.push(encode_random_u16(&self.gold));
        fields.push(encode_random_u16(&self.score));
        fields.push(cards);
        fields.push(props);
        fields.push(equipment);
        proof {
            assert(byte_seqs(fields@) =~= goal);
        }
        build_dynvec(&fields)
    }
}

/// A `Loot` document: an object with an `id` number, `gold` and `score`
/// ranges, a required `card_pool` package, and optional `props_pool` and
/// `equipment_pool` packages, where absent and `null` both mean the empty
/// optional.
pub open spec fn dec_loot(j: JsonV) -> Option<LootV> {
    match j {
        JsonV::Obj(fields) => match (
            field_u16(fields, "id"@),
            field_rec::<Random<u16>>(fields, "gold"@),
            field_rec::<Random<u16>>(fields, "score"@),
            field_rec::<Package>(fields, "card_pool"@),
            field_opt_rec::<Package>(fields, "props_pool"@),
            field_opt_rec::<Package>(fields, "equipment_pool"@),
        ) {
            (
                Option::Some(id),
                Option::Some(gold),
                Option::Some(score),
                Option::Some(cards),
                Option::Some(props),
                Option::Some(equipment),
            ) => Option::Some(
                (LootV {
                    id,
                    gold,
                    score,
                    card_pool: cards,
                    props_pool: props,
                    equipment_pool: equipment,
                }),
            ),
            _ => Option::None,
        },
        _ => Option::None,
    }
}

impl Decode for Loot {
    open spec fn dec(j: JsonV) -> Option<LootV> {
        dec_loot(j)
    }

    fn from_json(j: &Json) -> (r: Result<Loot, DecodeError>) {
        match j {
            Json::Obj(fields) => {
                let id = match get_u16(fields, "id") {
                    Ok(v) => v,
                    Err(e) => {
                        return Err(e);
                    },
                };
                let gold = match get_rec::<Random<u16>>(fields, "gold") {
                    Ok(v) => v,
                    Err(e) => {
                        return Err(e);
                    },
                };
                let score = match get_rec::<Random<u16>>(fields, "score") {
                    Ok(v) => v,
                    Err(e) => {
                        return Err(e);
                    },
                };
                let card_pool = match get_rec::<Package>(fields, "card_pool") {
                    Ok(v) => v,
                    Err(e) => {
                        return Err(e);
                    },
                };
                let props_pool = match get_opt_rec::<Package>(fields, "props_pool") {
                    Ok(v) => v,
                    Err(e) => {
                        return Err(e);
                    },
                };
                let equipment_pool = match get_opt_rec::<Package>(fields, "equipment_pool") {
                    Ok(v) => v,
                    Err(e) => {
                        return Err(e);
                    },
                };
                proof {
                    assert(opt_view(props_pool) == package_opt_view(props_pool));
                    assert(opt_view(equipment_pool) == package_opt_view(equipment_pool));
                }
                Ok(Loot { id, gold, score, card_pool, props_pool, equipment_pool })
            },
            _ => Err(DecodeError::ShapeMismatch),
        }
    }
}

/// The ordered collection of all loot records of one compile.
#[derive(Clone, Debug, PartialEq, Eq)]
pub struct LootPool {
    pub loot_pool: Vec<Loot>,
}

/// A loot pool as a length-prefixed vector, preserving input order.
pub open spec fn loot_vec_bytes(pool: Seq<LootV>) -> Seq<u8> {
    pool_bytes::<Loot>(pool)
}

/// A loot pool document: a bare record array, or the array under `loot_pool` or its alias
/// `loots`.
pub open spec fn dec_loot_pool(doc: JsonV) -> Option<Seq<LootV>> {
    dec_pool_doc::<Loot>(doc, "loot_pool"@, "loots"@)
}

/// What a loot pool document text decodes to.
pub open spec fn loot_pool_of_text(text: Seq<char>) -> Option<Seq<LootV>> {
    match json_doc(text) {
        Option::Some(doc) => dec_loot_pool(doc),
        Option::None => Option::None,
    }
}

impl LootPool {
    /// Decode a whole pool document.
    pub fn from_json(doc: &Json) -> (r: Result<LootPool, DecodeError>)
        ensures
            (match r {
                Ok(p) => dec_loot_pool(doc@) == Some(views(p.loot_pool@)),
                Err(_) => dec_loot_pool(doc@) is None,
            }),
    {
        match decode_pool_doc::<Loot>(doc, "loot_pool", "loots") {
            Ok(v) => Ok(LootPool { loot_pool: v }),
            Err(e) => Err(e),
        }
    }

    /// Decode a whole pool document from its JSON text.
    pub fn from_text(text: &str) -> (r: Result<LootPool, DecodeError>)
        ensures
            (match r {
                Ok(p) => loot_pool_of_text(text@) == Some(views(p.loot_pool@)),
                Err(_) => loot_pool_of_text(text@) is None,
            }),
    {
        match parse_json(text) {
            Some(doc) => Self::from_json(&doc),
            None => Err(DecodeError::ShapeMismatch),
        }
    }

    /// Project the whole pool, preserving input order.
    pub fn encode(&self) -> (r: Result<Vec<u8>, EncodeError>)
        ensures
            (match r {
                Ok(b) => b@ == loot_vec_bytes(views(self.loot_pool@)) && b@.len() <= cell_max(),
                Err(_) => loot_vec_bytes(views(self.loot_pool@)).len() > cell_max(),
            }),
    {
        encode_pool::<Loot>(&self.loot_pool)
    }
}

} // verus!
