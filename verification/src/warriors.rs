//! Warriors: playable characters, projected field for field in the fixed
//! order below.

use vstd::prelude::*;

use crate::codec::{
    build_dynvec, byte_cell, byte_seqs, cell_max, encode_fixvec16, encode_pool, fixvec16_bytes,
    le16, lemma_dynvec_ge_part, pool_bytes, table_bytes, u16_cell, views, Encode, EncodeError,
};
use crate::json::{
    dec_pool_doc, decode_pool_doc, field_u16, field_u16_vec, field_u8, field_u8_or_zero,
    get_u16, get_u16_vec, get_u8, get_u8_or_zero, json_doc, parse_json, Decode, DecodeError,
    Json, JsonV,
};

verus! {

/// A warrior: starting cards, hit points, gold, movement and combat stats
/// (the six combat-stat bytes default to zero when the document omits them),
/// and the starting deck and package.
#[derive(Clone, Debug, PartialEq, Eq)]
pub struct Warrior {
    pub id: u16,
    pub special_cards: Vec<u16>,
    pub hp: u16,
    pub gold: u16,
    pub power: u8,
    pub motion: u8,
    pub view_range: u8,
    pub armor: u8,
    pub shield: u8,
    pub attack: u8,
    pub attack_weak: u8,
    pub defense: u8,
    pub defense_weak: u8,
    pub physique: u8,
    pub draw_count: u8,
    pub deck_status: Vec<u16>,
    pub package_status: Vec<u16>,
}

/// The mathematical value of a `Warrior`.
pub struct WarriorV {
    pub id: u16,
    pub special_cards: Seq<u16>,
    pub hp: u16,
    pub gold: u16,
    pub power: u8,
    pub motion: u8,
    pub view_range: u8,
    pub armor: u8,
    pub shield: u8,
    pub attack: u8,
    pub attack_weak: u8,
    pub defense: u8,
    pub defense_weak: u8,
    pub physique: u8,
    pub draw_count: u8,
    pub deck_status: Seq<u16>,
    pub package_status: Seq<u16>,
}

impl View for Warrior {
    type V = WarriorV;

    open spec fn view(&self) -> WarriorV {
        WarriorV {
            id: self.id,
            special_cards: self.special_cards@,
            hp: self.hp,
            gold: self.gold,
            power: self.power,
            motion: self.motion,
            view_range: self.view_range,
            armor: self.armor,
            shield: self.shield,
            attack: self.attack,
            attack_weak: self.attack_weak,
            defense: self.defense,
            defense_weak: self.defense_weak,
            physique: self.physique,
            draw_count: self.draw_count,
            deck_status: self.deck_status@,
            package_status: self.package_status@,
        }
    }
}

/// A `Warrior` as a table: id, special cards, hp, gold, power, motion, view
/// range, the six combat stats, physique, draw count, then the deck and
/// package vectors, in that fixed field order.
pub open spec fn warrior_bytes(w: WarriorV) -> Seq<u8> {
    table_bytes(
        seq![
            le16(w.id as int),
            fixvec16_bytes(w.special_cards),
            le16(w.hp as int),
            le16(w.gold as int),
            seq![w.power],
            seq![w.motion],
            seq![w.view_range],
            seq![w.armor],
            seq![w.shield],
            seq![w.attack],
            seq![w.attack_weak],
            seq![w.defense],
            seq![w.defense_weak],
            seq![w.physique],
            seq![w.draw_count],
            fixvec16_bytes(w.deck_status),
            fixvec16_bytes(w.package_status),
        ],
    )
}

impl Encode for Warrior {
    open spec fn wire_bytes(v: WarriorV) -> Seq<u8> {
        warrior_bytes(v)
    }

    fn encode(&self) -> (r: Result<Vec<u8>, EncodeError>) {
        let ghost goal = seq![
            le16(self.id as int),
            fixvec16_bytes(self.special_cards@),
            le16(self.hp as int),
            le16(self.gold as int),
            seq![self.power],
            seq![self.motion],
            seq![self.view_range],
            seq![self.armor],
            seq![self.shield],
            seq![self.attack],
            seq![self.attack_weak],
            seq![self.defense],
            seq![self.defense_weak],
            seq![self.physique],
            seq![self.draw_count],
            fixvec16_bytes(self.deck_status@),
            fixvec16_bytes(self.package_status@),
        ];
        let cards = match encode_fixvec16(&self.special_cards) {
            Ok(b) => b,
            Err(e) => {
                proof {
                    lemma_dynvec_ge_part(goal, 1);
                }
                return Err(e);
            },
        };
        let deck = match encode_fixvec16(&self.deck_status) {
            Ok(b) => b,
            Err(e) => {
                proof {
                    lemma_dynvec_ge_part(goal, 15);
                }
                return Err(e);
            },
        };
        let package = match encode_fixvec16(&self.package_status) {
            Ok(b) => b,
            Err(e) => {
                proof {
                    lemma_dynvec_ge_part(goal, 16);
                }
                return Err(e);
            },
        };
        let mut fields: Vec<Vec<u8>> = Vec::new();
        fields.push(u16_cell(self.id));
        fields.push(cards);
        fields.push(u16_cell(self.hp));
        fields.push(u16_cell(self.gold));
        fields.push(byte_cell(self.power));
        fields.push(byte_cell(self.motion));
        fields.push(byte_cell(self.view_range));
        fields.push(byte_cell(self.armor));
        fields.push(byte_cell(self.shield));
        fields.push(byte_cell(self.attack));
        fields.push(byte_cell(self.attack_weak));
        fields.push(byte_cell(self.defense));
        fields.push(byte_cell(self.defense_weak));
        fields.push(byte_cell(self.physique));
        fields.push(byte_cell(self.draw_count));
        fields.push(deck);
        fields.push(package);
        proof {
            assert(byte_seqs(fields@) =~= goal);
        }
        build_dynvec(&fields)
    }
}

/// A `Warrior` document: an object with the required numbers `id`, `hp`,
/// `gold`, `power`, `motion`, `view_range`, `physique` and `draw_count`,
/// the six combat-stat numbers each defaulting to zero when absent, and the
/// arrays `special_cards`, `deck_status` and `package_status`.
pub open spec fn dec_warrior(j: JsonV) -> Option<WarriorV> {
    match j {
        JsonV::Obj(fields) => match (
            field_u16(fields, "id"@),
            field_u16_vec(fields, "special_cards"@),
            field_u16(fields, "hp"@),
            field_u16(fields, "gold"@),
            field_u8(fields, "power"@),
            field_u8(fields, "motion"@),
            field_u8(fields, "view_range"@),
        ) {
            (
                Option::Some(id),
                Option::Some(cards),
                Option::Some(hp),
                Option::Some(gold),
                Option::Some(power),
                Option::Some(motion),
                Option::Some(view_range),
            ) => match (
                field_u8_or_zero(fields, "armor"@),
                field_u8_or_zero(fields, "shield"@),
                field_u8_or_zero(fields, "attack"@),
                field_u8_or_zero(fields, "attack_weak"@),
                field_u8_or_zero(fields, "defense"@),
                field_u8_or_zero(fields, "defense_weak"@),
                field_u8(fields, "physique"@),
                field_u8(fields, "draw_count"@),
                field_u16_vec(fields, "deck_status"@),
                field_u16_vec(fields, "package_status"@),
            ) {
                (
                    Option::Some(armor),
                    Option::Some(shield),
                    Option::Some(attack),
                    Option::Some(attack_weak),
                    Option::Some(defense),
                    Option::Some(defense_weak),
                    Option::Some(physique),
                    Option::Some(draw_count),
                    Option::Some(deck),
                    Option::Some(package),
                ) => Option::Some(
                    (WarriorV {
                        id,
                        special_cards: cards,
                        hp,
                        gold,
                        power,
                        motion,
                        view_range,
                        armor,
                        shield,
                        attack,
                        attack_weak,
                        defense,
                        defense_weak,
                        physique,
                        draw_count,
                        deck_status: deck,
                        package_status: package,
                    }),
                ),
                _ => Option::None,
            },
            _ => Option::None,
        },
        _ => Option::None,
    }
}

impl Decode for Warrior {
    open spec fn dec(j: JsonV) -> Option<WarriorV> {
        dec_warrior(j)
    }

    fn from_json(j: &Json) -> (r: Result<Warrior, DecodeError>) {
        match j {
            Json::Obj(fields) => {
                let id = match get_u16(fields, "id") {
                    Ok(v) => v,
                    Err(e) => {
                        return Err(e);
                    },
                };
                let special_cards = match get_u16_vec(fields, "special_cards") {
                    Ok(v) => v,
                    Err(e) => {
                        return Err(e);
                    },
                };
                let hp = match get_u16(fields, "hp") {
                    Ok(v) => v,
                    Err(e) => {
                        return Err(e);
                    },
                };
                let gold = match get_u16(fields, "gold") {
                    Ok(v) => v,
                    Err(e) => {
                        return Err(e);
                    },
                };
                let power = match get_u8(fields, "power") {
                    Ok(v) => v,
                    Err(e) => {
                        return Err(e);
                    },
                };
                let motion = match get_u8(fields, "motion") {
                    Ok(v) => v,
                    Err(e) => {
                        return Err(e);
                    },
                };
                let view_range = match get_u8(fields, "view_range") {
                    Ok(v) => v,
                    Err(e) => {
                        return Err(e);
                    },
                };
                let armor = match get_u8_or_zero(fields, "armor") {
                    Ok(v) => v,
                    Err(e) => {
                        return Err(e);
                    },
                };
                let shield = match get_u8_or_zero(fields, "shield") {
                    Ok(v) => v,
                    Err(e) => {
                        return Err(e);
                    },
                };
                let attack = match get_u8_or_zero(fields, "attack") {
                    Ok(v) => v,
                    Err(e) => {
                        return Err(e);
                    },
                };
                let attack_weak = match get_u8_or_zero(fields, "attack_weak") {
                    Ok(v) => v,
                    Err(e) => {
                        return Err(e);
                    },
                };
                let defense = match get_u8_or_zero(fields, "defense") {
                    Ok(v) => v,
                    Err(e) => {
                        return Err(e);
                    },
                };
                let defense_weak = match get_u8_or_zero(fields, "defense_weak") {
                    Ok(v) => v,
                    Err(e) => {
                        return Err(e);
                    },
                };
                let physique = match get_u8(fields, "physique") {
                    Ok(v) => v,
                    Err(e) => {
                        return Err(e);
                    },
                };
                let draw_count = match get_u8(fields, "draw_count") {
                    Ok(v) => v,
                    Err(e) => {
                        return Err(e);
                    },
                };
                let deck_status = match get_u16_vec(fields, "deck_status") {
                    Ok(v) => v,
                    Err(e) => {
                        return Err(e);
                    },
                };
                let package_status = match get_u16_vec(fields, "package_status") {
                    Ok(v) => v,
                    Err(e) => {
                        return Err(e);
                    },
                };
                Ok(
                    Warrior {
                        id,
                        special_cards,
                        hp,
                        gold,
                        power,
                        motion,
                        view_range,
                        armor,
                        shield,
                        attack,
                        attack_weak,
                        defense,
                        defense_weak,
                        physique,
                        draw_count,
                        deck_status,
                        package_status,
                    },
                )
            },
            _ => Err(DecodeError::ShapeMismatch),
        }
    }
}

/// The ordered collection of all warriors of one compile.
#[derive(Clone, Debug, PartialEq, Eq)]
pub struct WarriorPool {
    pub warrior_pool: Vec<Warrior>,
}

/// A warrior pool as a length-prefixed vector, preserving input order.
pub open spec fn warrior_vec_bytes(pool: Seq<WarriorV>) -> Seq<u8> {
    pool_bytes::<Warrior>(pool)
}

/// A warrior pool document: a bare record array, or the array under `warrior_pool` or its
/// alias `warriors`.
pub open spec fn dec_warrior_pool(doc: JsonV) -> Option<Seq<WarriorV>> {
    dec_pool_doc::<Warrior>(doc, "warrior_pool"@, "warriors"@)
}

/// What a warrior pool document text decodes to.
pub open spec fn warrior_pool_of_text(text: Seq<char>) -> Option<Seq<WarriorV>> {
    match json_doc(text) {
        Option::Some(doc) => dec_warrior_pool(doc),
        Option::None => Option::None,
    }
}

impl WarriorPool {
    /// Decode a whole pool document.
    pub fn from_json(doc: &Json) -> (r: Result<WarriorPool, DecodeError>)
        ensures
            (match r {
                Ok(p) => dec_warrior_pool(doc@) == Some(views(p.warrior_pool@)),
                Err(_) => dec_warrior_pool(doc@) is None,
            }),
    {
        match decode_pool_doc::<Warrior>(doc, "warrior_pool", "warriors") {
            Ok(v) => Ok(WarriorPool { warrior_pool: v }),
            Err(e) => Err(e),
        }
    }

    /// Decode a whole pool document from its JSON text.
    pub fn from_text(text: &str) -> (r: Result<WarriorPool, DecodeError>)
        ensures
            (match r {
                Ok(p) => warrior_pool_of_text(text@) == Some(views(p.warrior_pool@)),
                Err(_) => warrior_pool_of_text(text@) is None,
            }),
    {
        match parse_json(text) {
            Some(doc) => Self::from_json(&doc),
            None => Err(DecodeError::ShapeMismatch),
        }
    }

    /// Project the whole pool, preserving input order.
    pub fn encode(&self) -> (r: Result<Vec<u8>, EncodeError>)
        ensures
            (match r {
                Ok(b) => b@ == warrior_vec_bytes(views(self.warrior_pool@)) && b@.len()
                    <= cell_max(),
                Err(_) => warrior_vec_bytes(views(self.warrior_pool@)).len() > cell_max(),
            }),
    {
        encode_pool::<Warrior>(&self.warrior_pool)
    }
}

} // verus!
