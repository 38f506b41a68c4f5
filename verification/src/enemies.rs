//! Enemies: combat records with six defaulted combat-stat bytes, a loot
//! table reference and an action-selection strategy.

use vstd::prelude::*;

use crate::codec::{
    bool_byte, bool_cell, build_dynvec, byte_cell, byte_seqs, cell_max, encode_fixvec16,
    encode_pool, fixvec16_bytes, le16, lemma_dynvec_ge_part, pool_bytes, table_bytes, u16_cell,
    views, Encode, EncodeError,
};
use crate::json::{
    dec_pool_doc, decode_pool_doc, field_bool, field_rec, field_u16, field_u16_vec, field_u8,
    field_u8_or_zero, get_bool, get_rec, get_u16, get_u16_vec, get_u8, get_u8_or_zero, json_doc,
    parse_json, Decode, DecodeError, Json, JsonV,
};

verus! {

/// How an enemy picks its next action: at random from `action_pool`, or in
/// order.
#[derive(Clone, Debug, PartialEq, Eq)]
pub struct ActionContext {
    pub random: bool,
    pub action_pool: Vec<u16>,
}

/// The mathematical value of an `ActionContext`.
pub struct ActionContextV {
    pub random: bool,
    pub action_pool: Seq<u16>,
}

impl View for ActionContext {
    type V = ActionContextV;

    open spec fn view(&self) -> ActionContextV {
        ActionContextV { random: self.random, action_pool: self.action_pool@ }
    }
}

/// An `ActionContext` as a table: the random flag, then the action id
/// vector.
pub open spec fn action_context_bytes(a: ActionContextV) -> Seq<u8> {
    table_bytes(seq![seq![bool_byte(a.random)], fixvec16_bytes(a.action_pool)])
}

impl Encode for ActionContext {
    open spec fn wire_bytes(v: ActionContextV) -> Seq<u8> {
        action_context_bytes(v)
    }

    fn encode(&self) -> (r: Result<Vec<u8>, EncodeError>) {
        let ghost goal = seq![seq![bool_byte(self.random)], fixvec16_bytes(self.action_pool@)];
        let acts = match encode_fixvec16(&self.action_pool) {
            Ok(b) => b,
            Err(e) => {
                proof {
                    lemma_dynvec_ge_part(goal, 1);
                }
                return Err(e);
            },
        };
        let mut fields: Vec<Vec<u8>> = Vec::new();
        fields.push(bool_cell(self.random));
        fields.push(acts);
        proof {
            assert(byte_seqs(fields@) =~= goal);
        }
        build_dynvec(&fields)
    }
}

/// An `ActionContext` document: an object with a `random` boolean and an
/// `action_pool` array of numbers.
pub open spec fn dec_action_context(j: JsonV) -> Option<ActionContextV> {
    match j {
        JsonV::Obj(fields) => match (
            field_bool(fields, "random"@),
            field_u16_vec(fields, "action_pool"@),
        ) {
            (Option::Some(random), Option::Some(pool)) => Option::Some(
                (ActionContextV { random, action_pool: pool }),
            ),
            _ => Option::None,
        },
        _ => Option::None,
    }
}

impl Decode for ActionContext {
    open spec fn dec(j: JsonV) -> Option<ActionContextV> {
        dec_action_context(j)
    }

    fn from_json(j: &Json) -> (r: Result<ActionContext, DecodeError>) {
        match j {
            Json::Obj(fields) => {
                let random = match get_bool(fields, "random") {
                    Ok(v) => v,
                    Err(e) => {
                        return Err(e);
                    },
                };
                let action_pool = match get_u16_vec(fields, "action_pool") {
                    Ok(v) => v,
                    Err(e) => {
                        return Err(e);
                    },
                };
                Ok(ActionContext { random, action_pool })
            },
            _ => Err(DecodeError::ShapeMismatch),
        }
    }
}

/// An enemy: rank byte, 16-bit hit points, six combat-stat bytes (each
/// defaulting to zero when the document omits it), a loot reference vector,
/// and an action strategy.
#[derive(Clone, Debug, PartialEq, Eq)]
pub struct Enemy {
    pub id: u16,
    pub rank: u8,
    pub hp: u16,
    pub armor: u8,
    pub shield: u8,
    pub attack: u8,
    pub attack_weak: u8,
    pub defense: u8,
    pub defense_weak: u8,
    pub loot_pool: Vec<u16>,
    pub action_strategy: ActionContext,
}

/// The mathematical value of an `Enemy`.
pub struct EnemyV {
    pub id: u16,
    pub rank: u8,
    pub hp: u16,
    pub armor: u8,
    pub shield: u8,
    pub attack: u8,
    pub attack_weak: u8,
    pub defense: u8,
    pub defense_weak: u8,
    pub loot_pool: Seq<u16>,
    pub action_strategy: ActionContextV,
}

impl View for Enemy {
    type V = EnemyV;

    open spec fn view(&self) -> EnemyV {
        EnemyV {
            id: self.id,
            rank: self.rank,
            hp: self.hp,
            armor: self.armor,
            shield: self.shield,
            attack: self.attack,
            attack_weak: self.attack_weak,
            defense: self.defense,
            defense_weak: self.defense_weak,
            loot_pool: self.loot_pool@,
            action_strategy: self.action_strategy@,
        }
    }
}

/// An `Enemy` as a table: id, rank, hp, the six combat stats, the loot id
/// vector, then the action strategy, in that fixed field order.
pub open spec fn enemy_bytes(e: EnemyV) -> Seq<u8> {
    table_bytes(
        seq![
            le16(e.id as int),
            seq![e.rank],
            le16(e.hp as int),
            seq![e.armor],
            seq![e.shield],
            seq![e.attack],
            seq![e.attack_weak],
            seq![e.defense],
            seq![e.defense_weak],
            fixvec16_bytes(e.loot_pool),
            action_context_bytes(e.action_strategy),
        ],
    )
}

impl Encode for Enemy {
    open spec fn wire_bytes(v: EnemyV) -> Seq<u8> {
        enemy_bytes(v)
    }

    fn encode(&self) -> (r: Result<Vec<u8>, EncodeError>) {
        let ghost goal = seq![
            le16(self.id as int),
            seq![self.rank],
            le16(self.hp as int),
            seq![self.armor],
            seq![self.shield],
            seq![self.attack],
            seq![self.attack_weak],
            seq![self.defense],
            seq![self.defense_weak],
            fixvec16_bytes(self.loot_pool@),
            action_context_bytes(self.action_strategy@),
        ];
        let loot = match encode_fixvec16(&self.loot_pool) {
            Ok(b) => b,
            Err(e) => {
                proof {
                    lemma_dynvec_ge_part(goal, 9);
                }
                return Err(e);
            },
        };
        let strategy = match self.action_strategy.encode() {
            Ok(b) => b,
            Err(e) => {
                proof {
                    lemma_dynvec_ge_part(goal, 10);
                }
                return Err(e);
            },
        };
        let mut fields: Vec<Vec<u8>> = Vec::new();
        fields.push(u16_cell(self.id));
        fields.push(byte_cell(self.rank));
        fields.push(u16_cell(self.hp));
        fields.push(byte_cell(self.armor));
        fields.push(byte_cell(self.shield));
        fields.push(byte_cell(self.attack));
        fields.push(byte_cell(self.attack_weak));
        fields.push(byte_cell(self.defense));
        fields.push(byte_cell(self.defense_weak));
        fields.push(loot);
        fields.push(strategy);
        proof {
            assert(byte_seqs(fields@) =~= goal);
        }
        build_dynvec(&fields)
    }
}

/// An `Enemy` document: an object with `id`, `rank` and `hp` numbers, the
/// six combat-stat numbers each defaulting to zero when absent, a
/// `loot_pool` array of numbers and an `action_strategy` record.
pub open spec fn dec_enemy(j: JsonV) -> Option<EnemyV> {
    match j {
        JsonV::Obj(fields) => match (
            field_u16(fields, "id"@),
            field_u8(fields, "rank"@),
            field_u16(fields, "hp"@),
            field_u16_vec(fields, "loot_pool"@),
            field_rec::<ActionContext>(fields, "action_strategy"@),
        ) {
            (
                Option::Some(id),
                Option::Some(rank),
                Option::Some(hp),
                Option::Some(loot),
                Option::Some(strategy),
            ) => match (
                field_u8_or_zero(fields, "armor"@),
                field_u8_or_zero(fields, "shield"@),
                field_u8_or_zero(fields, "attack"@),
                field_u8_or_zero(fields, "attack_weak"@),
                field_u8_or_zero(fields, "defense"@),
                field_u8_or_zero(fields, "defense_weak"@),
            ) {
                (
                    Option::Some(armor),
                    Option::Some(shield),
                    Option::Some(attack),
                    Option::Some(attack_weak),
                    Option::Some(defense),
                    Option::Some(defense_weak),
                ) => Option::Some(
                    (EnemyV {
                        id,
                        rank,
                        hp,
                        armor,
                        shield,
                        attack,
                        attack_weak,
                        defense,
                        defense_weak,
                        loot_pool: loot,
                        action_strategy: strategy,
                    }),
                ),
                _ => Option::None,
            },
            _ => Option::None,
        },
        _ => Option::None,
    }
}

impl Decode for Enemy {
    open spec fn dec(j: JsonV) -> Option<EnemyV> {
        dec_enemy(j)
    }

    fn from_json(j: &Json) -> (r: Result<Enemy, DecodeError>) {
        match j {
            Json::Obj(fields) => {
                let id = match get_u16(fields, "id") {
                    Ok(v) => v,
                    Err(e) => {
                        return Err(e);
                    },
                };
                let rank = match get_u8(fields, "rank") {
                    Ok(v) => v,
                    Err(e) => {
                        return Err(e);
                    },
                };
                let hp = match get_u16(fields, "hp") {
                    Ok(v) => v,
                    Err(e) => {
                        return Err(e);
                    },
                };
                let loot_pool = match get_u16_vec(fields, "loot_pool") {
                    Ok(v) => v,
                    Err(e) => {
                        return Err(e);
                    },
                };
                let action_strategy = match get_rec::<ActionContext>(fields, "action_strategy") {
                    Ok(v) => v,
                    Err(e) => {
                        return Err(e);
                    },
                };
                let armor = match get_u8_or_zero(fields, "armor") {
                    Ok(v) => v,
                    Err(e) => {
                        return Err(e);
                    },
                };
                let shield = match get_u8_or_zero(fields, "shield") {
                    Ok(v) => v,
                    Err(e) => {
                        return Err(e);
                    },
                };
                let attack = match get_u8_or_zero(fields, "attack") {
                    Ok(v) => v,
                    Err(e) => {
                        return Err(e);
                    },
                };
                let attack_weak = match get_u8_or_zero(fields, "attack_weak") {
                    Ok(v) => v,
                    Err(e) => {
                        return Err(e);
                    },
                };
                let defense = match get_u8_or_zero(fields, "defense") {
                    Ok(v) => v,
                    Err(e) => {
                        return Err(e);
                    },
                };
                let defense_weak = match get_u8_or_zero(fields, "defense_weak") {
                    Ok(v) => v,
                    Err(e) => {
                        return Err(e);
                    },
                };
                Ok(
                    Enemy {
                        id,
                        rank,
                        hp,
                        armor,
                        shield,
                        attack,
                        attack_weak,
                        defense,
                        defense_weak,
                        loot_pool,
                        action_strategy,
                    },
                )
            },
            _ => Err(DecodeError::ShapeMismatch),
        }
    }
}

/// The ordered collection of all enemies of one compile.
#[derive(Clone, Debug, PartialEq, Eq)]
pub struct EnemyPool {
    pub enemy_pool: Vec<Enemy>,
}

/// An enemy pool as a length-prefixed vector, preserving input order.
pub open spec fn enemy_vec_bytes(pool: Seq<EnemyV>) -> Seq<u8> {
    pool_bytes::<Enemy>(pool)
}

/// An enemy pool document: a bare record array, or the array under `enemy_pool` or its alias
/// `enemies`.
pub open spec fn dec_enemy_pool(doc: JsonV) -> Option<Seq<EnemyV>> {
    dec_pool_doc::<Enemy>(doc, "enemy_pool"@, "enemies"@)
}

/// What an enemy pool document text decodes to.
pub open spec fn enemy_pool_of_text(text: Seq<char>) -> Option<Seq<EnemyV>> {
    match json_doc(text) {
        Option::Some(doc) => dec_enemy_pool(doc),
        Option::None => Option::None,
    }
}

impl EnemyPool {
    /// Decode a whole pool document.
    pub fn from_json(doc: &Json) -> (r: Result<EnemyPool, DecodeError>)
        ensures
            (match r {
                Ok(p) => dec_enemy_pool(doc@) == Some(views(p.enemy_pool@)),
                Err(_) => dec_enemy_pool(doc@) is None,
            }),
    {
        match decode_pool_doc::<Enemy>(doc, "enemy_pool", "enemies") {
            Ok(v) => Ok(EnemyPool { enemy_pool: v }),
            Err(e) => Err(e),
        }
    }

    /// Decode a whole pool document from its JSON text.
    pub fn from_text(text: &str) -> (r: Result<EnemyPool, DecodeError>)
        ensures
            (match r {
                Ok(p) => enemy_pool_of_text(text@) == Some(views(p.enemy_pool@)),
                Err(_) => enemy_pool_of_text(text@) is None,
            }),
    {
        match parse_json(text) {
            Some(doc) => Self::from_json(&doc),
            None => Err(DecodeError::ShapeMismatch),
        }
    }

    /// Project the whole pool, preserving input order.
    pub fn encode(&self) -> (r: Result<Vec<u8>, EncodeError>)
        ensures
            (match r {
                Ok(b) => b@ == enemy_vec_bytes(views(self.enemy_pool@)) && b@.len() <= cell_max(),
                Err(_) => enemy_vec_bytes(views(self.enemy_pool@)).len() > cell_max(),
            }),
    {
        encode_pool::<Enemy>(&self.enemy_pool)
    }
}

} // verus!
