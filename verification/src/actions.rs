//! Actions: selectable moves referencing a pool of effects.

use vstd::prelude::*;

use crate::codec::{
    build_dynvec, byte_seqs, bool_cell, bool_byte, cell_max, dyn_total, encode_fixvec16,
    encode_pool, fixvec16_bytes, le16, lemma_dynvec_ge_part, lemma_dynvec_header_round_trip,
    lemma_dynvec_len, lemma_dynvec_order, lemma_fixvec16_round_trip, lemma_flat16_len,
    lemma_sum_len_take_succ, offset_of, pool_bytes, read_fixvec16_items, read_u32_at, sum_len,
    table_bytes, u16_cell, views, Encode, EncodeError,
};
use crate::json::{
    dec_pool_doc, decode_pool_doc, field_bool, field_u16, field_u16_vec, get_bool, get_u16,
    get_u16_vec, json_doc, parse_json, Decode, DecodeError, Json, JsonV,
};

verus! {

/// A selectable action: when `random` is set the runtime picks from
/// `effect_pool` at random, otherwise in order.
#[derive(Clone, Debug, PartialEq, Eq)]
pub struct Action {
    pub id: u16,
    pub random: bool,
    pub effect_pool: Vec<u16>,
}

/// The mathematical value of an `Action`.
pub struct ActionV {
    pub id: u16,
    pub random: bool,
    pub effect_pool: Seq<u16>,
}

impl View for Action {
    type V = ActionV;

    open spec fn view(&self) -> ActionV {
        ActionV { id: self.id, random: self.random, effect_pool: self.effect_pool@ }
    }
}

/// An `Action` as a table: id, random flag, then the effect id vector, in
/// that fixed field order.
pub open spec fn action_bytes(a: ActionV) -> Seq<u8> {
    table_bytes(
        seq![le16(a.id as int), seq![bool_byte(a.random)], fixvec16_bytes(a.effect_pool)],
    )
}

impl Encode for Action {
    open spec fn wire_bytes(v: ActionV) -> Seq<u8> {
        action_bytes(v)
    }

    fn encode(&self) -> (r: Result<Vec<u8>, EncodeError>) {
        let ghost goal = seq![
            le16(self.id as int),
            seq![bool_byte(self.random)],
            fixvec16_bytes(self.effect_pool@),
        ];
        let eff = match encode_fixvec16(&self.effect_pool) {
            Ok(b) => b,
            Err(e) => {
                proof {
                    lemma_dynvec_ge_part(goal, 2);
                }
                return Err(e);
            },
        };
        let mut fields: Vec<Vec<u8>> = Vec::new();
        fields.push(u16_cell(self.id));
        fields.push(bool_cell(self.random));
        fields.push(eff);
        proof {
            assert(byte_seqs(fields@) =~= goal);
        }
        build_dynvec(&fields)
    }
}

/// An action read back from its binary record: the id from its two bytes
/// at the first field's offset, the flag from its byte, and the effect pool
/// from the count-prefixed vector at the third field's offset.
pub open spec fn read_action(s: Seq<u8>) -> ActionV {
    let id_off = read_u32_at(s, 4);
    let random_off = read_u32_at(s, 8);
    let pool_off = read_u32_at(s, 12);
    ActionV {
        id: (((s[id_off] as int) + 256 * (s[id_off + 1] as int)) as u16),
        random: s[random_off] == 1,
        effect_pool: read_fixvec16_items(s.skip(pool_off), read_u32_at(s, pool_off)),
    }
}

/// The header of an action record locates its three fields at the fixed
/// positions the field order dictates.
proof fn lemma_action_field_offsets(a: ActionV)
    requires
        action_bytes(a).len() <= cell_max(),
    ensures
        read_u32_at(action_bytes(a), 4) == 16,
        read_u32_at(action_bytes(a), 8) == 18,
        read_u32_at(action_bytes(a), 12) == 19,
        action_bytes(a).subrange(16, 18) == le16(a.id as int),
        action_bytes(a).subrange(18, 19) == seq![bool_byte(a.random)],
        action_bytes(a).skip(19) == fixvec16_bytes(a.effect_pool),
        action_bytes(a).len() == 19 + fixvec16_bytes(a.effect_pool).len(),
{
    let fields = seq![le16(a.id as int), seq![bool_byte(a.random)], fixvec16_bytes(a.effect_pool)];
    let s = action_bytes(a);
    lemma_dynvec_len(fields);
    assert(fields.take(0) =~= Seq::<Seq<u8>>::empty());
    assert(fields.take(1) =~= seq![le16(a.id as int)]);
    assert(fields.take(2) =~= seq![le16(a.id as int), seq![bool_byte(a.random)]]);
    lemma_sum_len_take_succ(fields, 0);
    lemma_sum_len_take_succ(fields, 1);
    assert(fields.take(0).len() == 0);
    assert(sum_len(fields.take(0)) == 0);
    assert(fields[0].len() == 2);
    assert(fields[1].len() == 1);
    assert(sum_len(fields.take(1)) == 2);
    assert(sum_len(fields.take(2)) == 3);
    assert(offset_of(fields, 0) == 16);
    assert(offset_of(fields, 1) == 18);
    assert(offset_of(fields, 2) == 19);
    lemma_dynvec_header_round_trip(fields, 0);
    lemma_dynvec_header_round_trip(fields, 1);
    lemma_dynvec_header_round_trip(fields, 2);
    lemma_dynvec_order(fields, 0);
    lemma_dynvec_order(fields, 1);
    lemma_dynvec_order(fields, 2);
    assert(dyn_total(fields) == 19 + fields[2].len() as int);
    assert(s.skip(19) =~= s.subrange(19, 19 + fields[2].len() as int));
}

/// Round trip: reading an action's binary record back yields exactly the
/// record that was projected — nothing of the typed value is lost in the
/// bytes.
#[verifier::rlimit(100)]
pub proof fn lemma_action_round_trip(a: ActionV)
    requires
        action_bytes(a).len() <= cell_max(),
    ensures
        read_action(action_bytes(a)) == a,
{
    let s = action_bytes(a);
    lemma_action_field_offsets(a);
    // The id field: its two bytes give the id back.
    assert(read_action(s).id == a.id) by {
        assert(s.subrange(16, 18)[0] == s[16]);
        assert(s.subrange(16, 18)[1] == s[17]);
        assert((((s[16] as int) + 256 * (s[17] as int)) as u16) == a.id);
    }
    // The flag field: one byte, 1 exactly for true.
    assert(read_action(s).random == a.random) by {
        assert(s.subrange(18, 19)[0] == s[18]);
        assert(s[18] == bool_byte(a.random));
    }
    // The effect pool: the count then the items, read back unchanged.
    assert(read_action(s).effect_pool == a.effect_pool) by {
        lemma_flat16_len(a.effect_pool);
        assert(s.skip(19).subrange(0, 4) =~= crate::codec::le32(a.effect_pool.len() as int));
        crate::codec::lemma_le32_round_trip(a.effect_pool.len() as int);
        assert(read_u32_at(s, 19) == read_u32_at(s.skip(19).subrange(0, 4), 0)) by {
            assert(s.skip(19).subrange(0, 4)[0] == s[19]);
            assert(s.skip(19).subrange(0, 4)[1] == s[20]);
            assert(s.skip(19).subrange(0, 4)[2] == s[21]);
            assert(s.skip(19).subrange(0, 4)[3] == s[22]);
        }
        assert(read_u32_at(s, 19) == a.effect_pool.len());
        lemma_fixvec16_round_trip(a.effect_pool);
    }
}

/// An `Action` document: an object with an `id` number, a `random` boolean
/// and an `effect_pool` array of numbers; other fields are ignored.
pub open spec fn dec_action(j: JsonV) -> Option<ActionV> {
    match j {
        JsonV::Obj(fields) => match (
            field_u16(fields, "id"@),
            field_bool(fields, "random"@),
            field_u16_vec(fields, "effect_pool"@),
        ) {
            (Option::Some(id), Option::Some(random), Option::Some(eff)) => Option::Some(
                (ActionV { id, random, effect_pool: eff }),
            ),
            _ => Option::None,
        },
        _ => Option::None,
    }
}

impl Decode for Action {
    open spec fn dec(j: JsonV) -> Option<ActionV> {
        dec_action(j)
    }

    fn from_json(j: &Json) -> (r: Result<Action, DecodeError>) {
        match j {
            Json::Obj(fields) => {
                let id = match get_u16(fields, "id") {
                    Ok(v) => v,
                    Err(e) => {
                        return Err(e);
                    },
                };
                let random = match get_bool(fields, "random") {
                    Ok(v) => v,
                    Err(e) => {
                        return Err(e);
                    },
                };
                let effect_pool = match get_u16_vec(fields, "effect_pool") {
                    Ok(v) => v,
                    Err(e) => {
                        return Err(e);
                    },
                };
                Ok(Action { id, random, effect_pool })
            },
            _ => Err(DecodeError::ShapeMismatch),
        }
    }
}

/// The ordered collection of all actions of one compile.
#[derive(Clone, Debug, PartialEq, Eq)]
pub struct ActionPool {
    pub action_pool: Vec<Action>,
}

/// An action pool as a length-prefixed vector, preserving input order.
pub open spec fn action_vec_bytes(pool: Seq<ActionV>) -> Seq<u8> {
    pool_bytes::<Action>(pool)
}

/// An action pool document: a bare record array, or the array under `action_pool` or its
/// alias `actions`.
pub open spec fn dec_action_pool(doc: JsonV) -> Option<Seq<ActionV>> {
    dec_pool_doc::<Action>(doc, "action_pool"@, "actions"@)
}

/// What an action pool document text decodes to.
pub open spec fn action_pool_of_text(text: Seq<char>) -> Option<Seq<ActionV>> {
    match json_doc(text) {
        Option::Some(doc) => dec_action_pool(doc),
        Option::None => Option::None,
    }
}

impl ActionPool {
    /// Decode a whole pool document.
    pub fn from_json(doc: &Json) -> (r: Result<ActionPool, DecodeError>)
        ensures
            (match r {
                Ok(p) => dec_action_pool(doc@) == Some(views(p.action_pool@)),
                Err(_) => dec_action_pool(doc@) is None,
            }),
    {
        match decode_pool_doc::<Action>(doc, "action_pool", "actions") {
            Ok(v) => Ok(ActionPool { action_pool: v }),
            Err(e) => Err(e),
        }
    }

    /// Decode a whole pool document from its JSON text.
    pub fn from_text(text: &str) -> (r: Result<ActionPool, DecodeError>)
        ensures
            (match r {
                Ok(p) => action_pool_of_text(text@) == Some(views(p.action_pool@)),
                Err(_) => action_pool_of_text(text@) is None,
            }),
    {
        match parse_json(text) {
            Some(doc) => Self::from_json(&doc),
            None => Err(DecodeError::ShapeMismatch),
        }
    }

    /// Project the whole pool, preserving input order.
    pub fn encode(&self) -> (r: Result<Vec<u8>, EncodeError>)
        ensures
            (match r {
                Ok(b) => b@ == action_vec_bytes(views(self.action_pool@)) && b@.len()
                    <= cell_max(),
                Err(_) => action_vec_bytes(views(self.action_pool@)).len() > cell_max(),
            }),
    {
        encode_pool::<Action>(&self.action_pool)
    }
}

} // verus!
