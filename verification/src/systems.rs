//! Systems: the canonical effect model — one system invocation with typed
//! arguments and an optional expiry duration. (An older document shape split
//! an effect into trigger, execution and discard phases; this library keeps
//! the single system-with-duration record as the one canonical model.)

use vstd::prelude::*;

use crate::codec::{
    build_dynvec, byte_cell, byte_seqs, cell_max, encode_pool, le16, lemma_dynvec_ge_part,
    pool_bytes, table_bytes, u16_cell, views, Encode, EncodeError,
};
use crate::json::{
    dec_pool_doc, dec_u16, decode_pool_doc, field_opt_rec, field_seq, field_u16,
    field_u8_or_zero, get_field, get_opt_rec, get_seq, get_u8_or_zero, json_doc, obj_get,
    opt_view, parse_json, Decode, DecodeError, Json, JsonV,
};
use crate::types::{duration_opt_bytes, encode_duration_opt, Duration, Value};

verus! {

/// A system record: which runtime system to invoke, its typed arguments in
/// order, and how long its effect lasts (absent means instantaneous).
#[derive(Clone, Debug, PartialEq, Eq)]
pub struct System {
    pub id: u16,
    pub system_id: u16,
    pub target_type: u8,
    pub args: Vec<Value>,
    pub duration: Option<Duration>,
}

/// The mathematical value of a `System`.
pub struct SystemV {
    pub id: u16,
    pub system_id: u16,
    pub target_type: u8,
    pub args: Seq<Value>,
    pub duration: Option<Duration>,
}

impl View for System {
    type V = SystemV;

    open spec fn view(&self) -> SystemV {
        SystemV {
            id: self.id,
            system_id: self.system_id,
            target_type: self.target_type,
            args: self.args@,
            duration: self.duration,
        }
    }
}

/// A `System` as a table: id, system id, target type, the argument vector,
/// then the optional duration, in that fixed field order.
pub open spec fn system_bytes(s: SystemV) -> Seq<u8> {
    table_bytes(
        seq![
            le16(s.id as int),
            le16(s.system_id as int),
            seq![s.target_type],
            pool_bytes::<Value>(s.args),
            duration_opt_bytes(s.duration),
        ],
    )
}

impl Encode for System {
    open spec fn wire_bytes(v: SystemV) -> Seq<u8> {
        system_bytes(v)
    }

    fn encode(&self) -> (r: Result<Vec<u8>, EncodeError>) {
        let ghost goal = seq![
            le16(self.id as int),
            le16(self.system_id as int),
            seq![self.target_type],
            pool_bytes::<Value>(self.args@),
            duration_opt_bytes(self.duration),
        ];
        let args = match encode_pool::<Value>(&self.args) {
            Ok(b) => b,
            Err(e) => {
                proof {
                    assert(views(self.args@) =~= self.args@);
                    lemma_dynvec_ge_part(goal, 3);
                }
                return Err(e);
            },
        };
        let mut fields: Vec<Vec<u8>> = Vec::new();
        fields.push(u16_cell(self.id));
        fields.push(u16_cell(self.system_id));
        fields.push(byte_cell(self.target_type));
        fields.push(args);
        fields.push(encode_duration_opt(&self.duration));
        proof {
            assert(views(self.args@) =~= self.args@);
            assert(byte_seqs(fields@) =~= goal);
        }
        build_dynvec(&fields)
    }
}

/// The system identifier of a `System` document: under `system_id` or its
/// alias `system`, exactly one of the two.
pub open spec fn dec_system_id(fields: Seq<(Seq<char>, JsonV)>) -> Option<u16> {
    match (obj_get(fields, "system_id"@), obj_get(fields, "system"@)) {
        (Option::Some(j), Option::None) => dec_u16(j),
        (Option::None, Option::Some(j)) => dec_u16(j),
        _ => Option::None,
    }
}

/// A `System` document: an object with an `id` number, the system
/// identifier under `system_id` or its alias `system`, a `target_type`
/// number defaulting to zero, an `args` array of `Value` documents, and an
/// optional `duration`.
pub open spec fn dec_system(j: JsonV) -> Option<SystemV> {
    match j {
        JsonV::Obj(fields) => match (
            field_u16(fields, "id"@),
            dec_system_id(fields),
            field_u8_or_zero(fields, "target_type"@),
            field_seq::<Value>(fields, "args"@),
            field_opt_rec::<Duration>(fields, "duration"@),
        ) {
            (
                Option::Some(id),
                Option::Some(sid),
                Option::Some(target_type),
                Option::Some(args),
                Option::Some(duration),
            ) => Option::Some((SystemV { id, system_id: sid, target_type, args, duration })),
            _ => Option::None,
        },
        _ => Option::None,
    }
}

impl Decode for System {
    open spec fn dec(j: JsonV) -> Option<SystemV> {
        dec_system(j)
    }

    fn from_json(j: &Json) -> (r: Result<System, DecodeError>) {
        match j {
            Json::Obj(fields) => {
                let id = match crate::json::get_u16(fields, "id") {
                    Ok(v) => v,
                    Err(e) => {
                        return Err(e);
                    },
                };
                let named = get_field(fields, "system_id");
                let aliased = get_field(fields, "system");
                let sid_field = match (named, aliased) {
                    (Some(f), None) => f,
                    (None, Some(f)) => f,
                    _ => {
                        return Err(DecodeError::ShapeMismatch);
                    },
                };
                let sid = match sid_field {
                    Json::Num(n) => {
                        if *n <= 0xffff {
                            *n as u16
                        } else {
                            return Err(DecodeError::ShapeMismatch);
                        }
                    },
                    _ => {
                        return Err(DecodeError::ShapeMismatch);
                    },
                };
                let target_type = match get_u8_or_zero(fields, "target_type") {
                    Ok(v) => v,
                    Err(e) => {
                        return Err(e);
                    },
                };
                let args = match get_seq::<Value>(fields, "args") {
                    Ok(v) => v,
                    Err(e) => {
                        return Err(e);
                    },
                };
                let duration = match get_opt_rec::<Duration>(fields, "duration") {
                    Ok(v) => v,
                    Err(e) => {
                        return Err(e);
                    },
                };
                proof {
                    assert(views(args@) =~= args@);
                    assert(opt_view(duration) == duration);
                }
                Ok(System { id, system_id: sid, target_type, args, duration })
            },
            _ => Err(DecodeError::ShapeMismatch),
        }
    }
}

/// The ordered collection of all systems of one compile.
#[derive(Clone, Debug, PartialEq, Eq)]
pub struct SystemPool {
    pub system_pool: Vec<System>,
}

/// A system pool as a length-prefixed vector, preserving input order.
pub open spec fn system_vec_bytes(pool: Seq<SystemV>) -> Seq<u8> {
    pool_bytes::<System>(pool)
}

/// A system pool document: a bare record array, or the array under `system_pool` or its
/// alias `systems`.
pub open spec fn dec_system_pool(doc: JsonV) -> Option<Seq<SystemV>> {
    dec_pool_doc::<System>(doc, "system_pool"@, "systems"@)
}

/// What a system pool document text decodes to.
pub open spec fn system_pool_of_text(text: Seq<char>) -> Option<Seq<SystemV>> {
    match json_doc(text) {
        Option::Some(doc) => dec_system_pool(doc),
        Option::None => Option::None,
    }
}

impl SystemPool {
    /// Decode a whole pool document.
    pub fn from_json(doc: &Json) -> (r: Result<SystemPool, DecodeError>)
        ensures
            (match r {
                Ok(p) => dec_system_pool(doc@) == Some(views(p.system_pool@)),
                Err(_) => dec_system_pool(doc@) is None,
            }),
    {
        match decode_pool_doc::<System>(doc, "system_pool", "systems") {
            Ok(v) => Ok(SystemPool { system_pool: v }),
            Err(e) => Err(e),
        }
    }

    /// Decode a whole pool document from its JSON text.
    pub fn from_text(text: &str) -> (r: Result<SystemPool, DecodeError>)
        ensures
            (match r {
                Ok(p) => system_pool_of_text(text@) == Some(views(p.system_pool@)),
                Err(_) => system_pool_of_text(text@) is None,
            }),
    {
        match parse_json(text) {
            Some(doc) => Self::from_json(&doc),
            None => Err(DecodeError::ShapeMismatch),
        }
    }

    /// Project the whole pool, preserving input order.
    pub fn encode(&self) -> (r: Result<Vec<u8>, EncodeError>)
        ensures
            (match r {
                Ok(b) => b@ == system_vec_bytes(views(self.system_pool@)) && b@.len()
                    <= cell_max(),
                Err(_) => system_vec_bytes(views(self.system_pool@)).len() > cell_max(),
            }),
    {
        encode_pool::<System>(&self.system_pool)
    }
}

} // verus!
