//! Composite value types shared across resource kinds, with their binary
//! projections: bounded random ranges, 2-D sizes and coordinates, the
//! polymorphic argument value, an invocation context, and an effect duration.

use vstd::prelude::*;

use crate::codec::{
    bool_byte, build_dynvec, byte_seqs, encode_pool, le16, lemma_dynvec_ge_part, pool_bytes,
    push_u32_cell, table_bytes, u16_cell, union_bytes, views, Encode, EncodeError,
};
use crate::json::{
    dec_u16, field_bool, field_seq, field_u16, field_u8, fields_view, get_bool, get_seq,
    get_u16, get_u8, Decode, DecodeError, Json, JsonV,
};

verus! {

/// A bounded range, resolved at runtime by sampling in `[min, max]`. The
/// bound `min <= max` is not validated here; it is the runtime's concern.
#[derive(Clone, Copy, Debug, PartialEq, Eq, Structural)]
pub struct Random<T> {
    pub min: T,
    pub max: T,
}

/// A 16-bit range: both bounds as 16-bit cells, lower bound first.
pub open spec fn random_u16_bytes(r: Random<u16>) -> Seq<u8> {
    le16(r.min as int) + le16(r.max as int)
}

/// An 8-bit range: both bounds as single byte cells, lower bound first.
pub open spec fn random_u8_bytes(r: Random<u8>) -> Seq<u8> {
    seq![r.min, r.max]
}

pub fn encode_random_u16(r: &Random<u16>) -> (b: Vec<u8>)
    ensures
        b@ == random_u16_bytes(*r),
{
    let mut out = u16_cell(r.min);
    let mut hi = u16_cell(r.max);
    out.append(&mut hi);
    out
}

pub fn encode_random_u8(r: &Random<u8>) -> (b: Vec<u8>)
    ensures
        b@ == random_u8_bytes(*r),
{
    let mut out: Vec<u8> = Vec::new();
    out.push(r.min);
    out.push(r.max);
    proof {
        assert(out@ =~= random_u8_bytes(*r));
    }
    out
}

/// A 2-D grid extent. A document may omit it; it then defaults to `{0, 0}`.
#[derive(Clone, Copy, Debug, PartialEq, Eq, Structural)]
pub struct GridSize {
    pub x: u8,
    pub y: u8,
}

impl Default for GridSize {
    fn default() -> (r: Self)
        ensures
            r == (GridSize { x: 0u8, y: 0u8 }),
    {
        GridSize { x: 0, y: 0 }
    }
}

/// A 2-D grid cell position.
#[derive(Clone, Copy, Debug, PartialEq, Eq, Structural)]
pub struct Coordinate {
    pub x: u8,
    pub y: u8,
}

/// Both 2-D shapes project as two single byte cells, `x` first.
pub open spec fn size_bytes(s: GridSize) -> Seq<u8> {
    seq![s.x, s.y]
}

pub open spec fn coordinate_bytes(c: Coordinate) -> Seq<u8> {
    seq![c.x, c.y]
}

pub fn encode_size(s: &GridSize) -> (b: Vec<u8>)
    ensures
        b@ == size_bytes(*s),
{
    let mut out: Vec<u8> = Vec::new();
    out.push(s.x);
    out.push(s.y);
    proof {
        assert(out@ =~= size_bytes(*s));
    }
    out
}

pub fn encode_coordinate(c: &Coordinate) -> (b: Vec<u8>)
    ensures
        b@ == coordinate_bytes(*c),
{
    let mut out: Vec<u8> = Vec::new();
    out.push(c.x);
    out.push(c.y);
    proof {
        assert(out@ =~= coordinate_bytes(*c));
    }
    out
}

/// A typed argument of a system invocation: a literal number or a bounded
/// random range. The closed variant set and its tag order are part of the
/// wire contract.
#[derive(Clone, Copy, Debug, PartialEq, Eq, Structural)]
pub enum Value {
    Number(u16),
    Random(Random<u16>),
}

/// The fixed union tag of each `Value` variant.
pub open spec fn value_tag(v: Value) -> int {
    match v {
        Value::Number(_) => 0,
        Value::Random(_) => 1,
    }
}

/// A `Value` as a tagged union: its fixed tag, then its payload.
pub open spec fn value_bytes(v: Value) -> Seq<u8> {
    match v {
        Value::Number(n) => union_bytes(0, le16(n as int)),
        Value::Random(r) => union_bytes(1, random_u16_bytes(r)),
    }
}

/// Union tag stability: every `Value` variant always encodes with the same
/// fixed tag in its first four bytes, across any two compiles.
pub proof fn lemma_value_tag_stable(v: Value)
    ensures
        value_bytes(v).len() >= 4,
        value_bytes(v).subrange(0, 4) == crate::codec::le32(value_tag(v)),
{
    match v {
        Value::Number(_) => {
            assert(value_bytes(v).subrange(0, 4) =~= crate::codec::le32(value_tag(v)));
        },
        Value::Random(_) => {
            assert(value_bytes(v).subrange(0, 4) =~= crate::codec::le32(value_tag(v)));
        },
    }
}

impl View for Value {
    type V = Value;

    open spec fn view(&self) -> Value {
        *self
    }
}

impl Encode for Value {
    open spec fn wire_bytes(v: Value) -> Seq<u8> {
        value_bytes(v)
    }

    fn encode(&self) -> (r: Result<Vec<u8>, EncodeError>) {
        match self {
            Value::Number(n) => {
                let mut out: Vec<u8> = Vec::new();
                push_u32_cell(&mut out, 0);
                let mut body = u16_cell(*n);
                out.append(&mut body);
                proof {
                    assert(out@ =~= value_bytes(self@));
                }
                Ok(out)
            },
            Value::Random(rg) => {
                let mut out: Vec<u8> = Vec::new();
                push_u32_cell(&mut out, 1);
                let mut body = encode_random_u16(rg);
                out.append(&mut body);
                proof {
                    assert(out@ =~= value_bytes(self@));
                }
                Ok(out)
            },
        }
    }
}

/// An invocation descriptor: call system `system_id` with `args`, in order.
#[derive(Clone, Debug, PartialEq, Eq)]
pub struct Context {
    pub system_id: u16,
    pub args: Vec<Value>,
}

/// The mathematical value of a `Context`.
pub struct ContextV {
    pub system_id: u16,
    pub args: Seq<Value>,
}

impl View for Context {
    type V = ContextV;

    open spec fn view(&self) -> ContextV {
        ContextV { system_id: self.system_id, args: self.args@ }
    }
}

/// A `Context` as a table: the system id cell, then the argument vector.
pub open spec fn context_bytes(c: ContextV) -> Seq<u8> {
    table_bytes(seq![le16(c.system_id as int), pool_bytes::<Value>(c.args)])
}

impl Encode for Context {
    open spec fn wire_bytes(v: ContextV) -> Seq<u8> {
        context_bytes(v)
    }

    fn encode(&self) -> (r: Result<Vec<u8>, EncodeError>) {
        let ghost goal = seq![le16(self.system_id as int), pool_bytes::<Value>(self.args@)];
        let args = match encode_pool::<Value>(&self.args) {
            Ok(b) => b,
            Err(e) => {
                proof {
                    assert(views(self.args@) =~= self.args@);
                    lemma_dynvec_ge_part(goal, 1);
                }
                return Err(e);
            },
        };
        let mut fields: Vec<Vec<u8>> = Vec::new();
        fields.push(u16_cell(self.system_id));
        fields.push(args);
        proof {
            assert(views(self.args@) =~= self.args@);
            assert(byte_seqs(fields@) =~= goal);
        }
        build_dynvec(&fields)
    }
}

/// A life-point-linked expiry trigger: the effect ends when the system
/// `listening_system_id` sees the life value reach `point`; `round_recover`
/// says whether the count is restored each round.
#[derive(Clone, Copy, Debug, PartialEq, Eq, Structural)]
pub struct LifePoint {
    pub listening_system_id: u16,
    pub point: u16,
    pub round_recover: bool,
}

/// When an effect expires: after a fixed number of rounds, or on a
/// life-point-linked trigger. The closed variant set and its tag order are
/// part of the wire contract.
#[derive(Clone, Copy, Debug, PartialEq, Eq, Structural)]
pub enum Duration {
    Number(u16),
    LifePoint(LifePoint),
}

/// The fixed union tag of each `Duration` variant.
pub open spec fn duration_tag(d: Duration) -> int {
    match d {
        Duration::Number(_) => 0,
        Duration::LifePoint(_) => 1,
    }
}

/// A `LifePoint` as a fixed-width struct: the listening system id and the
/// point as 16-bit cells, then the recover flag as one byte.
pub open spec fn life_point_bytes(lp: LifePoint) -> Seq<u8> {
    le16(lp.listening_system_id as int) + le16(lp.point as int) + seq![bool_byte(
        lp.round_recover,
    )]
}

/// A `Duration` as a tagged union: its fixed tag, then its payload.
pub open spec fn duration_bytes(d: Duration) -> Seq<u8> {
    match d {
        Duration::Number(n) => union_bytes(0, le16(n as int)),
        Duration::LifePoint(lp) => union_bytes(1, life_point_bytes(lp)),
    }
}

/// Union tag stability: every `Duration` variant always encodes with the
/// same fixed tag in its first four bytes, across any two compiles.
pub proof fn lemma_duration_tag_stable(d: Duration)
    ensures
        duration_bytes(d).len() >= 4,
        duration_bytes(d).subrange(0, 4) == crate::codec::le32(duration_tag(d)),
{
    match d {
        Duration::Number(_) => {
            assert(duration_bytes(d).subrange(0, 4) =~= crate::codec::le32(duration_tag(d)));
        },
        Duration::LifePoint(_) => {
            assert(duration_bytes(d).subrange(0, 4) =~= crate::codec::le32(duration_tag(d)));
        },
    }
}

/// An optional `Duration`: absent encodes to no bytes.
pub open spec fn duration_opt_bytes(o: Option<Duration>) -> Seq<u8> {
    match o {
        Option::None => Seq::empty(),
        Option::Some(d) => duration_bytes(d),
    }
}

/// A 16-bit range document: an object with `min` and `max` number fields.
pub open spec fn dec_random_u16(j: JsonV) -> Option<Random<u16>> {
    match j {
        JsonV::Obj(fields) => match (field_u16(fields, "min"@), field_u16(fields, "max"@)) {
            (Option::Some(mn), Option::Some(mx)) => Option::Some(
                (Random { min: mn, max: mx }),
            ),
            _ => Option::None,
        },
        _ => Option::None,
    }
}

impl View for Random<u16> {
    type V = Random<u16>;

    open spec fn view(&self) -> Random<u16> {
        *self
    }
}

impl Decode for Random<u16> {
    open spec fn dec(j: JsonV) -> Option<Random<u16>> {
        dec_random_u16(j)
    }

    fn from_json(j: &Json) -> (r: Result<Random<u16>, DecodeError>) {
        match j {
            Json::Obj(fields) => {
                let mn = match get_u16(fields, "min") {
                    Ok(v) => v,
                    Err(e) => {
                        return Err(e);
                    },
                };
                let mx = match get_u16(fields, "max") {
                    Ok(v) => v,
                    Err(e) => {
                        return Err(e);
                    },
                };
                Ok(Random { min: mn, max: mx })
            },
            _ => Err(DecodeError::ShapeMismatch),
        }
    }
}

/// An 8-bit range document: an object with `min` and `max` number fields.
pub open spec fn dec_random_u8(j: JsonV) -> Option<Random<u8>> {
    match j {
        JsonV::Obj(fields) => match (field_u8(fields, "min"@), field_u8(fields, "max"@)) {
            (Option::Some(mn), Option::Some(mx)) => Option::Some(
                (Random { min: mn, max: mx }),
            ),
            _ => Option::None,
        },
        _ => Option::None,
    }
}

impl View for Random<u8> {
    type V = Random<u8>;

    open spec fn view(&self) -> Random<u8> {
        *self
    }
}

impl Decode for Random<u8> {
    open spec fn dec(j: JsonV) -> Option<Random<u8>> {
        dec_random_u8(j)
    }

    fn from_json(j: &Json) -> (r: Result<Random<u8>, DecodeError>) {
        match j {
            Json::Obj(fields) => {
                let mn = match get_u8(fields, "min") {
                    Ok(v) => v,
                    Err(e) => {
                        return Err(e);
                    },
                };
                let mx = match get_u8(fields, "max") {
                    Ok(v) => v,
                    Err(e) => {
                        return Err(e);
                    },
                };
                Ok(Random { min: mn, max: mx })
            },
            _ => Err(DecodeError::ShapeMismatch),
        }
    }
}

/// A 2-D shape document: an object with `x` and `y` number fields.
pub open spec fn dec_coordinate(j: JsonV) -> Option<Coordinate> {
    match j {
        JsonV::Obj(fields) => match (field_u8(fields, "x"@), field_u8(fields, "y"@)) {
            (Option::Some(x), Option::Some(y)) => Option::Some((Coordinate { x, y })),
            _ => Option::None,
        },
        _ => Option::None,
    }
}

impl View for Coordinate {
    type V = Coordinate;

    open spec fn view(&self) -> Coordinate {
        *self
    }
}

impl Decode for Coordinate {
    open spec fn dec(j: JsonV) -> Option<Coordinate> {
        dec_coordinate(j)
    }

    fn from_json(j: &Json) -> (r: Result<Coordinate, DecodeError>) {
        match j {
            Json::Obj(fields) => {
                let x = match get_u8(fields, "x") {
                    Ok(v) => v,
                    Err(e) => {
                        return Err(e);
                    },
                };
                let y = match get_u8(fields, "y") {
                    Ok(v) => v,
                    Err(e) => {
                        return Err(e);
                    },
                };
                Ok(Coordinate { x, y })
            },
            _ => Err(DecodeError::ShapeMismatch),
        }
    }
}

/// A grid extent document: an object with `x` and `y` number fields.
pub open spec fn dec_size(j: JsonV) -> Option<GridSize> {
    match j {
        JsonV::Obj(fields) => match (field_u8(fields, "x"@), field_u8(fields, "y"@)) {
            (Option::Some(x), Option::Some(y)) => Option::Some((GridSize { x, y })),
            _ => Option::None,
        },
        _ => Option::None,
    }
}

impl View for GridSize {
    type V = GridSize;

    open spec fn view(&self) -> GridSize {
        *self
    }
}

impl Decode for GridSize {
    open spec fn dec(j: JsonV) -> Option<GridSize> {
        dec_size(j)
    }

    #[verifier::rlimit(50)]
    fn from_json(j: &Json) -> (r: Result<GridSize, DecodeError>) {
        match j {
            Json::Obj(fields) => {
                proof {
                    assert(j@ == JsonV::Obj(fields_view(fields@)));
                }
                let x = match get_u8(fields, "x") {
                    Ok(v) => v,
                    Err(e) => {
                        return Err(e);
                    },
                };
                let y = match get_u8(fields, "y") {
                    Ok(v) => v,
                    Err(e) => {
                        return Err(e);
                    },
                };
                proof {
                    assert(field_u8(fields_view(fields@), "x"@) == Some(x));
                    assert(field_u8(fields_view(fields@), "y"@) == Some(y));
                    assert(dec_size(j@) == Some((GridSize { x, y })));
                    assert(<GridSize as Decode>::dec(j@) == Some((GridSize { x, y })));
                }
                Ok(GridSize { x, y })
            },
            _ => Err(DecodeError::ShapeMismatch),
        }
    }
}

/// A `Value` document: an object with exactly one field whose key names the
/// variant — `Number` or `number` for a literal, `Random` or `random` for a
/// range — and whose value is the variant's payload. Any other key is
/// outside the closed set and is rejected.
pub open spec fn dec_value(j: JsonV) -> Option<Value> {
    match j {
        JsonV::Obj(fields) => if fields.len() == 1 {
            if fields[0].0 == "Number"@ || fields[0].0 == "number"@ {
                match dec_u16(fields[0].1) {
                    Option::Some(n) => Option::Some(Value::Number(n)),
                    Option::None => Option::None,
                }
            } else if fields[0].0 == "Random"@ || fields[0].0 == "random"@ {
                match dec_random_u16(fields[0].1) {
                    Option::Some(rg) => Option::Some(Value::Random(rg)),
                    Option::None => Option::None,
                }
            } else {
                Option::None
            }
        } else {
            Option::None
        },
        _ => Option::None,
    }
}

impl Decode for Value {
    open spec fn dec(j: JsonV) -> Option<Value> {
        dec_value(j)
    }

    fn from_json(j: &Json) -> (r: Result<Value, DecodeError>) {
        match j {
            Json::Obj(fields) => {
                if fields.len() != 1 {
                    proof {
                        assert(fields_view(fields@).len() == fields@.len());
                        assert(j@ == JsonV::Obj(fields_view(fields@)));
                        assert(dec_value(j@) is None);
                    }
                    return Err(DecodeError::ShapeMismatch);
                }
                let pair = &fields[0];
                proof {
                    assert(fields_view(fields@)[0] == (fields@[0].0@, fields@[0].1@));
                }
                if pair.0 == "Number".to_owned() || pair.0 == "number".to_owned() {
                    match &pair.1 {
                        Json::Num(n) => {
                            if *n <= 0xffff {
                                Ok(Value::Number(*n as u16))
                            } else {
                                Err(DecodeError::ShapeMismatch)
                            }
                        },
                        _ => Err(DecodeError::ShapeMismatch),
                    }
                } else if pair.0 == "Random".to_owned() || pair.0 == "random".to_owned() {
                    match Random::<u16>::from_json(&pair.1) {
                        Ok(rg) => Ok(Value::Random(rg)),
                        Err(e) => Err(e),
                    }
                } else {
                    Err(DecodeError::ShapeMismatch)
                }
            },
            _ => Err(DecodeError::ShapeMismatch),
        }
    }
}

/// A `Context` document: an object with a `system_id` number field and an
/// `args` array of `Value` documents.
pub open spec fn dec_context(j: JsonV) -> Option<ContextV> {
    match j {
        JsonV::Obj(fields) => match (
            field_u16(fields, "system_id"@),
            field_seq::<Value>(fields, "args"@),
        ) {
            (Option::Some(sid), Option::Some(args)) => Option::Some(
                (ContextV { system_id: sid, args }),
            ),
            _ => Option::None,
        },
        _ => Option::None,
    }
}

impl Decode for Context {
    open spec fn dec(j: JsonV) -> Option<ContextV> {
        dec_context(j)
    }

    fn from_json(j: &Json) -> (r: Result<Context, DecodeError>) {
        match j {
            Json::Obj(fields) => {
                let sid = match get_u16(fields, "system_id") {
                    Ok(v) => v,
                    Err(e) => {
                        return Err(e);
                    },
                };
                let args = match get_seq::<Value>(fields, "args") {
                    Ok(v) => v,
                    Err(e) => {
                        return Err(e);
                    },
                };
                proof {
                    assert(views(args@) =~= args@);
                }
                Ok(Context { system_id: sid, args })
            },
            _ => Err(DecodeError::ShapeMismatch),
        }
    }
}

/// A `LifePoint` document: an object with `listening_system_id` and
/// `point` numbers and a `round_recover` boolean.
pub open spec fn dec_life_point(j: JsonV) -> Option<LifePoint> {
    match j {
        JsonV::Obj(fields) => match (
            field_u16(fields, "listening_system_id"@),
            field_u16(fields, "point"@),
            field_bool(fields, "round_recover"@),
        ) {
            (Option::Some(sid), Option::Some(point), Option::Some(rr)) => Option::Some(
                (LifePoint { listening_system_id: sid, point, round_recover: rr }),
            ),
            _ => Option::None,
        },
        _ => Option::None,
    }
}

impl View for LifePoint {
    type V = LifePoint;

    open spec fn view(&self) -> LifePoint {
        *self
    }
}

impl Decode for LifePoint {
    open spec fn dec(j: JsonV) -> Option<LifePoint> {
        dec_life_point(j)
    }

    fn from_json(j: &Json) -> (r: Result<LifePoint, DecodeError>) {
        proof {
            assert(<LifePoint as Decode>::dec(j@) == dec_life_point(j@));
        }
        match j {
            Json::Obj(fields) => {
                let sid = match get_u16(fields, "listening_system_id") {
                    Ok(v) => v,
                    Err(e) => {
                        return Err(e);
                    },
                };
                let point = match get_u16(fields, "point") {
                    Ok(v) => v,
                    Err(e) => {
                        return Err(e);
                    },
                };
                let rr = match get_bool(fields, "round_recover") {
                    Ok(v) => v,
                    Err(e) => {
                        return Err(e);
                    },
                };
                Ok(LifePoint { listening_system_id: sid, point, round_recover: rr })
            },
            _ => Err(DecodeError::ShapeMismatch),
        }
    }
}

/// A `Duration` document: an object with exactly one field whose key names
/// the variant — `Number` or `number` for a round count, `LifePoint` or
/// `life_point` for a life-point trigger — and whose value is the variant's
/// payload. Any other key is outside the closed set and is rejected.
pub open spec fn dec_duration(j: JsonV) -> Option<Duration> {
    match j {
        JsonV::Obj(fields) => if fields.len() == 1 {
            if fields[0].0 == "Number"@ || fields[0].0 == "number"@ {
                match dec_u16(fields[0].1) {
                    Option::Some(n) => Option::Some(Duration::Number(n)),
                    Option::None => Option::None,
                }
            } else if fields[0].0 == "LifePoint"@ || fields[0].0 == "life_point"@ {
                match dec_life_point(fields[0].1) {
                    Option::Some(lp) => Option::Some(Duration::LifePoint(lp)),
                    Option::None => Option::None,
                }
            } else {
                Option::None
            }
        } else {
            Option::None
        },
        _ => Option::None,
    }
}

impl View for Duration {
    type V = Duration;

    open spec fn view(&self) -> Duration {
        *self
    }
}

impl Decode for Duration {
    open spec fn dec(j: JsonV) -> Option<Duration> {
        dec_duration(j)
    }

    fn from_json(j: &Json) -> (r: Result<Duration, DecodeError>) {
        proof {
            assert(<Duration as Decode>::dec(j@) == dec_duration(j@));
        }
        match j {
            Json::Obj(fields) => {
                if fields.len() != 1 {
                    return Err(DecodeError::ShapeMismatch);
                }
                let pair = &fields[0];
                proof {
                    assert(fields_view(fields@)[0] == (fields@[0].0@, fields@[0].1@));
                }
                if pair.0 == "Number".to_owned() || pair.0 == "number".to_owned() {
                    match &pair.1 {
                        Json::Num(n) => {
                            if *n <= 0xffff {
                                Ok(Duration::Number(*n as u16))
                            } else {
                                Err(DecodeError::ShapeMismatch)
                            }
                        },
                        _ => Err(DecodeError::ShapeMismatch),
                    }
                } else if pair.0 == "LifePoint".to_owned() || pair.0 == "life_point".to_owned() {
                    match LifePoint::from_json(&pair.1) {
                        Ok(lp) => Ok(Duration::LifePoint(lp)),
                        Err(e) => Err(e),
                    }
                } else {
                    Err(DecodeError::ShapeMismatch)
                }
            },
            _ => Err(DecodeError::ShapeMismatch),
        }
    }
}

pub fn encode_duration(d: &Duration) -> (b: Vec<u8>)
    ensures
        b@ == duration_bytes(*d),
{
    match d {
        Duration::Number(n) => {
            let mut out: Vec<u8> = Vec::new();
            push_u32_cell(&mut out, 0);
            let mut body = u16_cell(*n);
            out.append(&mut body);
            proof {
                assert(out@ =~= duration_bytes(*d));
            }
            out
        },
        Duration::LifePoint(lp) => {
            let mut out: Vec<u8> = Vec::new();
            push_u32_cell(&mut out, 1);
            let mut sid = u16_cell(lp.listening_system_id);
            out.append(&mut sid);
            let mut point = u16_cell(lp.point);
            out.append(&mut point);
            if lp.round_recover {
                out.push(1);
            } else {
                out.push(0);
            }
            proof {
                assert(out@ =~= duration_bytes(*d));
            }
            out
        },
    }
}

pub fn encode_duration_opt(o: &Option<Duration>) -> (b: Vec<u8>)
    ensures
        b@ == duration_opt_bytes(*o),
{
    match o {
        Option::None => {
            let out: Vec<u8> = Vec::new();
            proof {
                assert(out@ =~= duration_opt_bytes(*o));
            }
            out
        },
        Option::Some(d) => encode_duration(d),
    }
}

} // verus!
