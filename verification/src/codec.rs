//! The binary cell layout shared by every resource projection.
//!
//! Specification functions define the exact bytes of each building block of
//! the container format: 16-bit and 32-bit little-endian cells, booleans as a
//! single byte, count-prefixed vectors of fixed-width items, offset-headed
//! dynamic vectors (also used for tables, whose field count is fixed per
//! type), empty-or-present optionals, and tagged unions. Executable builders
//! produce exactly those bytes; a builder fails only when the encoded size
//! would not fit the 32-bit size and offset cells of the format.

use vstd::prelude::*;

verus! {

/// Failure of a projection into the binary format: the encoded value would
/// exceed the 32-bit size cells the container format uses.
#[derive(Clone, Copy, Debug, PartialEq, Eq, Structural)]
pub enum EncodeError {
    TooLarge,
}

/// Largest value a 32-bit size, count or offset cell can carry.
pub open spec fn cell_max() -> int {
    0xffff_ffff
}

/// The two little-endian bytes of a 16-bit cell.
pub open spec fn le16(n: int) -> Seq<u8> {
    seq![(n % 256) as u8, ((n / 256) % 256) as u8]
}

/// The four little-endian bytes of a 32-bit cell.
pub open spec fn le32(n: int) -> Seq<u8> {
    seq![
        (n % 256) as u8,
        ((n / 256) % 256) as u8,
        ((n / 65536) % 256) as u8,
        ((n / 16777216) % 256) as u8,
    ]
}

/// A boolean as a single byte cell.
pub open spec fn bool_byte(b: bool) -> u8 {
    if b {
        1u8
    } else {
        0u8
    }
}

/// Total length of a sequence of byte strings.
pub open spec fn sum_len(parts: Seq<Seq<u8>>) -> int
    decreases parts.len(),
{
    if parts.len() == 0 {
        0
    } else {
        sum_len(parts.drop_last()) + parts.last().len()
    }
}

/// All byte strings of a sequence, concatenated in order.
pub open spec fn concat_all(parts: Seq<Seq<u8>>) -> Seq<u8>
    decreases parts.len(),
{
    if parts.len() == 0 {
        Seq::empty()
    } else {
        concat_all(parts.drop_last()) + parts.last()
    }
}

/// Size of a dynamic vector's header: the full-size cell plus one offset cell
/// per item.
pub open spec fn head_size(n: int) -> int {
    4 + 4 * n
}

/// Full encoded size of a dynamic vector with the given item bodies.
pub open spec fn dyn_total(parts: Seq<Seq<u8>>) -> int {
    head_size(parts.len() as int) + sum_len(parts)
}

/// Offset of item `i` from the start of a dynamic vector.
pub open spec fn offset_of(parts: Seq<Seq<u8>>, i: int) -> int {
    head_size(parts.len() as int) + sum_len(parts.take(i))
}

/// The first `i` offset cells of a dynamic vector's header.
pub open spec fn offsets_bytes(parts: Seq<Seq<u8>>, i: int) -> Seq<u8>
    decreases i,
{
    if i <= 0 {
        Seq::empty()
    } else {
        offsets_bytes(parts, i - 1) + le32(offset_of(parts, i - 1))
    }
}

/// A dynamic vector: full size, one offset per item, then the item bodies in
/// order. A table is laid out the same way, with its field bodies as items.
pub open spec fn dynvec_bytes(parts: Seq<Seq<u8>>) -> Seq<u8> {
    le32(dyn_total(parts)) + offsets_bytes(parts, parts.len() as int) + concat_all(parts)
}

/// A table: a dynamic vector whose items are the field bodies, in the fixed
/// field order of the type.
pub open spec fn table_bytes(fields: Seq<Seq<u8>>) -> Seq<u8> {
    dynvec_bytes(fields)
}

/// The 16-bit items of a fixed-width vector, flattened in order.
pub open spec fn flat16(items: Seq<u16>) -> Seq<u8>
    decreases items.len(),
{
    if items.len() == 0 {
        Seq::empty()
    } else {
        flat16(items.drop_last()) + le16(items.last() as int)
    }
}

/// A vector of 16-bit cells: an item count followed by the items.
pub open spec fn fixvec16_bytes(items: Seq<u16>) -> Seq<u8> {
    le32(items.len() as int) + flat16(items)
}

/// An optional cell: absent values encode to no bytes at all.
pub open spec fn opt_bytes(o: Option<Seq<u8>>) -> Seq<u8> {
    match o {
        Option::None => Seq::empty(),
        Option::Some(b) => b,
    }
}

/// A tagged union: the variant's fixed tag as a 32-bit cell, then the payload.
pub open spec fn union_bytes(tag: int, body: Seq<u8>) -> Seq<u8> {
    le32(tag) + body
}

/// The views of a vector of byte buffers.
pub open spec fn byte_seqs(parts: Seq<Vec<u8>>) -> Seq<Seq<u8>> {
    parts.map_values(|p: Vec<u8>| p@)
}

pub proof fn lemma_sum_len_nonneg(parts: Seq<Seq<u8>>)
    ensures
        sum_len(parts) >= 0,
    decreases parts.len(),
{
    if parts.len() > 0 {
        lemma_sum_len_nonneg(parts.drop_last());
    }
}

pub proof fn lemma_sum_len_take_succ(parts: Seq<Seq<u8>>, i: int)
    requires
        0 <= i < parts.len(),
    ensures
        sum_len(parts.take(i + 1)) == sum_len(parts.take(i)) + parts[i].len(),
{
    assert(parts.take(i + 1).drop_last() =~= parts.take(i));
    assert(parts.take(i + 1).last() == parts[i]);
}

pub proof fn lemma_concat_take_succ(parts: Seq<Seq<u8>>, i: int)
    requires
        0 <= i < parts.len(),
    ensures
        concat_all(parts.take(i + 1)) == concat_all(parts.take(i)) + parts[i],
{
    assert(parts.take(i + 1).drop_last() =~= parts.take(i));
    assert(parts.take(i + 1).last() == parts[i]);
}

pub proof fn lemma_sum_len_take_le(parts: Seq<Seq<u8>>, i: int)
    requires
        0 <= i <= parts.len(),
    ensures
        sum_len(parts.take(i)) <= sum_len(parts),
    decreases parts.len() - i,
{
    if i == parts.len() {
        assert(parts.take(i) =~= parts);
    } else {
        lemma_sum_len_take_succ(parts, i);
        lemma_sum_len_take_le(parts, i + 1);
    }
}

/// The whole is at least as long as any one item's body.
pub proof fn lemma_sum_len_ge_part(parts: Seq<Seq<u8>>, i: int)
    requires
        0 <= i < parts.len(),
    ensures
        sum_len(parts) >= parts[i].len(),
    decreases parts.len(),
{
    if i == parts.len() - 1 {
        lemma_sum_len_nonneg(parts.drop_last());
    } else {
        lemma_sum_len_ge_part(parts.drop_last(), i);
        assert(parts.drop_last()[i] == parts[i]);
    }
}

pub proof fn lemma_concat_len(parts: Seq<Seq<u8>>)
    ensures
        concat_all(parts).len() == sum_len(parts),
    decreases parts.len(),
{
    if parts.len() > 0 {
        lemma_concat_len(parts.drop_last());
    }
}

pub proof fn lemma_offsets_len(parts: Seq<Seq<u8>>, i: int)
    requires
        i >= 0,
    ensures
        offsets_bytes(parts, i).len() == 4 * i,
    decreases i,
{
    if i > 0 {
        lemma_offsets_len(parts, i - 1);
    }
}

/// A dynamic vector's byte length equals its full-size header cell.
pub proof fn lemma_dynvec_len(parts: Seq<Seq<u8>>)
    ensures
        dynvec_bytes(parts).len() == dyn_total(parts),
{
    lemma_offsets_len(parts, parts.len() as int);
    lemma_concat_len(parts);
}

/// A dynamic vector is at least as long as any one of its item bodies.
pub proof fn lemma_dynvec_ge_part(parts: Seq<Seq<u8>>, i: int)
    requires
        0 <= i < parts.len(),
    ensures
        dynvec_bytes(parts).len() >= parts[i].len(),
{
    lemma_dynvec_len(parts);
    lemma_sum_len_ge_part(parts, i);
}

pub proof fn lemma_flat16_len(items: Seq<u16>)
    ensures
        flat16(items).len() == 2 * items.len(),
    decreases items.len(),
{
    if items.len() > 0 {
        lemma_flat16_len(items.drop_last());
    }
}

pub proof fn lemma_flat16_take_succ(items: Seq<u16>, i: int)
    requires
        0 <= i < items.len(),
    ensures
        flat16(items.take(i + 1)) == flat16(items.take(i)) + le16(items[i] as int),
{
    assert(items.take(i + 1).drop_last() =~= items.take(i));
    assert(items.take(i + 1).last() == items[i]);
}

proof fn lemma_concat_index(parts: Seq<Seq<u8>>, i: int)
    requires
        0 <= i < parts.len(),
    ensures
        sum_len(parts.take(i)) + parts[i].len() <= concat_all(parts).len(),
        concat_all(parts).subrange(
            sum_len(parts.take(i)),
            sum_len(parts.take(i)) + parts[i].len(),
        ) == parts[i],
    decreases parts.len(),
{
    lemma_concat_len(parts);
    lemma_sum_len_take_succ(parts, i);
    lemma_sum_len_take_le(parts, i + 1);
    lemma_sum_len_nonneg(parts.take(i));
    if i == parts.len() - 1 {
        assert(parts.take(i) =~= parts.drop_last());
        lemma_concat_len(parts.drop_last());
        assert(concat_all(parts).subrange(
            sum_len(parts.take(i)),
            sum_len(parts.take(i)) + parts[i].len(),
        ) =~= parts[i]);
    } else {
        lemma_concat_index(parts.drop_last(), i);
        assert(parts.drop_last()[i] == parts[i]);
        assert(parts.drop_last().take(i) =~= parts.take(i));
        lemma_concat_len(parts.drop_last());
        assert(concat_all(parts).subrange(
            sum_len(parts.take(i)),
            sum_len(parts.take(i)) + parts[i].len(),
        ) =~= concat_all(parts.drop_last()).subrange(
            sum_len(parts.drop_last().take(i)),
            sum_len(parts.drop_last().take(i)) + parts.drop_last()[i].len(),
        ));
    }
}

/// Order preservation: in a dynamic vector or table, the `i`-th input
/// item's body stands unchanged between its offset and the offset plus its
/// length, so the items appear in exactly the input order.
pub proof fn lemma_dynvec_order(parts: Seq<Seq<u8>>, i: int)
    requires
        0 <= i < parts.len(),
    ensures
        offset_of(parts, i) + parts[i].len() <= dynvec_bytes(parts).len(),
        dynvec_bytes(parts).subrange(
            offset_of(parts, i),
            offset_of(parts, i) + parts[i].len(),
        ) == parts[i],
{
    lemma_concat_index(parts, i);
    lemma_offsets_len(parts, parts.len() as int);
    lemma_dynvec_len(parts);
    lemma_sum_len_nonneg(parts.take(i));
    assert(dynvec_bytes(parts).subrange(
        offset_of(parts, i),
        offset_of(parts, i) + parts[i].len(),
    ) =~= concat_all(parts).subrange(
        sum_len(parts.take(i)),
        sum_len(parts.take(i)) + parts[i].len(),
    ));
}

proof fn lemma_flat16_index(items: Seq<u16>, i: int)
    requires
        0 <= i < items.len(),
    ensures
        flat16(items).subrange(2 * i, 2 * i + 2) == le16(items[i] as int),
    decreases items.len(),
{
    lemma_flat16_len(items);
    if i == items.len() - 1 {
        lemma_flat16_len(items.drop_last());
        assert(flat16(items).subrange(2 * i, 2 * i + 2) =~= le16(items[i] as int));
    } else {
        lemma_flat16_index(items.drop_last(), i);
        assert(items.drop_last()[i] == items[i]);
        lemma_flat16_len(items.drop_last());
        assert(flat16(items).subrange(2 * i, 2 * i + 2) =~= flat16(
            items.drop_last(),
        ).subrange(2 * i, 2 * i + 2));
    }
}

/// Order preservation: in a vector of 16-bit cells, the `i`-th input item's
/// two bytes stand at offset `4 + 2 i`, so the items appear in exactly the
/// input order.
pub proof fn lemma_fixvec16_order(items: Seq<u16>, i: int)
    requires
        0 <= i < items.len(),
    ensures
        fixvec16_bytes(items).subrange(4 + 2 * i, 6 + 2 * i) == le16(items[i] as int),
{
    lemma_flat16_index(items, i);
    lemma_flat16_len(items);
    assert(fixvec16_bytes(items).subrange(4 + 2 * i, 6 + 2 * i) =~= flat16(items).subrange(
        2 * i,
        2 * i + 2,
    ));
}

/// The 16-bit items read back from a vector's bytes: each from its two
/// little-endian bytes after the 4-byte count.
pub open spec fn read_fixvec16_items(s: Seq<u8>, n: int) -> Seq<u16> {
    Seq::new(n as nat, |i: int| (((s[4 + 2 * i] as int) + 256 * (s[4 + 2 * i + 1] as int)) as u16))
}

/// Round trip: reading a 16-bit vector's bytes back yields exactly the
/// items that were encoded, in the same order.
pub proof fn lemma_fixvec16_round_trip(items: Seq<u16>)
    ensures
        read_fixvec16_items(fixvec16_bytes(items), items.len() as int) == items,
{
    let s = fixvec16_bytes(items);
    assert forall|i: int| 0 <= i < items.len() implies read_fixvec16_items(
        s,
        items.len() as int,
    )[i] == items[i] by {
        lemma_fixvec16_order(items, i);
        lemma_flat16_len(items);
        assert(s.len() == 4 + 2 * items.len());
        assert(s.subrange(4 + 2 * i, 6 + 2 * i) == le16(items[i] as int));
        assert(s.subrange(4 + 2 * i, 6 + 2 * i)[0] == s[4 + 2 * i]);
        assert(s.subrange(4 + 2 * i, 6 + 2 * i)[1] == s[4 + 2 * i + 1]);
    }
    assert(read_fixvec16_items(s, items.len() as int) =~= items);
}

/// Round trip: a 32-bit cell's four bytes determine the number that was
/// written, so sizes, counts, offsets and union tags decode unambiguously.
pub proof fn lemma_le32_round_trip(n: int)
    requires
        0 <= n <= 0xffff_ffff,
    ensures
        (le32(n)[0] as int) + 256 * (le32(n)[1] as int) + 65536 * (le32(n)[2] as int)
            + 16777216 * (le32(n)[3] as int) == n,
{
}

/// The 32-bit number standing at position `p` of a byte string.
pub open spec fn read_u32_at(s: Seq<u8>, p: int) -> int {
    (s[p] as int) + 256 * (s[p + 1] as int) + 65536 * (s[p + 2] as int) + 16777216 * (s[
        p + 3
    ] as int)
}

proof fn lemma_offsets_index(parts: Seq<Seq<u8>>, n: int, i: int)
    requires
        0 <= i < n,
    ensures
        offsets_bytes(parts, n).subrange(4 * i, 4 * i + 4) == le32(offset_of(parts, i)),
    decreases n,
{
    lemma_offsets_len(parts, n);
    lemma_offsets_len(parts, n - 1);
    if i == n - 1 {
        assert(offsets_bytes(parts, n).subrange(4 * i, 4 * i + 4) =~= le32(
            offset_of(parts, i),
        ));
    } else {
        lemma_offsets_index(parts, n - 1, i);
        assert(offsets_bytes(parts, n).subrange(4 * i, 4 * i + 4) =~= offsets_bytes(
            parts,
            n - 1,
        ).subrange(4 * i, 4 * i + 4));
    }
}

/// Round trip for whole containers: a reader holding only a dynamic
/// vector's bytes recovers each item body exactly — item `i` runs from the
/// `i`-th offset cell to the next one, or to the full size after the last.
pub proof fn lemma_dynvec_round_trip(parts: Seq<Seq<u8>>, i: int)
    requires
        0 <= i < parts.len(),
        dyn_total(parts) <= cell_max(),
    ensures
        ({
            let s = dynvec_bytes(parts);
            let lo = read_u32_at(s, 4 + 4 * i);
            let hi = if i + 1 < parts.len() {
                read_u32_at(s, 8 + 4 * i)
            } else {
                read_u32_at(s, 0)
            };
            s.subrange(lo, hi) == parts[i]
        }),
{
    let s = dynvec_bytes(parts);
    let n = parts.len() as int;
    lemma_dynvec_header_round_trip(parts, i);
    lemma_sum_len_take_succ(parts, i);
    if i + 1 < n {
        lemma_dynvec_header_round_trip(parts, i + 1);
    } else {
        assert(parts.take(i + 1) =~= parts);
    }
    lemma_dynvec_order(parts, i);
}

/// Round trip for the item count: the first offset cell of a non-empty
/// dynamic vector gives back how many items were encoded.
pub proof fn lemma_dynvec_count_round_trip(parts: Seq<Seq<u8>>)
    requires
        parts.len() > 0,
        dyn_total(parts) <= cell_max(),
    ensures
        (read_u32_at(dynvec_bytes(parts), 4) - 4) / 4 == parts.len(),
{
    lemma_dynvec_header_round_trip(parts, 0);
}

/// Round trip for the container header: from a dynamic vector's bytes a
/// reader recovers the full size and every item's offset exactly, and with
/// them (by the order lemma) every item body; nothing of the input is lost.
pub proof fn lemma_dynvec_header_round_trip(parts: Seq<Seq<u8>>, i: int)
    requires
        0 <= i < parts.len(),
        dyn_total(parts) <= cell_max(),
    ensures
        read_u32_at(dynvec_bytes(parts), 0) == dyn_total(parts),
        read_u32_at(dynvec_bytes(parts), 4 + 4 * i) == offset_of(parts, i),
{
    let s = dynvec_bytes(parts);
    let n = parts.len() as int;
    lemma_offsets_len(parts, n);
    lemma_dynvec_len(parts);
    lemma_sum_len_nonneg(parts);
    assert(s.subrange(0, 4) =~= le32(dyn_total(parts)));
    lemma_le32_round_trip(dyn_total(parts));
    assert(read_u32_at(s, 0) == read_u32_at(s.subrange(0, 4), 0));
    lemma_offsets_index(parts, n, i);
    assert(s.subrange(4 + 4 * i, 8 + 4 * i) =~= offsets_bytes(parts, n).subrange(
        4 * i,
        4 * i + 4,
    ));
    lemma_sum_len_take_le(parts, i);
    lemma_sum_len_nonneg(parts.take(i));
    lemma_le32_round_trip(offset_of(parts, i));
    assert(read_u32_at(s, 4 + 4 * i) == read_u32_at(s.subrange(4 + 4 * i, 8 + 4 * i), 0));
}

/// A record with a fixed binary projection. Implementations prove that
/// `encode` emits exactly `wire_bytes` of the record's mathematical value,
/// and fails exactly when that projection outgrows a 32-bit size cell.
pub trait Encode: View + Sized {
    /// The exact bytes this record projects to.
    spec fn wire_bytes(v: Self::V) -> Seq<u8>;

    /// Emit the record's binary projection.
    fn encode(&self) -> (r: Result<Vec<u8>, EncodeError>)
        ensures
            (match r {
                Ok(b) => b@ == Self::wire_bytes(self@) && b@.len() <= cell_max(),
                Err(_) => Self::wire_bytes(self@).len() > cell_max(),
            }),
    ;
}

/// The mathematical values of a sequence of records.
pub open spec fn views<T: View>(items: Seq<T>) -> Seq<T::V> {
    items.map_values(|t: T| t@)
}

/// The projected bytes of each record of a pool, in input order.
pub open spec fn record_bytes_of<T: Encode>(pool: Seq<T::V>) -> Seq<Seq<u8>> {
    pool.map_values(|v: T::V| T::wire_bytes(v))
}

/// An ordered pool of records as a dynamic vector, in input order, with no
/// reordering and no deduplication.
pub open spec fn pool_bytes<T: Encode>(pool: Seq<T::V>) -> Seq<u8> {
    dynvec_bytes(record_bytes_of::<T>(pool))
}

/// Order preservation for record pools: in a pool's vector the `i`-th input
/// record's bytes stand unchanged at its offset. Every sequence-valued
/// field of every record encodes through this dynamic vector form or the
/// 16-bit vector form, so input order is kept for all of them.
pub proof fn lemma_pool_order<T: Encode>(pool: Seq<T::V>, i: int)
    requires
        0 <= i < pool.len(),
    ensures
        pool_bytes::<T>(pool).subrange(
            offset_of(record_bytes_of::<T>(pool), i),
            offset_of(record_bytes_of::<T>(pool), i) + T::wire_bytes(pool[i]).len(),
        ) == T::wire_bytes(pool[i]),
{
    assert(record_bytes_of::<T>(pool)[i] == T::wire_bytes(pool[i]));
    lemma_dynvec_order(record_bytes_of::<T>(pool), i);
}

/// Project every record of a pool and wrap them as a dynamic vector,
/// preserving input order. An empty pool is valid and yields an empty vector.
pub fn encode_pool<T: Encode>(items: &Vec<T>) -> (r: Result<Vec<u8>, EncodeError>)
    ensures
        match r {
            Ok(b) => b@ == pool_bytes::<T>(views(items@)) && b@.len() <= cell_max(),
            Err(_) => pool_bytes::<T>(views(items@)).len() > cell_max(),
        },
{
    let ghost goal = record_bytes_of::<T>(views(items@));
    let mut parts: Vec<Vec<u8>> = Vec::new();
    let mut i: usize = 0;
    while i < items.len()
        invariant
            0 <= i <= items.len(),
            goal == views(items@).map_values(|v: T::V| T::wire_bytes(v)),
            parts@.len() == i,
            byte_seqs(parts@) == goal.take(i as int),
        decreases items.len() - i,
    {
        let item = &items[i];
        match item.encode() {
            Ok(b) => {
                parts.push(b);
                proof {
                    assert(byte_seqs(parts@) =~= goal.take(i + 1));
                }
            },
            Err(e) => {
                proof {
                    lemma_dynvec_ge_part(goal, i as int);
                }
                return Err(e);
            },
        }
        i = i + 1;
    }
    proof {
        assert(goal.take(items@.len() as int) =~= goal);
    }
    build_dynvec(&parts)
}

/// Relies on molecule::pack_number: a header number is its four little-endian
/// bytes.
#[verifier::external_body]
fn pack_header_number(n: u32) -> (r: [u8; 4])
    ensures
        r@ == le32(n as int),
{
    molecule::pack_number(n)
}

/// Append a 32-bit little-endian header cell.
pub fn push_u32_cell(out: &mut Vec<u8>, v: u32)
    ensures
        final(out)@ == old(out)@ + le32(v as int),
{
    let cell = pack_header_number(v);
    out.push(cell[0]);
    out.push(cell[1]);
    out.push(cell[2]);
    out.push(cell[3]);
    proof {
        assert(out@ =~= old(out)@ + le32(v as int));
    }
}

/// The two little-endian bytes of a 16-bit cell.
pub fn u16_cell(v: u16) -> (r: Vec<u8>)
    ensures
        r@ == le16(v as int),
{
    let mut out: Vec<u8> = Vec::new();
    out.push((v % 256) as u8);
    out.push((v / 256) as u8);
    proof {
        assert(out@ =~= le16(v as int));
    }
    out
}

/// A single byte cell.
pub fn byte_cell(v: u8) -> (r: Vec<u8>)
    ensures
        r@ == seq![v],
{
    let mut out: Vec<u8> = Vec::new();
    out.push(v);
    proof {
        assert(out@ =~= seq![v]);
    }
    out
}

/// A boolean as a single byte cell.
pub fn bool_cell(b: bool) -> (r: Vec<u8>)
    ensures
        r@ == seq![bool_byte(b)],
{
    if b {
        byte_cell(1)
    } else {
        byte_cell(0)
    }
}

/// A vector of 16-bit cells: the item count, then each item in input order.
pub fn encode_fixvec16(items: &Vec<u16>) -> (r: Result<Vec<u8>, EncodeError>)
    ensures
        match r {
            Ok(b) => b@ == fixvec16_bytes(items@) && b@.len() <= cell_max(),
            Err(_) => fixvec16_bytes(items@).len() > cell_max(),
        },
{
    proof {
        lemma_flat16_len(items@);
    }
    if items.len() > 0x7fff_fffd {
        return Err(EncodeError::TooLarge);
    }
    let mut out: Vec<u8> = Vec::new();
    push_u32_cell(&mut out, items.len() as u32);
    proof {
        assert(out@ =~= le32(items@.len() as int) + flat16(items@.take(0)));
    }
    let mut i: usize = 0;
    while i < items.len()
        invariant
            0 <= i <= items.len(),
            items.len() <= 0x7fff_fffd,
            out@ == le32(items@.len() as int) + flat16(items@.take(i as int)),
        decreases items.len() - i,
    {
        let v = items[i];
        out.push((v % 256) as u8);
        out.push((v / 256) as u8);
        proof {
            lemma_flat16_take_succ(items@, i as int);
            assert(out@ =~= le32(items@.len() as int) + flat16(items@.take(i + 1)));
        }
        i = i + 1;
    }
    proof {
        assert(items@.take(items@.len() as int) =~= items@);
    }
    Ok(out)
}

/// A dynamic vector or table: the full size, one offset cell per item, then
/// the item bodies in input order. Fails exactly when the whole would not fit
/// a 32-bit size cell.
pub fn build_dynvec(parts: &Vec<Vec<u8>>) -> (r: Result<Vec<u8>, EncodeError>)
    ensures
        match r {
            Ok(b) => b@ == dynvec_bytes(byte_seqs(parts@)) && b@.len() <= cell_max(),
            Err(_) => dynvec_bytes(byte_seqs(parts@)).len() > cell_max(),
        },
{
    let ghost bs = byte_seqs(parts@);
    let n = parts.len();
    proof {
        lemma_dynvec_len(bs);
        assert(bs.len() == n);
    }
    if n > 0x3fff_fffe {
        proof {
            lemma_sum_len_nonneg(bs);
        }
        return Err(EncodeError::TooLarge);
    }
    // First pass: the full size, checked against the 32-bit limit.
    let mut total: u64 = 4 + 4 * (n as u64);
    let mut i: usize = 0;
    while i < n
        invariant
            0 <= i <= n,
            n == parts.len(),
            n <= 0x3fff_fffe,
            bs == byte_seqs(parts@),
            total == head_size(n as int) + sum_len(bs.take(i as int)),
            total <= 0xffff_ffff,
        decreases n - i,
    {
        let plen = parts[i].len();
        proof {
            assert(bs[i as int] == parts@[i as int]@);
            lemma_sum_len_take_succ(bs, i as int);
        }
        if plen > 0xffff_ffff || total + (plen as u64) > 0xffff_ffff {
            proof {
                lemma_sum_len_take_le(bs, i + 1);
                lemma_dynvec_len(bs);
                assert(sum_len(bs.take(i + 1)) == sum_len(bs.take(i as int)) + plen);
                assert(dyn_total(bs) == head_size(bs.len() as int) + sum_len(bs));
                assert(dyn_total(bs) > 0xffff_ffff);
            }
            return Err(EncodeError::TooLarge);
        }
        total = total + (plen as u64);
        i = i + 1;
    }
    proof {
        assert(bs.take(n as int) =~= bs);
        lemma_sum_len_nonneg(bs);
    }
    // Second pass: header with the full size and each item's offset.
    let mut out: Vec<u8> = Vec::new();
    push_u32_cell(&mut out, total as u32);
    proof {
        assert(out@ =~= le32(total as int) + offsets_bytes(bs, 0));
    }
    let mut off: u64 = 4 + 4 * (n as u64);
    let mut j: usize = 0;
    while j < n
        invariant
            0 <= j <= n,
            n == parts.len(),
            bs == byte_seqs(parts@),
            dyn_total(bs) == total,
            total <= 0xffff_ffff,
            off == offset_of(bs, j as int),
            off <= total,
            out@ == le32(total as int) + offsets_bytes(bs, j as int),
        decreases n - j,
    {
        proof {
            lemma_sum_len_take_succ(bs, j as int);
            lemma_sum_len_take_le(bs, j as int + 1);
            assert(bs[j as int] == parts@[j as int]@);
        }
        push_u32_cell(&mut out, off as u32);
        proof {
            assert(out@ =~= le32(total as int) + offsets_bytes(bs, j as int + 1));
        }
        off = off + (parts[j].len() as u64);
        j = j + 1;
    }
    // Third pass: the item bodies in order.
    proof {
        assert(out@ =~= le32(dyn_total(bs)) + offsets_bytes(bs, n as int) + concat_all(
            bs.take(0),
        ));
    }
    let mut k: usize = 0;
    while k < n
        invariant
            0 <= k <= n,
            n == parts.len(),
            bs == byte_seqs(parts@),
            out@ == le32(dyn_total(bs)) + offsets_bytes(bs, n as int) + concat_all(
                bs.take(k as int),
            ),
        decreases n - k,
    {
        let part = &parts[k];
        proof {
            assert(part@ == bs[k as int]);
            assert(out@ =~= le32(dyn_total(bs)) + offsets_bytes(bs, n as int) + concat_all(
                bs.take(k as int),
            ) + part@.take(0));
        }
        let mut b: usize = 0;
        while b < part.len()
            invariant
                0 <= b <= part.len(),
                k < n,
                n == parts.len(),
                part@ == bs[k as int],
                bs == byte_seqs(parts@),
                out@ == le32(dyn_total(bs)) + offsets_bytes(bs, n as int) + concat_all(
                    bs.take(k as int),
                ) + part@.take(b as int),
            decreases part.len() - b,
        {
            out.push(part[b]);
            proof {
                assert(part@.take(b + 1) =~= part@.take(b as int) + seq![part@[b as int]]);
                assert(out@ =~= le32(dyn_total(bs)) + offsets_bytes(bs, n as int) + concat_all(
                    bs.take(k as int),
                ) + part@.take(b + 1));
            }
            b = b + 1;
        }
        proof {
            assert(part@.take(part@.len() as int) =~= part@);
            assert(bs[k as int] == parts@[k as int]@);
            lemma_concat_take_succ(bs, k as int);
            assert(out@ =~= le32(dyn_total(bs)) + offsets_bytes(bs, n as int) + concat_all(
                bs.take(k as int + 1),
            ));
        }
        k = k + 1;
    }
    proof {
        assert(bs.take(n as int) =~= bs);
        lemma_dynvec_len(bs);
    }
    Ok(out)
}

} // verus!
