use vstd::prelude::*;
use crate::entry::MemoryAccessEntry;

verus! {

/// Band of `emid`, the least significant field of the key.
pub const EMID_SHIFT: u128 = 1;

/// Band of `eid`: above the 16 bits of `emid`.
pub const EID_SHIFT: u128 = 0x1_0000;

/// Band of `offset`: above the 32 bits of `eid`.
pub const OFFSET_SHIFT: u128 = 0x1_0000_0000_0000;

/// Band of `mmid`: above the 32 bits of `offset`.
pub const MMID_SHIFT: u128 = 0x1_0000_0000_0000_0000_0000;

/// Band of the address space: above the 16 bits of `mmid`.
pub const LOC_TYPE_SHIFT: u128 = 0x1_0000_0000_0000_0000_0000_0000;

/// The group part of the key: address space, memory instance and offset.
pub open spec fn group_key(e: MemoryAccessEntry) -> int {
    (e.ltype.tag_spec() * 0x1_0000 + e.mmid) * 0x1_0000_0000 + e.offset
}

/// The ordering key of an entry:
/// `ltype * LOC_TYPE_SHIFT + mmid * MMID_SHIFT + offset * OFFSET_SHIFT
///  + eid * EID_SHIFT + emid * EMID_SHIFT`, written in nested form.
pub open spec fn sort_key(e: MemoryAccessEntry) -> int {
    (group_key(e) * 0x1_0000_0000 + e.eid) * 0x1_0000 + e.emid
}

/// Lexicographic order on `(ltype, mmid, offset, eid, emid)`.
pub open spec fn lex_less(a: MemoryAccessEntry, b: MemoryAccessEntry) -> bool {
    let (ta, tb) = (a.ltype.tag_spec(), b.ltype.tag_spec());
    ta < tb || (ta == tb && (a.mmid < b.mmid || (a.mmid == b.mmid && (a.offset < b.offset || (
    a.offset == b.offset && (a.eid < b.eid || (a.eid == b.eid && a.emid < b.emid)))))))
}

/// Packs the ordering key into one integer, each field in its own band.
pub fn encode_key(e: &MemoryAccessEntry) -> (r: u128)
    ensures
        r == sort_key(*e),
{
    e.ltype.tag() as u128 * LOC_TYPE_SHIFT + e.mmid as u128 * MMID_SHIFT + e.offset as u128
        * OFFSET_SHIFT + e.eid as u128 * EID_SHIFT + e.emid as u128 * EMID_SHIFT
}

/// True when `cur` comes strictly after `prev` in key order.
pub fn key_in_order(prev: &MemoryAccessEntry, cur: &MemoryAccessEntry) -> (r: bool)
    ensures
        r == (sort_key(*prev) < sort_key(*cur)),
{
    encode_key(prev) < encode_key(cur)
}

proof fn lemma_band(x: int, a: int, y: int, b: int, base: int)
    requires
        0 <= x,
        0 <= y,
        0 <= a < base,
        0 <= b < base,
    ensures
        (x * base + a < y * base + b) == (x < y || (x == y && a < b)),
        (x * base + a == y * base + b) == (x == y && a == b),
{
    if x < y {
        assert(x * base + base <= y * base) by (nonlinear_arith)
            requires
                x < y,
                0 < base,
        ;
    } else if y < x {
        assert(y * base + base <= x * base) by (nonlinear_arith)
            requires
                y < x,
                0 < base,
        ;
    }
}

/// The key order is the lexicographic order on
/// `(ltype, mmid, offset, eid, emid)`: the encoding is injective on those
/// fields and preserves their order.
pub proof fn lemma_key_order(a: MemoryAccessEntry, b: MemoryAccessEntry)
    ensures
        (sort_key(a) < sort_key(b)) == lex_less(a, b),
        (sort_key(a) == sort_key(b)) == (a.same_group(b) && a.eid == b.eid && a.emid == b.emid),
{
    let (ta, tb) = (a.ltype.tag_spec() as int, b.ltype.tag_spec() as int);
    lemma_band(ta, a.mmid as int, tb, b.mmid as int, 0x1_0000);
    let (ma, mb) = (ta * 0x1_0000 + a.mmid, tb * 0x1_0000 + b.mmid);
    lemma_band(ma, a.offset as int, mb, b.offset as int, 0x1_0000_0000);
    lemma_band(group_key(a), a.eid as int, group_key(b), b.eid as int, 0x1_0000_0000);
    let (ea, eb) = (group_key(a) * 0x1_0000_0000 + a.eid, group_key(b) * 0x1_0000_0000 + b.eid);
    lemma_band(ea, a.emid as int, eb, b.emid as int, 0x1_0000);
    assert(ta == tb ==> a.ltype == b.ltype);
}

/// The group part leads the key: an entry whose key lies between the keys
/// of two entries of one group belongs to that group too.
pub proof fn lemma_group_between(a: MemoryAccessEntry, m: MemoryAccessEntry, b: MemoryAccessEntry)
    requires
        sort_key(a) <= sort_key(m),
        sort_key(m) <= sort_key(b),
        a.same_group(b),
    ensures
        m.same_group(a),
{
    lemma_key_order(a, m);
    lemma_key_order(m, b);
    lemma_key_order(a, b);
}

} // verus!
