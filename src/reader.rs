//! Bounds-checked little-endian reads from a byte buffer.
use vstd::prelude::*;

verus! {

/// The value of the little-endian 16-bit word at byte offset `o` of `d`.
pub open spec fn le_u16(d: Seq<u8>, o: int) -> u16 {
    (d[o] as int + d[o + 1] as int * 0x100) as u16
}

/// The value of the little-endian 32-bit word at byte offset `o` of `d`.
pub open spec fn le_u32(d: Seq<u8>, o: int) -> u32 {
    (d[o] as int + d[o + 1] as int * 0x100 + d[o + 2] as int * 0x1_0000 + d[o + 3] as int
        * 0x100_0000) as u32
}

/// An array of fixed-size records inside the buffer: where it starts, and how
/// many records it holds. The record size is known from context.
#[derive(Clone, Copy, Debug, PartialEq, Eq, Structural)]
pub struct Table {
    pub offset: usize,
    pub len: usize,
}

/// Whether `count` records of `size` bytes, starting at byte `offset`, lie
/// within a buffer of `buf_len` bytes.
pub open spec fn fits(buf_len: int, offset: int, count: int, size: int) -> bool {
    offset + count * size <= buf_len
}

/// Whether the records of table `t` lie within a buffer of `buf_len` bytes.
pub open spec fn table_fits(buf_len: int, t: Table, size: int) -> bool {
    fits(buf_len, t.offset as int, t.len as int, size)
}

proof fn lemma_count_bound(count: int, room: int, size: int)
    requires
        size > 0,
        room >= 0,
        count >= 0,
    ensures
        (count <= room / size) <==> (count * size <= room),
{
    assert((count <= room / size) <==> (count * size <= room)) by (nonlinear_arith)
        requires
            size > 0,
            room >= 0,
            count >= 0,
    ;
}

/// Checks whether `count` records of `size` bytes at `offset` lie within `d`,
/// without any arithmetic that could overflow.
pub fn check_fits(d: &[u8], offset: usize, count: usize, size: usize) -> (r: bool)
    requires
        size > 0,
    ensures
        r == fits(d@.len() as int, offset as int, count as int, size as int),
{
    if offset > d.len() {
        assert(count * size >= 0) by (nonlinear_arith)
            requires
                size > 0,
        ;
        return false;
    }
    let room = d.len() - offset;
    proof {
        lemma_count_bound(count as int, room as int, size as int);
    }
    count <= room / size
}

/// A buffer's length fits in `usize`.
pub proof fn lemma_len_fits(d: &[u8])
    ensures
        d@.len() <= usize::MAX,
{
    assert(d@.len() == d.len());
}

/// Reads the little-endian 16-bit word at `o`; the caller has checked the bounds.
pub fn read_u16(d: &[u8], o: usize) -> (r: u16)
    requires
        o + 2 <= d@.len(),
    ensures
        r == le_u16(d@, o as int),
{
    d[o] as u16 + (d[o + 1] as u16) * 0x100
}

/// Reads the little-endian 32-bit word at `o`; the caller has checked the bounds.
pub fn read_u32(d: &[u8], o: usize) -> (r: u32)
    requires
        o + 4 <= d@.len(),
    ensures
        r == le_u32(d@, o as int),
{
    d[o] as u32 + (d[o + 1] as u32) * 0x100 + (d[o + 2] as u32) * 0x1_0000 + (d[o + 3] as u32)
        * 0x100_0000
}

/// Reads the little-endian 32-bit word at `o`, or `None` where fewer than four
/// bytes remain there.
pub fn read_u32_at(d: &[u8], o: usize) -> (r: Option<u32>)
    ensures
        r == (if o + 4 <= d@.len() {
            Some(le_u32(d@, o as int))
        } else {
            None
        }),
{
    if o <= d.len() && d.len() - o >= 4 {
        Some(read_u32(d, o))
    } else {
        None
    }
}

} // verus!
