//! The on-disk layout of the section: header, page entries, page bodies, and
//! the key columns that the searches run over.
use vstd::prelude::*;

use crate::error::{Error, ReadError};
use crate::reader::{
    check_fits, fits, le_u16, le_u32, lemma_len_fits, read_u16, read_u32, read_u32_at, table_fits,
    Table,
};
use crate::search::brackets;

verus! {

/// Size of the section header.
pub const HEADER_SIZE: usize = 28;
/// Size of one page entry: first address, page offset, LSDA index offset.
pub const PAGE_ENTRY_SIZE: usize = 12;
/// Size of one opcode word.
pub const OPCODE_SIZE: usize = 4;
/// Size of one regular function entry: address, opcode.
pub const REGULAR_ENTRY_SIZE: usize = 8;
/// Size of one compressed function entry.
pub const COMPRESSED_ENTRY_SIZE: usize = 4;
/// Size of a regular page's header.
pub const REGULAR_PAGE_HEADER_SIZE: usize = 8;
/// Size of a compressed page's header.
pub const COMPRESSED_PAGE_HEADER_SIZE: usize = 12;

/// Page kind tag of the bodyless page that ends the page table.
pub const PAGE_KIND_SENTINEL: u32 = 1;
/// Page kind tag of a page of (address, opcode) pairs.
pub const PAGE_KIND_REGULAR: u32 = 2;
/// Page kind tag of a page of packed entries with a local opcode table.
pub const PAGE_KIND_COMPRESSED: u32 = 3;

/// The global opcode array that the header at the start of `d` declares.
pub open spec fn header_global_opcodes(d: Seq<u8>) -> Table {
    Table { offset: le_u32(d, 4) as usize, len: le_u32(d, 8) as usize }
}

/// The page entry array that the header at the start of `d` declares.
pub open spec fn header_pages(d: Seq<u8>) -> Table {
    Table { offset: le_u32(d, 20) as usize, len: le_u32(d, 24) as usize }
}

/// The page-relative address held in a compressed function entry.
pub open spec fn entry_relative_address(e: u32) -> u32 {
    (e % 0x100_0000) as u32
}

/// The index into the combined global and local opcode tables held in a
/// compressed function entry.
pub open spec fn entry_opcode_index(e: u32) -> u32 {
    e / 0x100_0000
}

pub fn relative_address(e: u32) -> (r: u32)
    ensures
        r == entry_relative_address(e),
{
    assert(e & 0xff_ffff == e % 0x100_0000) by (bit_vector);
    e & 0xff_ffff
}

pub fn opcode_index(e: u32) -> (r: u32)
    ensures
        r == entry_opcode_index(e),
{
    assert(e >> 24 == e / 0x100_0000) by (bit_vector);
    e >> 24
}

/// The columns of keys that are searched.
#[derive(Clone, Copy, Debug, PartialEq, Eq, Structural)]
pub enum Column {
    /// `first_address` of each page entry.
    PageFirstAddress,
    /// The address of each regular function entry.
    RegularAddress,
    /// The page-relative address of each compressed function entry.
    CompressedAddress,
}

pub open spec fn column_stride(c: Column) -> int {
    match c {
        Column::PageFirstAddress => 12,
        Column::RegularAddress => 8,
        Column::CompressedAddress => 4,
    }
}

/// Key `i` of column `c` of table `t`.
pub open spec fn column_key(d: Seq<u8>, t: Table, c: Column, i: int) -> u32 {
    let w = le_u32(d, t.offset + column_stride(c) * i);
    match c {
        Column::CompressedAddress => entry_relative_address(w),
        _ => w,
    }
}

/// All keys of column `c` of table `t`, in table order.
pub open spec fn column_keys(d: Seq<u8>, t: Table, c: Column) -> Seq<u32> {
    Seq::new(t.len as nat, |i: int| column_key(d, t, c, i))
}

pub fn read_key(d: &[u8], t: Table, c: Column, i: usize) -> (r: u32)
    requires
        table_fits(d@.len() as int, t, column_stride(c)),
        i < t.len,
    ensures
        r == column_key(d@, t, c, i as int),
{
    proof {
        lemma_len_fits(d);
    }
    match c {
        Column::PageFirstAddress => {
            assert(t.offset + t.len * 12 <= d@.len());
            read_u32(d, t.offset + 12 * i)
        },
        Column::RegularAddress => {
            assert(t.offset + t.len * 8 <= d@.len());
            read_u32(d, t.offset + 8 * i)
        },
        Column::CompressedAddress => {
            assert(t.offset + t.len * 4 <= d@.len());
            relative_address(read_u32(d, t.offset + 4 * i))
        },
    }
}

/// Binary search for the split point of column `c` around `target`: one past
/// the rightmost key `<= target` when the keys ascend.
pub fn search(d: &[u8], t: Table, c: Column, target: u32) -> (r: usize)
    requires
        table_fits(d@.len() as int, t, column_stride(c)),
    ensures
        brackets(column_keys(d@, t, c), target, r as int),
{
    let ghost keys = column_keys(d@, t, c);
    let mut lo: usize = 0;
    let mut hi: usize = t.len;
    while lo < hi
        invariant
            table_fits(d@.len() as int, t, column_stride(c)),
            keys == column_keys(d@, t, c),
            0 <= lo <= hi <= t.len,
            lo == 0 || keys[lo - 1] <= target,
            hi == t.len || keys[hi as int] > target,
        decreases hi - lo,
    {
        let mid = lo + (hi - lo) / 2;
        if read_key(d, t, c, mid) <= target {
            lo = mid + 1;
        } else {
            hi = mid;
        }
    }
    lo
}

/// The table of `count` records of `size` bytes that starts `rel` bytes after
/// `base`, where it lies within `d`.
pub fn sub_table(d: &[u8], base: usize, rel: u16, count: u16, size: usize) -> (r: Option<Table>)
    requires
        size > 0,
    ensures
        r == (if fits(d@.len() as int, base + rel, count as int, size as int) {
            Some(Table { offset: (base + rel) as usize, len: count as usize })
        } else {
            None
        }),
{
    if base > d.len() || (rel as usize) > d.len() - base {
        assert(count * size >= 0) by (nonlinear_arith)
            requires
                size > 0,
        ;
        return None;
    }
    let offset = base + rel as usize;
    if check_fits(d, offset, count as usize, size) {
        Some(Table { offset, len: count as usize })
    } else {
        None
    }
}

/// Checks that table `t` of records of `size` bytes lies within `d`.
pub fn check_table(d: &[u8], t: Table, size: usize) -> (r: bool)
    requires
        size > 0,
    ensures
        r == table_fits(d@.len() as int, t, size as int),
{
    check_fits(d, t.offset, t.len, size)
}

/// What the kind tag at the start of a page body selects.
#[derive(Clone, Copy, Debug, PartialEq, Eq, Structural)]
pub enum PageBody {
    /// A regular page: its function array of (address, opcode) pairs.
    Regular { functions: Table },
    /// A compressed page: its array of packed entries, and its local opcode
    /// table where the one its header declares lies within the buffer (that
    /// is reported only where the table is needed).
    Compressed { functions: Table, local_opcodes: Option<Table> },
}

/// The keys that a search inside a page runs over.
pub open spec fn function_keys(d: Seq<u8>, body: PageBody) -> Seq<u32> {
    match body {
        PageBody::Regular { functions } => column_keys(d, functions, Column::RegularAddress),
        PageBody::Compressed { functions, .. } => column_keys(
            d,
            functions,
            Column::CompressedAddress,
        ),
    }
}

/// The number of function entries of a page body.
pub open spec fn function_count(body: PageBody) -> int {
    match body {
        PageBody::Regular { functions } => functions.len as int,
        PageBody::Compressed { functions, .. } => functions.len as int,
    }
}

/// Every table that a page body names lies within a buffer of `len` bytes.
pub open spec fn body_fits(len: int, body: PageBody) -> bool {
    match body {
        PageBody::Regular { functions } => table_fits(len, functions, 8),
        PageBody::Compressed { functions, local_opcodes } => {
            &&& table_fits(len, functions, 4)
            &&& (local_opcodes matches Some(l) ==> table_fits(len, l, 4))
        },
    }
}

/// The body of the page at byte offset `po`, as far as a lookup reads it
/// before searching: kind tag, page header, function array.
pub open spec fn page_body(d: Seq<u8>, po: int) -> Result<PageBody, Error> {
    if po + 4 > d.len() {
        Err(Error::ReadError(ReadError::PageKind))
    } else {
        let kind = le_u32(d, po);
        if kind == PAGE_KIND_REGULAR {
            if po + 8 > d.len() {
                Err(Error::ReadError(ReadError::RegularPage))
            } else {
                let functions = Table {
                    offset: (po + le_u16(d, po + 4)) as usize,
                    len: le_u16(d, po + 6) as usize,
                };
                if !fits(d.len() as int, po + le_u16(d, po + 4), le_u16(d, po + 6) as int, 8) {
                    Err(Error::ReadError(ReadError::RegularPageFunctions))
                } else {
                    Ok(PageBody::Regular { functions })
                }
            }
        } else if kind == PAGE_KIND_COMPRESSED {
            if po + 12 > d.len() {
                Err(Error::ReadError(ReadError::CompressedPage))
            } else {
                let functions = Table {
                    offset: (po + le_u16(d, po + 4)) as usize,
                    len: le_u16(d, po + 6) as usize,
                };
                let local_opcodes = if fits(
                    d.len() as int,
                    po + le_u16(d, po + 8),
                    le_u16(d, po + 10) as int,
                    4,
                ) {
                    Some(
                        Table {
                            offset: (po + le_u16(d, po + 8)) as usize,
                            len: le_u16(d, po + 10) as usize,
                        },
                    )
                } else {
                    None
                };
                if !fits(d.len() as int, po + le_u16(d, po + 4), le_u16(d, po + 6) as int, 4) {
                    Err(Error::ReadError(ReadError::CompressedPageFunctions))
                } else {
                    Ok(PageBody::Compressed { functions, local_opcodes })
                }
            }
        } else if kind == PAGE_KIND_SENTINEL {
            Err(Error::UnexpectedSentinelPage)
        } else {
            Err(Error::InvalidPageKind)
        }
    }
}

/// Reads the kind tag, page header and function array of the page at `po`.
pub fn parse_page_body(d: &[u8], po: u32) -> (r: Result<PageBody, Error>)
    ensures
        r == page_body(d@, po as int),
        r matches Ok(b) ==> body_fits(d@.len() as int, b),
{
    proof {
        lemma_len_fits(d);
    }
    let po = po as usize;
    let kind = match read_u32_at(d, po) {
        Some(k) => k,
        None => return Err(Error::read(ReadError::PageKind)),
    };
    if kind == PAGE_KIND_REGULAR {
        if !check_fits(d, po, 1, REGULAR_PAGE_HEADER_SIZE) {
            return Err(Error::read(ReadError::RegularPage));
        }
        let (fo, fl) = (read_u16(d, po + 4), read_u16(d, po + 6));
        let functions = match sub_table(d, po, fo, fl, REGULAR_ENTRY_SIZE) {
            Some(t) => t,
            None => return Err(Error::read(ReadError::RegularPageFunctions)),
        };
        Ok(PageBody::Regular { functions })
    } else if kind == PAGE_KIND_COMPRESSED {
        if !check_fits(d, po, 1, COMPRESSED_PAGE_HEADER_SIZE) {
            return Err(Error::read(ReadError::CompressedPage));
        }
        let (fo, fl) = (read_u16(d, po + 4), read_u16(d, po + 6));
        let functions = match sub_table(d, po, fo, fl, COMPRESSED_ENTRY_SIZE) {
            Some(t) => t,
            None => return Err(Error::read(ReadError::CompressedPageFunctions)),
        };
        let local_opcodes = sub_table(d, po, read_u16(d, po + 8), read_u16(d, po + 10), OPCODE_SIZE);
        Ok(PageBody::Compressed { functions, local_opcodes })
    } else if kind == PAGE_KIND_SENTINEL {
        Err(Error::UnexpectedSentinelPage)
    } else {
        Err(Error::InvalidPageKind)
    }
}

/// The end of the function array of a page body.
pub open spec fn functions_end(body: PageBody) -> int {
    match body {
        PageBody::Regular { functions } => functions.offset + 8 * functions.len,
        PageBody::Compressed { functions, .. } => functions.offset + 4 * functions.len,
    }
}

proof fn lemma_take_le(d: Seq<u8>, len: int, o: int)
    requires
        0 <= o,
        o + 4 <= len <= d.len(),
    ensures
        le_u32(d.take(len), o) == le_u32(d, o),
        le_u16(d.take(len), o) == le_u16(d, o),
        le_u16(d.take(len), o + 2) == le_u16(d, o + 2),
{
}

/// Cutting the buffer inside a field that a page body needs gives the read
/// error of that field: inside the kind tag, `PageKind`; inside the page
/// header, `RegularPage` or `CompressedPage`; inside the function array,
/// `RegularPageFunctions` or `CompressedPageFunctions`; and a compressed page
/// cut inside its local opcode table loses that table.
pub proof fn lemma_truncated_page_body(d: Seq<u8>, po: int, len: int)
    requires
        0 <= po <= len <= d.len() <= usize::MAX,
        page_body(d, po) is Ok,
    ensures
        len < po + 4 ==> page_body(d.take(len), po) == Err::<PageBody, Error>(
            Error::ReadError(ReadError::PageKind),
        ),
        (page_body(d, po) matches Ok(PageBody::Regular { .. })) && po + 4 <= len < po + 8
            ==> page_body(d.take(len), po) == Err::<PageBody, Error>(
            Error::ReadError(ReadError::RegularPage),
        ),
        (page_body(d, po) matches Ok(PageBody::Regular { .. })) && po + 8 <= len
            < functions_end(page_body(d, po)->Ok_0) ==> page_body(d.take(len), po) == Err::<
            PageBody,
            Error,
        >(Error::ReadError(ReadError::RegularPageFunctions)),
        (page_body(d, po) matches Ok(PageBody::Compressed { .. })) && po + 4 <= len < po + 12
            ==> page_body(d.take(len), po) == Err::<PageBody, Error>(
            Error::ReadError(ReadError::CompressedPage),
        ),
        (page_body(d, po) matches Ok(PageBody::Compressed { .. })) && po + 12 <= len
            < functions_end(page_body(d, po)->Ok_0) ==> page_body(d.take(len), po) == Err::<
            PageBody,
            Error,
        >(Error::ReadError(ReadError::CompressedPageFunctions)),
        page_body(d, po) matches Ok(PageBody::Compressed { local_opcodes: Some(l), .. }) ==> (
        functions_end(page_body(d, po)->Ok_0) <= len < l.offset + 4 * l.len && po + 12 <= len
            ==> (page_body(d.take(len), po) matches Ok(
            PageBody::Compressed { local_opcodes: None, .. },
        ))),
{
    let t = d.take(len);
    if len >= po + 4 {
        lemma_take_le(d, len, po);
    }
    if len >= po + 8 {
        lemma_take_le(d, len, po + 4);
    }
    if len >= po + 12 {
        lemma_take_le(d, len, po + 8);
    }
}

} // verus!
