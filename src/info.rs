//! The parsed section: address lookup, and iteration over pages and functions.
use vstd::prelude::*;

use crate::error::{Error, ReadError};
use crate::raw::{
    body_fits, column_key, column_keys, entry_opcode_index, entry_relative_address,
    function_count, function_keys, header_global_opcodes, header_pages, opcode_index,
    page_body, parse_page_body, read_key, relative_address, search, check_table, Column,
    PageBody, HEADER_SIZE, OPCODE_SIZE, PAGE_ENTRY_SIZE,
};
use crate::reader::{le_u32, lemma_len_fits, read_u32, table_fits, Table};
use crate::search::{
    lemma_brackets_is_upper, lemma_upper_at, lemma_upper_below_first, strictly_ascending, upper,
};

verus! {

/// The information about a single function.
#[derive(Clone, Copy, Debug, PartialEq, Eq, Hash, Structural)]
pub struct Function {
    /// The address where this function starts.
    pub start_address: u32,
    /// The address where this function ends: the address of the next function
    /// entry, or for the last function of a page the first address of the next page.
    pub end_address: u32,
    /// The opcode which describes how to unwind this function; its meaning
    /// depends on the architecture.
    pub opcode: u32,
}

/// A parsed view of the unwind info section. Parsing only checks the header
/// and the two top-level arrays; page bodies are read when they are needed.
#[derive(Clone, Copy)]
pub struct UnwindInfo<'a> {
    data: &'a [u8],
    global_opcodes: Table,
    pages: Table,
}

impl<'a> UnwindInfo<'a> {
    /// The section bytes.
    pub closed spec fn bytes(self) -> Seq<u8> {
        self.data@
    }

    /// The global opcode array.
    pub closed spec fn global_table(self) -> Table {
        self.global_opcodes
    }

    /// The page entry array, the sentinel entry included.
    pub closed spec fn page_table(self) -> Table {
        self.pages
    }

    /// Both top-level arrays lie within the section.
    pub open spec fn wf(self) -> bool {
        &&& table_fits(self.bytes().len() as int, self.global_table(), 4)
        &&& table_fits(self.bytes().len() as int, self.page_table(), 12)
    }

    /// The number of page entries, the sentinel included.
    pub open spec fn page_count(self) -> int {
        self.page_table().len as int
    }

    /// The `first_address` of page entry `i`.
    pub open spec fn first_address(self, i: int) -> u32 {
        column_key(self.bytes(), self.page_table(), Column::PageFirstAddress, i)
    }

    /// The `first_address` of every page entry, in order.
    pub open spec fn page_keys(self) -> Seq<u32> {
        column_keys(self.bytes(), self.page_table(), Column::PageFirstAddress)
    }

    /// The byte offset of the body of page entry `i`.
    pub open spec fn page_offset(self, i: int) -> u32 {
        le_u32(self.bytes(), self.page_table().offset + 12 * i + 4)
    }

    /// Global opcode `i`.
    pub open spec fn global_opcode(self, i: int) -> u32 {
        le_u32(self.bytes(), self.global_table().offset + 4 * i)
    }

    /// The body of page `i`, as a lookup reads it.
    pub open spec fn page(self, i: int) -> Result<PageBody, Error> {
        page_body(self.bytes(), self.page_offset(i) as int)
    }

    /// The body of page `i`, as iteration reads it: the local opcode table of a
    /// compressed page must lie within the section too.
    pub open spec fn iterated_page(self, i: int) -> Result<PageBody, Error> {
        match self.page(i) {
            Ok(PageBody::Compressed { local_opcodes: None, .. }) => Err(
                Error::ReadError(ReadError::LocalOpcodes),
            ),
            other => other,
        }
    }

    /// The opcode that index `idx` of a compressed entry selects: a global
    /// opcode below the global count, else a local one.
    pub open spec fn resolved_opcode(self, local_opcodes: Option<Table>, idx: u32) -> Result<
        u32,
        Error,
    > {
        let glen = self.global_table().len;
        if idx < glen {
            Ok(self.global_opcode(idx as int))
        } else {
            match local_opcodes {
                Some(l) if idx - glen < l.len => Ok(
                    le_u32(self.bytes(), l.offset + 4 * (idx - glen)),
                ),
                _ => Err(Error::ReadError(ReadError::LocalOpcodes)),
            }
        }
    }

    /// The start address of function entry `k` of page `p` with body `body`, as
    /// an unbounded integer.
    pub open spec fn entry_start(self, p: int, body: PageBody, k: int) -> int {
        match body {
            PageBody::Regular { .. } => function_keys(self.bytes(), body)[k] as int,
            PageBody::Compressed { .. } => self.first_address(p) + function_keys(
                self.bytes(),
                body,
            )[k],
        }
    }

    /// The function record of entry `k` of page `p` with body `body`.
    pub open spec fn entry_function(self, p: int, body: PageBody, k: int) -> Result<
        Function,
        Error,
    > {
        let d = self.bytes();
        let next_page = self.first_address(p + 1);
        match body {
            PageBody::Regular { functions } => {
                let base = functions.offset + 8 * k;
                Ok(
                    Function {
                        start_address: le_u32(d, base),
                        end_address: if k + 1 < functions.len {
                            le_u32(d, base + 8)
                        } else {
                            next_page
                        },
                        opcode: le_u32(d, base + 4),
                    },
                )
            },
            PageBody::Compressed { functions, local_opcodes } => {
                let page_address = self.first_address(p);
                let e = le_u32(d, functions.offset + 4 * k);
                let end_address = if k + 1 < functions.len {
                    page_address.wrapping_add(
                        entry_relative_address(le_u32(d, functions.offset + 4 * k + 4)),
                    )
                } else {
                    next_page
                };
                match self.resolved_opcode(local_opcodes, entry_opcode_index(e)) {
                    Ok(opcode) => Ok(
                        Function {
                            start_address: page_address.wrapping_add(entry_relative_address(e)),
                            end_address,
                            opcode,
                        },
                    ),
                    Err(err) => Err(err),
                }
            },
        }
    }

    /// What looking up `pc` gives: the page entry whose range holds it, the
    /// function entry of that page whose range holds it, and that function's record.
    pub open spec fn spec_lookup(self, pc: u32) -> Result<Option<Function>, Error> {
        let idx = upper(self.page_keys(), pc);
        if idx == 0 || idx >= self.page_count() {
            Ok(None)
        } else {
            let p = idx - 1;
            match self.page(p) {
                Err(e) => Err(e),
                Ok(body) => {
                    let key = match body {
                        PageBody::Regular { .. } => pc,
                        PageBody::Compressed { .. } => (pc - self.first_address(p)) as u32,
                    };
                    let j = upper(function_keys(self.bytes(), body), key);
                    if j == 0 {
                        Err(Error::InvalidPageEntryFirstAddress)
                    } else {
                        match self.entry_function(p, body, j - 1) {
                            Ok(f) => Ok(Some(f)),
                            Err(e) => Err(e),
                        }
                    }
                }
            }
        }
    }

    /// The page entries ascend, and so do the function entries of each page
    /// whose body can be read.
    pub open spec fn sorted(self) -> bool {
        &&& strictly_ascending(self.page_keys())
        &&& forall|p: int|
            0 <= p < self.page_count() - 1 && (#[trigger] self.page(p)) is Ok ==> strictly_ascending(
                function_keys(self.bytes(), self.page(p)->Ok_0),
            )
    }

    /// Page `p` reads without error; its function entries ascend, lie within
    /// the page's address range, and resolve to opcodes.
    pub open spec fn page_well_formed(self, p: int) -> bool {
        &&& self.iterated_page(p) is Ok
        &&& strictly_ascending(function_keys(self.bytes(), self.iterated_page(p)->Ok_0))
        &&& forall|k: int|
            0 <= k < function_count(self.iterated_page(p)->Ok_0) ==> {
                &&& self.first_address(p) <= #[trigger] self.entry_start(
                    p,
                    self.iterated_page(p)->Ok_0,
                    k,
                ) < self.first_address(p + 1)
                &&& self.entry_function(p, self.iterated_page(p)->Ok_0, k) is Ok
            }
    }

    /// The whole section is consistent: page entries ascend and every real page
    /// is well formed.
    pub open spec fn well_formed(self) -> bool {
        &&& strictly_ascending(self.page_keys())
        &&& forall|p: int| 0 <= p < self.page_count() - 1 ==> #[trigger] self.page_well_formed(p)
    }

    /// Wraps the bytes of a mach-O binary's `__unwind_info` section. Only the
    /// header and the bounds of the global opcode and page entry arrays are checked.
    pub fn parse(data: &'a [u8]) -> (r: Result<Self, Error>)
        ensures
            data@.len() < 28 ==> r == Err::<Self, Error>(Error::ReadError(ReadError::Header)),
            data@.len() >= 28 && !table_fits(data@.len() as int, header_global_opcodes(data@), 4)
                ==> r == Err::<Self, Error>(Error::ReadError(ReadError::GlobalOpcodes)),
            data@.len() >= 28 && table_fits(data@.len() as int, header_global_opcodes(data@), 4)
                && !table_fits(data@.len() as int, header_pages(data@), 12) ==> r == Err::<
                Self,
                Error,
            >(Error::ReadError(ReadError::Pages)),
            data@.len() >= 28 && table_fits(data@.len() as int, header_global_opcodes(data@), 4)
                && table_fits(data@.len() as int, header_pages(data@), 12) ==> (r matches Ok(info)
                && info.wf() && info.bytes() == data@ && info.global_table()
                == header_global_opcodes(data@) && info.page_table() == header_pages(data@)),
    {
        if data.len() < HEADER_SIZE {
            return Err(Error::read(ReadError::Header));
        }
        let global_opcodes = Table {
            offset: read_u32(data, 4) as usize,
            len: read_u32(data, 8) as usize,
        };
        if !check_table(data, global_opcodes, OPCODE_SIZE) {
            return Err(Error::read(ReadError::GlobalOpcodes));
        }
        let pages = Table { offset: read_u32(data, 20) as usize, len: read_u32(data, 24) as usize };
        if !check_table(data, pages, PAGE_ENTRY_SIZE) {
            return Err(Error::read(ReadError::Pages));
        }
        Ok(UnwindInfo { data, global_opcodes, pages })
    }

    fn first_address_at(&self, i: usize) -> (r: u32)
        requires
            self.wf(),
            i < self.page_count(),
        ensures
            r == self.first_address(i as int),
    {
        read_key(self.data, self.pages, Column::PageFirstAddress, i)
    }

    fn page_offset_at(&self, i: usize) -> (r: u32)
        requires
            self.wf(),
            i < self.page_count(),
        ensures
            r == self.page_offset(i as int),
    {
        proof {
            lemma_len_fits(self.data);
        }
        read_u32(self.data, self.pages.offset + 12 * i + 4)
    }

    /// Resolves opcode index `idx` of a compressed page entry against the
    /// global opcodes and then the page's local opcodes. An index past both
    /// tables is a read error, never an out-of-bounds access.
    pub fn resolve_opcode(&self, local_opcodes: Option<Table>, idx: u32) -> (r: Result<u32, Error>)
        requires
            self.wf(),
            local_opcodes matches Some(l) ==> table_fits(self.bytes().len() as int, l, 4),
        ensures
            r == self.resolved_opcode(local_opcodes, idx),
            idx < self.global_table().len ==> r == Ok::<u32, Error>(self.global_opcode(idx as int)),
    {
        proof {
            lemma_len_fits(self.data);
        }
        let glen = self.global_opcodes.len;
        if (idx as usize) < glen {
            return Ok(read_u32(self.data, self.global_opcodes.offset + 4 * (idx as usize)));
        }
        match local_opcodes {
            Some(l) => {
                let local_index = idx as usize - glen;
                if local_index < l.len {
                    Ok(read_u32(self.data, l.offset + 4 * local_index))
                } else {
                    Err(Error::read(ReadError::LocalOpcodes))
                }
            },
            None => Err(Error::read(ReadError::LocalOpcodes)),
        }
    }

    /// Looks up the function that covers `pc`: `Ok(Some(function))` where one
    /// does, `Ok(None)` where `pc` lies before the first page or at or after the
    /// sentinel, and an error where the data the search touches is malformed.
    /// Two binary searches, one over the page entries and one inside the page.
    pub fn lookup(&self, pc: u32) -> (r: Result<Option<Function>, Error>)
        requires
            self.wf(),
        ensures
            self.sorted() ==> r == self.spec_lookup(pc),
            r matches Ok(Some(f)) ==> f.start_address <= pc,
            r == Ok::<Option<Function>, Error>(None) ==> self.page_count() == 0 || pc
                < self.first_address(0) || pc >= self.first_address(self.page_count() - 1),
    {
        let d = self.data;
        let idx = search(d, self.pages, Column::PageFirstAddress, pc);
        proof {
            if self.sorted() {
                lemma_brackets_is_upper(self.page_keys(), pc, idx as int);
            }
        }
        if idx == 0 {
            return Ok(None);
        }
        let p = idx - 1;
        if p == self.pages.len - 1 {
            // The sentinel entry only marks the end of the covered range.
            return Ok(None);
        }
        let body = match parse_page_body(d, self.page_offset_at(p)) {
            Ok(b) => b,
            Err(e) => return Err(e),
        };
        let j = match body {
            PageBody::Regular { functions } => search(d, functions, Column::RegularAddress, pc),
            PageBody::Compressed { functions, .. } => {
                let rel_pc = pc - self.first_address_at(p);
                search(d, functions, Column::CompressedAddress, rel_pc)
            },
        };
        proof {
            if self.sorted() {
                assert(self.page(p as int) is Ok);
                let key = match body {
                    PageBody::Regular { .. } => pc,
                    PageBody::Compressed { .. } => (pc - self.first_address(p as int)) as u32,
                };
                lemma_brackets_is_upper(function_keys(d@, body), key, j as int);
            }
        }
        if j == 0 {
            return Err(Error::InvalidPageEntryFirstAddress);
        }
        match self.function_at(p, body, j - 1) {
            Ok(f) => Ok(Some(f)),
            Err(e) => Err(e),
        }
    }

    /// Builds the record of function entry `k` of page `p`.
    fn function_at(&self, p: usize, body: PageBody, k: usize) -> (r: Result<Function, Error>)
        requires
            self.wf(),
            p + 1 < self.page_count(),
            body_fits(self.bytes().len() as int, body),
            k < function_count(body),
        ensures
            r == self.entry_function(p as int, body, k as int),
    {
        proof {
            lemma_len_fits(self.data);
        }
        let d = self.data;
        let next_page = self.first_address_at(p + 1);
        match body {
            PageBody::Regular { functions } => {
                let base = functions.offset + 8 * k;
                let end_address = if k + 1 < functions.len {
                    read_u32(d, base + 8)
                } else {
                    next_page
                };
                Ok(
                    Function {
                        start_address: read_u32(d, base),
                        end_address,
                        opcode: read_u32(d, base + 4),
                    },
                )
            },
            PageBody::Compressed { functions, local_opcodes } => {
                let page_address = self.first_address_at(p);
                let e = read_u32(d, functions.offset + 4 * k);
                let end_address = if k + 1 < functions.len {
                    let next = read_u32(d, functions.offset + 4 * k + 4);
                    page_address.wrapping_add(relative_address(next))
                } else {
                    next_page
                };
                match self.resolve_opcode(local_opcodes, opcode_index(e)) {
                    Ok(opcode) => Ok(
                        Function {
                            start_address: page_address.wrapping_add(relative_address(e)),
                            end_address,
                            opcode,
                        },
                    ),
                    Err(err) => Err(err),
                }
            },
        }
    }
}

impl<'a> UnwindInfo<'a> {
    /// An iterator over the real pages, in order; the sentinel entry is never
    /// yielded. Calling this again starts over.
    pub fn pages(&self) -> (r: PageIter<'a>)
        requires
            self.wf(),
        ensures
            r.info() == *self,
            r.position() == 0,
            r.wf(),
    {
        PageIter { info: *self, next: 0 }
    }
}

/// An iterator over the pages of an [`UnwindInfo`]. Skips the sentinel page at
/// the end; only yields real pages.
pub struct PageIter<'a> {
    info: UnwindInfo<'a>,
    next: usize,
}

/// Whether `r` is what an iterator step yields for an item that reads as
/// `item`: the error, or an item that `yielded` maps to what was read.
pub open spec fn step_result<T, U>(
    item: Result<T, Error>,
    r: Result<Option<U>, Error>,
    yielded: spec_fn(U) -> T,
) -> bool {
    match item {
        Ok(t) => r matches Ok(Some(u)) && yielded(u) == t,
        Err(e) => r == Err::<Option<U>, Error>(e),
    }
}

impl<'a> PageIter<'a> {
    /// The section being iterated.
    pub closed spec fn info(self) -> UnwindInfo<'a> {
        self.info
    }

    /// The index of the page entry that the next call reads.
    pub closed spec fn position(self) -> int {
        self.next as int
    }

    pub open spec fn wf(self) -> bool {
        self.info().wf()
    }

    /// Yields the next real page, `Ok(None)` once the sentinel entry is reached,
    /// or the error met while reading the page's body. The position moves on
    /// in every case but the last.
    pub fn next(&mut self) -> (r: Result<Option<Page<'a>>, Error>)
        requires
            old(self).wf(),
        ensures
            final(self).wf(),
            final(self).info() == old(self).info(),
            old(self).position() >= old(self).info().page_count() ==> (r matches Ok(None)
                && final(self).position() == old(self).position()),
            old(self).position() < old(self).info().page_count() ==> final(self).position()
                == old(self).position() + 1,
            old(self).position() + 1 >= old(self).info().page_count() ==> r matches Ok(None),
            old(self).position() + 1 < old(self).info().page_count() ==> step_result(
                old(self).info().iterated_page(old(self).position()),
                r,
                |page: Page<'a>| page.body(),
            ),
            r matches Ok(Some(page)) ==> page.wf() && page.info() == old(self).info()
                && page.index() == old(self).position() && page.index() + 1 < page.info().page_count(),
    {
        let n = self.info.pages.len;
        if self.next >= n {
            return Ok(None);
        }
        let i = self.next;
        self.next = i + 1;
        if i + 1 >= n {
            return Ok(None);
        }
        let info = self.info;
        let body = match parse_page_body(info.data, info.page_offset_at(i)) {
            Ok(b) => b,
            Err(e) => return Err(e),
        };
        if let PageBody::Compressed { local_opcodes: None, .. } = body {
            return Err(Error::read(ReadError::LocalOpcodes));
        }
        Ok(
            Some(
                Page {
                    info,
                    index: i,
                    page_address: info.first_address_at(i),
                    next_page_address: info.first_address_at(i + 1),
                    body,
                },
            ),
        )
    }
}

/// One real page of an [`UnwindInfo`].
#[derive(Clone, Copy)]
pub struct Page<'a> {
    info: UnwindInfo<'a>,
    index: usize,
    page_address: u32,
    next_page_address: u32,
    body: PageBody,
}

impl<'a> Page<'a> {
    /// The section this page belongs to.
    pub closed spec fn info(self) -> UnwindInfo<'a> {
        self.info
    }

    /// The index of this page's entry.
    pub closed spec fn index(self) -> int {
        self.index as int
    }

    /// This page's body.
    pub closed spec fn body(self) -> PageBody {
        self.body
    }

    /// A real page whose body reads without error, with its address range.
    pub closed spec fn wf(self) -> bool {
        &&& self.info.wf()
        &&& self.index + 1 < self.info.page_count()
        &&& self.info.iterated_page(self.index as int) == Ok::<PageBody, Error>(self.body)
        &&& body_fits(self.info.bytes().len() as int, self.body)
        &&& self.page_address == self.info.first_address(self.index as int)
        &&& self.next_page_address == self.info.first_address(self.index + 1)
    }

    /// The number of function entries of this page.
    pub open spec fn function_count(self) -> int {
        function_count(self.body())
    }

    /// The record of function entry `k` of this page.
    pub open spec fn function(self, k: int) -> Result<Function, Error> {
        self.info().entry_function(self.index(), self.body(), k)
    }

    /// The start of the address range covered by the functions in this page.
    pub fn start_address(&self) -> (r: u32)
        requires
            self.wf(),
        ensures
            r == self.info().first_address(self.index()),
    {
        self.page_address
    }

    /// The end of the address range covered by the functions in this page: the
    /// first address of the next page entry.
    pub fn end_address(&self) -> (r: u32)
        requires
            self.wf(),
        ensures
            r == self.info().first_address(self.index() + 1),
    {
        self.next_page_address
    }

    /// An iterator over the functions in this page, in order.
    pub fn functions(&self) -> (r: FunctionIter<'a>)
        requires
            self.wf(),
        ensures
            r.page() == *self,
            r.position() == 0,
            r.wf(),
    {
        FunctionIter { page: *self, next: 0 }
    }
}

/// An iterator over the functions of one page.
pub struct FunctionIter<'a> {
    page: Page<'a>,
    next: usize,
}

impl<'a> FunctionIter<'a> {
    /// The page being iterated.
    pub closed spec fn page(self) -> Page<'a> {
        self.page
    }

    /// The index of the function entry that the next call reads.
    pub closed spec fn position(self) -> int {
        self.next as int
    }

    pub open spec fn wf(self) -> bool {
        self.page().wf()
    }

    /// Yields the next function of the page, `Ok(None)` after the last one, or
    /// the error met while resolving the function's opcode.
    pub fn next(&mut self) -> (r: Result<Option<Function>, Error>)
        requires
            old(self).wf(),
        ensures
            final(self).wf(),
            final(self).page() == old(self).page(),
            old(self).position() >= old(self).page().function_count() ==> r == Ok::<
                Option<Function>,
                Error,
            >(None) && final(self).position() == old(self).position(),
            old(self).position() < old(self).page().function_count() ==> {
                &&& final(self).position() == old(self).position() + 1
                &&& r == match old(self).page().function(old(self).position()) {
                    Ok(f) => Ok(Some(f)),
                    Err(e) => Err(e),
                }
            },
    {
        let count = match self.page.body {
            PageBody::Regular { functions } => functions.len,
            PageBody::Compressed { functions, .. } => functions.len,
        };
        if self.next >= count {
            return Ok(None);
        }
        let k = self.next;
        self.next = k + 1;
        match self.page.info.function_at(self.page.index, self.page.body, k) {
            Ok(f) => Ok(Some(f)),
            Err(e) => Err(e),
        }
    }
}

/// A well-formed section is sorted, so `lookup` follows `spec_lookup` on it.
pub proof fn lemma_well_formed_is_sorted(info: UnwindInfo)
    requires
        info.well_formed(),
    ensures
        info.sorted(),
{
    assert forall|p: int|
        0 <= p < info.page_count() - 1 && (#[trigger] info.page(p)) is Ok implies strictly_ascending(
        function_keys(info.bytes(), info.page(p)->Ok_0),
    ) by {
        assert(info.page_well_formed(p));
    }
}

/// Lookup agrees with iteration: on a well-formed section, every address in
/// the range of a function that a page yields looks up to that same function.
pub proof fn lemma_lookup_agrees_with_iteration(page: Page, k: int, f: Function, addr: u32)
    requires
        page.wf(),
        page.info().well_formed(),
        0 <= k < page.function_count(),
        page.function(k) == Ok::<Function, Error>(f),
        f.start_address <= addr < f.end_address,
    ensures
        page.info().sorted(),
        page.info().spec_lookup(addr) == Ok::<Option<Function>, Error>(Some(f)),
{
    let info = page.info();
    let p = page.index();
    let body = page.body();
    let d = info.bytes();
    let keys = function_keys(d, body);
    lemma_well_formed_is_sorted(info);
    assert(info.page_well_formed(p));
    assert(info.page(p) == Ok::<PageBody, Error>(body));
    let s_k = info.entry_start(p, body, k);
    assert(info.first_address(p) <= s_k < info.first_address(p + 1));
    if k + 1 < function_count(body) {
        let s_next = info.entry_start(p, body, k + 1);
        assert(info.first_address(p) <= s_next < info.first_address(p + 1));
    }
    let pk = info.page_keys();
    assert(pk[p] == info.first_address(p));
    assert(pk[p + 1] == info.first_address(p + 1));
    match body {
        PageBody::Regular { functions } => {
            assert(keys[k] == f.start_address);
            if k + 1 < functions.len {
                assert(keys[k + 1] == f.end_address);
            }
            lemma_upper_at(pk, addr, p);
            lemma_upper_at(keys, addr, k);
        },
        PageBody::Compressed { functions, .. } => {
            let fa = info.first_address(p);
            assert(f.start_address == fa + keys[k]);
            if k + 1 < functions.len {
                assert(f.end_address == fa + keys[k + 1]);
            }
            lemma_upper_at(pk, addr, p);
            lemma_upper_at(keys, (addr - fa) as u32, k);
        },
    }
}

/// Addresses at or beyond the sentinel entry look up to nothing: the sentinel
/// is never a lookup hit.
pub proof fn lemma_sentinel_never_hit(info: UnwindInfo, pc: u32)
    requires
        info.wf(),
        info.page_count() > 0,
        pc >= info.first_address(info.page_count() - 1),
    ensures
        info.spec_lookup(pc) == Ok::<Option<Function>, Error>(None),
{
    assert(info.page_keys().last() == info.first_address(info.page_count() - 1));
}

/// On ascending page entries, addresses below the first page look up to nothing.
pub proof fn lemma_lookup_before_first_page(info: UnwindInfo, pc: u32)
    requires
        info.wf(),
        strictly_ascending(info.page_keys()),
        info.page_count() > 0,
        pc < info.first_address(0),
    ensures
        info.spec_lookup(pc) == Ok::<Option<Function>, Error>(None),
{
    assert(info.page_keys()[0] == info.first_address(0));
    lemma_upper_below_first(info.page_keys(), pc);
}

/// On ascending page entries, each real page covers a non-empty range, which
/// ends where the next page entry's range begins.
pub proof fn lemma_page_range(page: Page)
    requires
        page.wf(),
        strictly_ascending(page.info().page_keys()),
    ensures
        page.info().first_address(page.index()) < page.info().first_address(page.index() + 1),
        page.index() + 1 < page.info().page_count(),
{
    let pk = page.info().page_keys();
    assert(pk[page.index()] < pk[page.index() + 1]);
}

} // verus!
