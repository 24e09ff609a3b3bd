use macho_unwind_info::{Error, Function, ReadError, UnwindInfo};

enum Body {
    Regular(Vec<(u32, u32)>),
    Compressed(Vec<(u32, u32)>, Vec<u32>),
    Kind(u32),
}

fn put32(v: &mut Vec<u8>, x: u32) {
    v.extend_from_slice(&x.to_le_bytes());
}

fn put16(v: &mut Vec<u8>, x: u16) {
    v.extend_from_slice(&x.to_le_bytes());
}

fn body_bytes(body: &Body) -> Vec<u8> {
    let mut v = Vec::new();
    match body {
        Body::Regular(entries) => {
            put32(&mut v, 2);
            put16(&mut v, 8);
            put16(&mut v, entries.len() as u16);
            for (address, opcode) in entries {
                put32(&mut v, *address);
                put32(&mut v, *opcode);
            }
        }
        Body::Compressed(entries, locals) => {
            put32(&mut v, 3);
            put16(&mut v, 12);
            put16(&mut v, entries.len() as u16);
            put16(&mut v, 12 + 4 * entries.len() as u16);
            put16(&mut v, locals.len() as u16);
            for (rel, index) in entries {
                put32(&mut v, rel | (index << 24));
            }
            for op in locals {
                put32(&mut v, *op);
            }
        }
        Body::Kind(kind) => put32(&mut v, *kind),
    }
    v
}

/// Lays out a section: header, global opcodes, page entries, then page bodies.
/// The last page has no body (the sentinel).
fn section(global: &[u32], pages: &[(u32, Option<Body>)]) -> Vec<u8> {
    let global_offset = 28u32;
    let pages_offset = global_offset + 4 * global.len() as u32;
    let mut body_offset = pages_offset + 12 * pages.len() as u32;
    let mut v = Vec::new();
    put32(&mut v, 1);
    put32(&mut v, global_offset);
    put32(&mut v, global.len() as u32);
    put32(&mut v, 0);
    put32(&mut v, 0);
    put32(&mut v, pages_offset);
    put32(&mut v, pages.len() as u32);
    for op in global {
        put32(&mut v, *op);
    }
    let mut bodies = Vec::new();
    for (first_address, body) in pages {
        put32(&mut v, *first_address);
        match body {
            Some(b) => {
                let bytes = body_bytes(b);
                put32(&mut v, body_offset);
                body_offset += bytes.len() as u32;
                bodies.extend(bytes);
            }
            None => put32(&mut v, 0),
        }
        put32(&mut v, 0);
    }
    v.extend(bodies);
    v
}

const A: u32 = 0x0100_0011;
const B: u32 = 0x0200_0022;

fn simple_section() -> Vec<u8> {
    section(
        &[],
        &[
            (0x1000, Some(Body::Regular(vec![(0x1000, A), (0x1500, B)]))),
            (0x2000, None),
        ],
    )
}

fn mixed_section() -> Vec<u8> {
    section(
        &[0x0400_0001, 0x0400_0002],
        &[
            (0x1000, Some(Body::Regular(vec![(0x1000, A), (0x1100, B), (0x1800, A)]))),
            (
                0x2000,
                Some(Body::Compressed(
                    vec![(0x0, 0), (0x40, 2), (0x100, 1), (0x180, 3)],
                    vec![0x0200_0aaa, 0x0300_0bbb],
                )),
            ),
            (0x3000, Some(Body::Regular(vec![(0x3000, B)]))),
            (0x4000, None),
        ],
    )
}

fn all_functions(info: &UnwindInfo) -> Vec<Function> {
    let mut out = Vec::new();
    let mut pages = info.pages();
    while let Some(page) = pages.next().unwrap() {
        let mut functions = page.functions();
        while let Some(f) = functions.next().unwrap() {
            out.push(f);
        }
    }
    out
}

#[test]
fn regular_page_scenario() {
    let data = simple_section();
    let info = UnwindInfo::parse(&data).unwrap();
    let f = |s, e, o| Some(Function { start_address: s, end_address: e, opcode: o });
    assert_eq!(info.lookup(0x1200), Ok(f(0x1000, 0x1500, A)));
    assert_eq!(info.lookup(0x1999), Ok(f(0x1500, 0x2000, B)));
    assert_eq!(info.lookup(0x2000), Ok(None));
    assert_eq!(info.lookup(0x0fff), Ok(None));
    assert_eq!(info.lookup(0x1000), Ok(f(0x1000, 0x1500, A)));
    assert_eq!(info.lookup(0x14ff), Ok(f(0x1000, 0x1500, A)));
    assert_eq!(info.lookup(0x1500), Ok(f(0x1500, 0x2000, B)));
}

#[test]
fn compressed_page_resolves_global_and_local_opcodes() {
    let data = mixed_section();
    let info = UnwindInfo::parse(&data).unwrap();
    let f = |s, e, o| Some(Function { start_address: s, end_address: e, opcode: o });
    assert_eq!(info.lookup(0x2000), Ok(f(0x2000, 0x2040, 0x0400_0001)));
    assert_eq!(info.lookup(0x2050), Ok(f(0x2040, 0x2100, 0x0200_0aaa)));
    assert_eq!(info.lookup(0x2100), Ok(f(0x2100, 0x2180, 0x0400_0002)));
    assert_eq!(info.lookup(0x2fff), Ok(f(0x2180, 0x3000, 0x0300_0bbb)));
}

#[test]
fn opcode_index_past_both_tables_is_a_read_error() {
    let data = section(
        &[7],
        &[
            (0x1000, Some(Body::Compressed(vec![(0, 0), (0x10, 2)], vec![9]))),
            (0x2000, None),
        ],
    );
    let info = UnwindInfo::parse(&data).unwrap();
    assert_eq!(
        info.lookup(0x1000),
        Ok(Some(Function { start_address: 0x1000, end_address: 0x1010, opcode: 7 }))
    );
    assert_eq!(info.lookup(0x1010), Err(Error::ReadError(ReadError::LocalOpcodes)));
    let mut pages = info.pages();
    let page = pages.next().unwrap().unwrap();
    let mut functions = page.functions();
    assert_eq!(
        functions.next(),
        Ok(Some(Function { start_address: 0x1000, end_address: 0x1010, opcode: 7 }))
    );
    assert_eq!(functions.next(), Err(Error::ReadError(ReadError::LocalOpcodes)));
}

#[test]
fn lookup_agrees_with_iteration() {
    let data = mixed_section();
    let info = UnwindInfo::parse(&data).unwrap();
    let functions = all_functions(&info);
    assert_eq!(functions.len(), 8);
    for f in &functions {
        for addr in [f.start_address, f.end_address - 1, (f.start_address + f.end_address) / 2] {
            assert_eq!(info.lookup(addr), Ok(Some(f.clone())));
        }
    }
    // Consecutive functions tile the covered range.
    for pair in functions.windows(2) {
        assert_eq!(pair[0].end_address, pair[1].start_address);
    }
}

#[test]
fn pages_skip_the_sentinel() {
    let data = mixed_section();
    let info = UnwindInfo::parse(&data).unwrap();
    let mut pages = info.pages();
    let mut ranges = Vec::new();
    while let Some(page) = pages.next().unwrap() {
        ranges.push((page.start_address(), page.end_address()));
    }
    assert_eq!(ranges, vec![(0x1000, 0x2000), (0x2000, 0x3000), (0x3000, 0x4000)]);
    assert!(matches!(pages.next(), Ok(None)));
    // Restartable: a new iterator starts over.
    let mut again = info.pages();
    assert_eq!(again.next().unwrap().unwrap().start_address(), 0x1000);
}

#[test]
fn addresses_outside_the_covered_range() {
    let data = mixed_section();
    let info = UnwindInfo::parse(&data).unwrap();
    for pc in [0, 1, 0x0fff] {
        assert_eq!(info.lookup(pc), Ok(None));
    }
    for pc in [0x4000, 0x4001, u32::MAX] {
        assert_eq!(info.lookup(pc), Ok(None));
    }
}

#[test]
fn empty_page_table() {
    let data = section(&[], &[]);
    let info = UnwindInfo::parse(&data).unwrap();
    assert_eq!(info.lookup(0x1234), Ok(None));
    assert!(matches!(info.pages().next(), Ok(None)));
}

#[test]
fn only_a_sentinel() {
    let data = section(&[], &[(0x1000, None)]);
    let info = UnwindInfo::parse(&data).unwrap();
    assert_eq!(info.lookup(0x0fff), Ok(None));
    assert_eq!(info.lookup(0x1000), Ok(None));
    assert!(matches!(info.pages().next(), Ok(None)));
}

#[test]
fn format_errors() {
    let data = section(&[], &[(0x1000, Some(Body::Kind(1))), (0x2000, None)]);
    let info = UnwindInfo::parse(&data).unwrap();
    assert_eq!(info.lookup(0x1000), Err(Error::UnexpectedSentinelPage));
    assert!(matches!(info.pages().next(), Err(Error::UnexpectedSentinelPage)));

    let data = section(&[], &[(0x1000, Some(Body::Kind(9))), (0x2000, None)]);
    let info = UnwindInfo::parse(&data).unwrap();
    assert_eq!(info.lookup(0x1000), Err(Error::InvalidPageKind));
    assert!(matches!(info.pages().next(), Err(Error::InvalidPageKind)));

    let data = section(
        &[],
        &[(0x1000, Some(Body::Regular(vec![(0x1100, A)]))), (0x2000, None)],
    );
    let info = UnwindInfo::parse(&data).unwrap();
    assert_eq!(info.lookup(0x1050), Err(Error::InvalidPageEntryFirstAddress));
    assert_eq!(
        info.lookup(0x1100),
        Ok(Some(Function { start_address: 0x1100, end_address: 0x2000, opcode: A }))
    );
}

#[test]
fn header_errors() {
    assert!(matches!(UnwindInfo::parse(&[]), Err(Error::ReadError(ReadError::Header))));
    assert!(matches!(UnwindInfo::parse(&[0; 27]), Err(Error::ReadError(ReadError::Header))));
    let mut data = simple_section();
    data[8] = 0xff; // global opcode count far past the end
    assert!(matches!(UnwindInfo::parse(&data), Err(Error::ReadError(ReadError::GlobalOpcodes))));
    let mut data = simple_section();
    data[24] = 0x40; // page count past the end
    assert!(matches!(UnwindInfo::parse(&data), Err(Error::ReadError(ReadError::Pages))));
    let mut data = simple_section();
    data[20..24].copy_from_slice(&u32::MAX.to_le_bytes());
    assert!(matches!(UnwindInfo::parse(&data), Err(Error::ReadError(ReadError::Pages))));
}

/// The first error that reading everything gives, or None.
fn first_error(data: &[u8]) -> Option<Error> {
    let info = match UnwindInfo::parse(data) {
        Ok(info) => info,
        Err(e) => return Some(e),
    };
    let mut pages = info.pages();
    loop {
        match pages.next() {
            Ok(Some(page)) => {
                let mut functions = page.functions();
                loop {
                    match functions.next() {
                        Ok(Some(f)) => {
                            if let Err(e) = info.lookup(f.start_address) {
                                return Some(e);
                            }
                        }
                        Ok(None) => break,
                        Err(e) => return Some(e),
                    }
                }
            }
            Ok(None) => return None,
            Err(e) => return Some(e),
        }
    }
}

#[test]
fn truncation_gives_the_matching_read_error() {
    let data = mixed_section();
    assert_eq!(first_error(&data), None);
    // Offsets of the parts of the mixed section.
    let pages_start = 28 + 8;
    let bodies_start = pages_start + 4 * 12;
    let regular0_end = bodies_start + 8 + 3 * 8;
    let compressed_end = regular0_end + 12 + 4 * 4 + 2 * 4;
    for len in 0..data.len() {
        let e = first_error(&data[..len]).expect("a truncated section must fail");
        let expected = if len < 28 {
            ReadError::Header
        } else if len < bodies_start {
            if len < pages_start {
                ReadError::GlobalOpcodes
            } else {
                ReadError::Pages
            }
        } else if len < bodies_start + 4 {
            ReadError::PageKind
        } else if len < bodies_start + 8 {
            ReadError::RegularPage
        } else if len < regular0_end {
            ReadError::RegularPageFunctions
        } else if len < regular0_end + 4 {
            ReadError::PageKind
        } else if len < regular0_end + 12 {
            ReadError::CompressedPage
        } else if len < regular0_end + 12 + 16 {
            ReadError::CompressedPageFunctions
        } else if len < compressed_end {
            ReadError::LocalOpcodes
        } else if len < compressed_end + 4 {
            ReadError::PageKind
        } else if len < compressed_end + 8 {
            ReadError::RegularPage
        } else {
            ReadError::RegularPageFunctions
        };
        assert_eq!(e, Error::ReadError(expected), "truncated at {}", len);
    }
}
