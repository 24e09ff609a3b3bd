use vstd::prelude::*;

verus! {

/// An error found while reading the unwind info.
#[derive(Clone, Copy, Debug, PartialEq, Eq, Structural)]
pub enum Error {
    /// The buffer was too short for a structurally required item.
    ReadError(ReadError),
    /// The page entry's first_address didn't match the address of its first function.
    InvalidPageEntryFirstAddress,
    /// A page body carried a kind tag that is not a known page kind.
    InvalidPageKind,
    /// A sentinel page body stood where a real page was expected.
    UnexpectedSentinelPage,
}

/// The buffer was not large enough to read the named item.
#[derive(Clone, Copy, Debug, PartialEq, Eq, Structural)]
pub enum ReadError {
    /// The fixed-size section header.
    Header,
    /// The global opcode array.
    GlobalOpcodes,
    /// The page entry array.
    Pages,
    /// The header of a regular page.
    RegularPage,
    /// The function array of a regular page.
    RegularPageFunctions,
    /// The header of a compressed page.
    CompressedPage,
    /// The function array of a compressed page.
    CompressedPageFunctions,
    /// The local opcode array of a compressed page, or the opcode an index selects in it.
    LocalOpcodes,
    /// The kind tag at the start of a page body.
    PageKind,
}

impl Error {
    /// The error for an item that could not be read.
    pub fn read(e: ReadError) -> (r: Error)
        ensures
            r == Error::ReadError(e),
    {
        Error::ReadError(e)
    }
}

} // verus!
