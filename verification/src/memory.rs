//! Plain descriptions of the memory that the loader deals with: mapped page
//! ranges and boot modules.

use vstd::prelude::*;

verus! {

/// The size of a page in bytes.
pub const PAGE_SIZE: usize = 4096;

/// Whether `address` is the first address of a page.
pub fn address_is_page_aligned(address: usize) -> (aligned: bool)
    ensures
        aligned == (address % PAGE_SIZE == 0),
{
    address % PAGE_SIZE == 0
}

/// A range of virtual addresses: `size` bytes from `start` on.
pub struct PageRange {
    pub start: usize,
    pub size: usize,
}

impl PageRange {
    /// Whether `address` lies within the range.
    pub open spec fn covers(self, address: usize) -> bool {
        self.start <= address < self.start + self.size
    }

    /// The distance of `address` from the start of the range, if the range
    /// covers it.
    pub open spec fn offset_of(self, address: usize) -> Option<usize> {
        if self.covers(address) {
            Some((address - self.start) as usize)
        } else {
            None
        }
    }
}

/// A handle for a mapped range of virtual memory.
///
/// A handle cannot be copied: whoever is given one either keeps it or hands
/// it back.
#[derive(Debug, PartialEq, Eq)]
pub struct MappedPages {
    start: usize,
    size_in_bytes: usize,
}

impl View for MappedPages {
    type V = PageRange;

    closed spec fn view(&self) -> PageRange {
        PageRange { start: self.start, size: self.size_in_bytes }
    }
}

impl MappedPages {
    /// A handle for `size_in_bytes` bytes mapped at `start`.
    pub fn new(start: usize, size_in_bytes: usize) -> (pages: Self)
        ensures
            pages@ == (PageRange { start, size: size_in_bytes }),
    {
        MappedPages { start, size_in_bytes }
    }

    /// The first address of the range.
    pub fn start_address(&self) -> (start: usize)
        ensures
            start == self@.start,
    {
        self.start
    }

    /// The length of the range in bytes.
    pub fn size_in_bytes(&self) -> (size: usize)
        ensures
            size == self@.size,
    {
        self.size_in_bytes
    }

    /// The offset of `address` into this range, or `None` where the range
    /// does not cover it.
    pub fn offset_of_address(&self, address: usize) -> (offset: Option<usize>)
        ensures
            offset == self@.offset_of(address),
    {
        if address >= self.start && address - self.start < self.size_in_bytes {
            Some(address - self.start)
        } else {
            None
        }
    }
}

/// What a boot module looks like in the abstract.
pub struct ModuleInfo {
    pub start_address: usize,
    pub size: usize,
    pub name: Seq<char>,
}

/// A boot module: a named range of physical memory.
#[derive(Debug)]
pub struct ModuleArea {
    start_address: usize,
    size: usize,
    name: String,
}

impl View for ModuleArea {
    type V = ModuleInfo;

    closed spec fn view(&self) -> ModuleInfo {
        ModuleInfo { start_address: self.start_address, size: self.size, name: self.name@ }
    }
}

impl ModuleArea {
    /// A module of `size` bytes at the physical address `start_address`.
    pub fn new(start_address: usize, size: usize, name: String) -> (module: Self)
        ensures
            module@ == (ModuleInfo { start_address, size, name: name@ }),
    {
        ModuleArea { start_address, size, name }
    }

    /// The physical address at which the module starts.
    pub fn start_address(&self) -> (start: usize)
        ensures
            start == self@.start_address,
    {
        self.start_address
    }

    /// The size of the module in bytes.
    pub fn size(&self) -> (size: usize)
        ensures
            size == self@.size,
    {
        self.size
    }

    /// The name of the module.
    pub fn name(&self) -> (name: &String)
        ensures
            name@ == self@.name,
    {
        &self.name
    }
}

} // verus!
