//! The metadata that describes a loaded crate: its sections and the pages
//! that hold them.

use vstd::prelude::*;
use crate::error::{ParseError, SectionType};
use crate::memory::{MappedPages, ModuleArea, ModuleInfo, PageRange};

verus! {

/// The view of an optional string.
pub open spec fn optional_text(text: Option<String>) -> Option<Seq<char>> {
    match text {
        Some(text) => Some(text@),
        None => None,
    }
}

/// What a section looks like in the abstract.
pub struct SectionInfo {
    pub typ: SectionType,
    pub name: Seq<char>,
    pub hash: Option<Seq<char>>,
    pub mapped_pages_offset: usize,
    pub virt_addr: usize,
    pub size: usize,
    pub global: bool,
}

impl SectionInfo {
    /// Whether the section lies within `pages`, at the offset it records.
    pub open spec fn placed_in(self, pages: PageRange) -> bool {
        pages.offset_of(self.virt_addr) == Some(self.mapped_pages_offset)
    }
}

/// One section of a loaded crate: a function or a piece of data.
///
/// Which pages hold the section follows from its type; the crate that holds
/// the section owns those pages.
#[derive(Debug)]
pub struct LoadedSection {
    typ: SectionType,
    name: String,
    hash: Option<String>,
    mapped_pages_offset: usize,
    virt_addr: usize,
    size: usize,
    global: bool,
}

impl View for LoadedSection {
    type V = SectionInfo;

    closed spec fn view(&self) -> SectionInfo {
        SectionInfo {
            typ: self.typ,
            name: self.name@,
            hash: optional_text(self.hash),
            mapped_pages_offset: self.mapped_pages_offset,
            virt_addr: self.virt_addr,
            size: self.size,
            global: self.global,
        }
    }
}

impl LoadedSection {
    /// A section with the given properties.
    pub fn new(
        typ: SectionType,
        name: String,
        hash: Option<String>,
        mapped_pages_offset: usize,
        virt_addr: usize,
        size: usize,
        global: bool,
    ) -> (section: Self)
        ensures
            section@ == (SectionInfo {
                typ,
                name: name@,
                hash: optional_text(hash),
                mapped_pages_offset,
                virt_addr,
                size,
                global,
            }),
    {
        LoadedSection { typ, name, hash, mapped_pages_offset, virt_addr, size, global }
    }

    /// The type of the section.
    pub fn typ(&self) -> (typ: SectionType)
        ensures
            typ == self@.typ,
    {
        self.typ
    }

    /// The name of the section, without its hash.
    pub fn name(&self) -> (name: &String)
        ensures
            name@ == self@.name,
    {
        &self.name
    }

    /// The hash that followed the name, if there was one.
    pub fn hash(&self) -> (hash: &Option<String>)
        ensures
            optional_text(*hash) == self@.hash,
    {
        &self.hash
    }

    /// The offset of the section into the pages that hold it.
    pub fn mapped_pages_offset(&self) -> (offset: usize)
        ensures
            offset == self@.mapped_pages_offset,
    {
        self.mapped_pages_offset
    }

    /// The virtual address of the section.
    pub fn virt_addr(&self) -> (address: usize)
        ensures
            address == self@.virt_addr,
    {
        self.virt_addr
    }

    /// The size of the section in bytes.
    pub fn size(&self) -> (size: usize)
        ensures
            size == self@.size,
    {
        self.size
    }

    /// Whether the section is visible to other crates.
    pub fn global(&self) -> (global: bool)
        ensures
            global == self@.global,
    {
        self.global
    }
}

/// The three page ranges of a crate.
pub struct PageSet {
    pub text: PageRange,
    pub rodata: PageRange,
    pub data: PageRange,
}

impl PageSet {
    /// The pages that hold sections of the given type. Sections of type
    /// `Bss` live in the data pages.
    pub open spec fn of(self, typ: SectionType) -> PageRange {
        match typ {
            SectionType::Text => self.text,
            SectionType::Rodata => self.rodata,
            SectionType::Data => self.data,
            SectionType::Bss => self.data,
        }
    }
}

/// What a loaded crate looks like in the abstract.
pub struct CrateInfo {
    pub crate_name: Seq<char>,
    pub object_file: ModuleInfo,
    /// The sections with their ids, in the order of the ids.
    pub sections: Seq<(usize, SectionInfo)>,
    pub pages: PageSet,
}

impl CrateInfo {
    /// Whether a section may be added under `id`: the id lies above all ids
    /// that are in use.
    pub open spec fn admits_id(self, id: usize) -> bool {
        self.sections.len() > 0 ==> self.sections.last().0 < id
    }

    /// The ids grow strictly, and every section lies within the pages for
    /// its type, at the offset it records.
    pub open spec fn wf(self) -> bool {
        &&& forall|i: int, j: int|
            0 <= i < j < self.sections.len() ==> (#[trigger] self.sections[i]).0 < (
            #[trigger] self.sections[j]).0
        &&& forall|i: int|
            0 <= i < self.sections.len() ==> (#[trigger] self.sections[i]).1.placed_in(
                self.pages.of(self.sections[i].1.typ),
            )
    }
}

/// The views of sections with their ids.
pub open spec fn section_infos(sections: Seq<(usize, LoadedSection)>) -> Seq<(usize, SectionInfo)> {
    Seq::new(sections.len(), |i: int| (sections[i].0, sections[i].1@))
}

/// A crate whose code and data are in memory, with the pages that hold them.
#[derive(Debug)]
pub struct LoadedCrate {
    crate_name: String,
    object_file: ModuleArea,
    sections: Vec<(usize, LoadedSection)>,
    text_pages: MappedPages,
    rodata_pages: MappedPages,
    data_pages: MappedPages,
}

impl View for LoadedCrate {
    type V = CrateInfo;

    closed spec fn view(&self) -> CrateInfo {
        CrateInfo {
            crate_name: self.crate_name@,
            object_file: self.object_file@,
            sections: section_infos(self.sections@),
            pages: PageSet {
                text: self.text_pages@,
                rodata: self.rodata_pages@,
                data: self.data_pages@,
            },
        }
    }
}

impl LoadedCrate {
    /// A crate without sections that owns the three given page ranges.
    pub fn new(
        crate_name: String,
        object_file: ModuleArea,
        text_pages: MappedPages,
        rodata_pages: MappedPages,
        data_pages: MappedPages,
    ) -> (krate: Self)
        ensures
            krate@ == (CrateInfo {
                crate_name: crate_name@,
                object_file: object_file@,
                sections: Seq::empty(),
                pages: PageSet { text: text_pages@, rodata: rodata_pages@, data: data_pages@ },
            }),
            krate@.wf(),
    {
        let krate = LoadedCrate {
            crate_name,
            object_file,
            sections: Vec::new(),
            text_pages,
            rodata_pages,
            data_pages,
        };
        assert(krate@.sections =~= Seq::empty());
        krate
    }

    /// The pages that hold sections of the given type.
    pub fn pages_for(&self, typ: SectionType) -> (pages: &MappedPages)
        ensures
            pages@ == self@.pages.of(typ),
    {
        match typ {
            SectionType::Text => &self.text_pages,
            SectionType::Rodata => &self.rodata_pages,
            SectionType::Data => &self.data_pages,
            SectionType::Bss => &self.data_pages,
        }
    }

    /// Adds a global section under `id`, at the offset that `virt_addr` has in
    /// the pages for `typ`. Where those pages do not cover the address the
    /// crate stays as it is and the error names the type.
    pub fn add_section(
        &mut self,
        id: usize,
        typ: SectionType,
        name: String,
        hash: Option<String>,
        virt_addr: usize,
        size: usize,
    ) -> (added: Result<(), ParseError>)
        requires
            old(self)@.wf(),
            old(self)@.admits_id(id),
        ensures
            final(self)@.wf(),
            match placed_section(typ, name@, optional_text(hash), virt_addr, size, old(self)@.pages) {
                Ok(section) => added is Ok && final(self)@ == (CrateInfo {
                    sections: old(self)@.sections.push((id, section)),
                    ..old(self)@
                }),
                Err(error) => added == Err::<(), ParseError>(error) && final(self)@ == old(self)@,
            },
    {
        let offset = match self.pages_for(typ).offset_of_address(virt_addr) {
            Some(offset) => offset,
            None => {
                return Err(ParseError::NotCovered(typ));
            },
        };
        let section = LoadedSection::new(typ, name, hash, offset, virt_addr, size, true);
        let ghost before = self@;
        self.sections.push((id, section));
        proof {
            let after = self@;
            assert(after.sections =~= before.sections.push((id, section@)));
            assert forall|i: int, j: int| 0 <= i < j < after.sections.len() implies (
            #[trigger] after.sections[i]).0 < (#[trigger] after.sections[j]).0 by {
                if j == before.sections.len() {
                    if i < j - 1 {
                        assert(before.sections[i].0 < before.sections[j - 1].0);
                    }
                    assert(before.sections.last().0 < id);
                } else {
                    assert(before.sections[i].0 < before.sections[j].0);
                }
            }
            assert forall|i: int| 0 <= i < after.sections.len() implies (
            #[trigger] after.sections[i]).1.placed_in(after.pages.of(after.sections[i].1.typ)) by {
                if i < before.sections.len() {
                    assert(before.sections[i].1.placed_in(
                        before.pages.of(before.sections[i].1.typ),
                    ));
                }
            }
        }
        Ok(())
    }

    /// Gives up the crate and hands back its three page ranges: text, rodata
    /// and data, in this order.
    pub fn into_pages(self) -> (pages: [MappedPages; 3])
        ensures
            pages[0]@ == self@.pages.text,
            pages[1]@ == self@.pages.rodata,
            pages[2]@ == self@.pages.data,
    {
        [self.text_pages, self.rodata_pages, self.data_pages]
    }

    /// The name of the crate.
    pub fn crate_name(&self) -> (name: &String)
        ensures
            name@ == self@.crate_name,
    {
        &self.crate_name
    }

    /// The module that the crate was read from.
    pub fn object_file(&self) -> (module: &ModuleArea)
        ensures
            module@ == self@.object_file,
    {
        &self.object_file
    }

    /// The sections with their ids, in the order of the ids.
    pub fn sections(&self) -> (sections: &Vec<(usize, LoadedSection)>)
        ensures
            section_infos(sections@) == self@.sections,
    {
        &self.sections
    }

    /// The pages that hold the code of the crate.
    pub fn text_pages(&self) -> (pages: &MappedPages)
        ensures
            pages@ == self@.pages.text,
    {
        &self.text_pages
    }

    /// The pages that hold the constants of the crate.
    pub fn rodata_pages(&self) -> (pages: &MappedPages)
        ensures
            pages@ == self@.pages.rodata,
    {
        &self.rodata_pages
    }

    /// The pages that hold the writable data of the crate.
    pub fn data_pages(&self) -> (pages: &MappedPages)
        ensures
            pages@ == self@.pages.data,
    {
        &self.data_pages
    }
}

/// Whether `returned` holds the three page ranges `pages`: text, rodata and
/// data, in this order.
pub open spec fn holds_pages(returned: [MappedPages; 3], pages: PageSet) -> bool {
    returned[0]@ == pages.text && returned[1]@ == pages.rodata && returned[2]@ == pages.data
}

/// Whether `result` is what loading the `nano_core` crate ends with when
/// reading its image gave `expected`: either the crate with exactly those
/// sections, or the error together with all three page ranges.
pub open spec fn loaded_as(
    result: Result<LoadedCrate, (ParseError, [MappedPages; 3])>,
    expected: Result<Seq<(usize, SectionInfo)>, ParseError>,
    object_file: ModuleInfo,
    pages: PageSet,
) -> bool {
    match expected {
        Ok(sections) => result is Ok && result.unwrap()@.wf() && result.unwrap()@ == (CrateInfo {
            crate_name: "nano_core"@,
            object_file,
            sections,
            pages,
        }),
        Err(error) => result is Err && result.unwrap_err().0 == error && holds_pages(
            result.unwrap_err().1,
            pages,
        ),
    }
}

/// Hands the pages of a crate back together with the error that ended its
/// construction.
pub fn give_back(error: ParseError, krate: LoadedCrate) -> (failure: (
    ParseError,
    [MappedPages; 3],
))
    ensures
        failure.0 == error,
        holds_pages(failure.1, krate@.pages),
{
    (error, krate.into_pages())
}

/// The section that a symbol of the given properties becomes within
/// `pages`, or the error where the pages for its type do not cover it.
pub open spec fn placed_section(
    typ: SectionType,
    name: Seq<char>,
    hash: Option<Seq<char>>,
    virt_addr: usize,
    size: usize,
    pages: PageSet,
) -> Result<SectionInfo, ParseError> {
    match pages.of(typ).offset_of(virt_addr) {
        Some(offset) => Ok(
            SectionInfo {
                typ,
                name,
                hash,
                mapped_pages_offset: offset,
                virt_addr,
                size,
                global: true,
            },
        ),
        None => Err(ParseError::NotCovered(typ)),
    }
}

} // verus!
