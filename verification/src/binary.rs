//! The `nano_core` image as an ELF object.
//!
//! The object itself is read elsewhere. What this module works on is a plain
//! description of it: its section headers and the entries of its symbol
//! table. From these it builds the metadata of the crate.

use vstd::prelude::*;
use crate::error::{ParseError, SectionType};
use crate::indices::{FoundIndices, SectionIndices};
use crate::memory::{MappedPages, ModuleArea};
use crate::metadata::{
    give_back,
    loaded_as,
    optional_text,
    placed_section,
    LoadedCrate,
    PageSet,
    SectionInfo,
};

verus! {

/// The section holds data that the program may write.
pub const SHF_WRITE: u64 = 0x1;

/// The section takes up memory while the program runs.
pub const SHF_ALLOC: u64 = 0x2;

/// The section holds machine instructions.
pub const SHF_EXECINSTR: u64 = 0x4;

/// The flags that a section of the given type must have, no more and no
/// less.
pub open spec fn expected_flags(typ: SectionType) -> u64 {
    match typ {
        SectionType::Text => 0x6,
        SectionType::Rodata => 0x2,
        SectionType::Data => 0x3,
        SectionType::Bss => 0x3,
    }
}

/// The types of section header that matter here.
#[derive(Clone, Copy, Debug, PartialEq, Eq, Structural)]
pub enum ElfSectionType {
    /// The section holds what the program defines.
    ProgBits,
    /// The section takes up no space in the file.
    NoBits,
    /// The section is a symbol table.
    SymTab,
    /// Any other type, or none that could be made out.
    Other,
}

/// What a section header looks like in the abstract.
pub struct ElfSectionInfo {
    pub typ: ElfSectionType,
    pub name: Option<Seq<char>>,
    pub flags: u64,
    pub size: usize,
}

/// One section header of the object.
#[derive(Debug)]
pub struct ElfSection {
    pub typ: ElfSectionType,
    /// The name of the section, where it could be read.
    pub name: Option<String>,
    pub flags: u64,
    pub size: usize,
}

impl View for ElfSection {
    type V = ElfSectionInfo;

    open spec fn view(&self) -> ElfSectionInfo {
        ElfSectionInfo {
            typ: self.typ,
            name: optional_text(self.name),
            flags: self.flags,
            size: self.size,
        }
    }
}

/// How a symbol is bound.
#[derive(Clone, Copy, Debug, PartialEq, Eq, Structural)]
pub enum SymbolBinding {
    Local,
    Global,
    Weak,
    /// Any other binding, or none that could be made out.
    Other,
}

/// What a symbol stands for.
#[derive(Clone, Copy, Debug, PartialEq, Eq, Structural)]
pub enum SymbolType {
    NoType,
    Object,
    Func,
    Section,
    File,
    Common,
    Tls,
    /// Any other type, or none that could be made out.
    Other,
}

/// What a demangled symbol name looks like in the abstract.
pub struct DemangledInfo {
    pub no_hash: Seq<char>,
    pub hash: Option<Seq<char>>,
}

/// A symbol name after demangling: the name proper and the hash that may
/// have followed it.
#[derive(Debug)]
pub struct DemangledSymbol {
    pub no_hash: String,
    pub hash: Option<String>,
}

impl View for DemangledSymbol {
    type V = DemangledInfo;

    open spec fn view(&self) -> DemangledInfo {
        DemangledInfo { no_hash: self.no_hash@, hash: optional_text(self.hash) }
    }
}

/// What an entry of the symbol table looks like in the abstract.
pub struct ElfSymbolInfo {
    pub binding: SymbolBinding,
    pub typ: SymbolType,
    pub value: usize,
    pub size: usize,
    pub shndx: usize,
    pub name: Option<DemangledInfo>,
}

impl ElfSymbolInfo {
    /// Whether the entry is looked at: it is global and stands for a
    /// function or an object.
    pub open spec fn admitted(self) -> bool {
        self.binding == SymbolBinding::Global && (self.typ == SymbolType::Func || self.typ
            == SymbolType::Object)
    }
}

/// One entry of the symbol table of the object.
#[derive(Debug)]
pub struct ElfSymbol {
    pub binding: SymbolBinding,
    pub typ: SymbolType,
    pub value: usize,
    pub size: usize,
    /// The index of the section that the symbol lies in.
    pub shndx: usize,
    /// The demangled name of the symbol, where it could be read.
    pub name: Option<DemangledSymbol>,
}

impl View for ElfSymbol {
    type V = ElfSymbolInfo;

    open spec fn view(&self) -> ElfSymbolInfo {
        ElfSymbolInfo {
            binding: self.binding,
            typ: self.typ,
            value: self.value,
            size: self.size,
            shndx: self.shndx,
            name: match self.name {
                Some(name) => Some(name@),
                None => None,
            },
        }
    }
}

impl ElfSymbol {
    /// Whether the entry is looked at: it is global and stands for a
    /// function or an object.
    pub fn is_admitted(&self) -> (admitted: bool)
        ensures
            admitted == self@.admitted(),
    {
        self.binding == SymbolBinding::Global && (self.typ == SymbolType::Func || self.typ
            == SymbolType::Object)
    }
}

/// What an object looks like in the abstract.
pub struct ElfImageInfo {
    pub sections: Seq<ElfSectionInfo>,
    pub symbol_table: Option<Seq<ElfSymbolInfo>>,
}

/// The views of section headers.
pub open spec fn section_views(sections: Seq<ElfSection>) -> Seq<ElfSectionInfo> {
    Seq::new(sections.len(), |i: int| sections[i]@)
}

/// The views of symbol table entries.
pub open spec fn symbol_views(symbols: Seq<ElfSymbol>) -> Seq<ElfSymbolInfo> {
    Seq::new(symbols.len(), |i: int| symbols[i]@)
}

/// A description of an ELF object.
#[derive(Debug)]
pub struct ElfImage {
    /// The section headers, in the order of their indices.
    pub sections: Vec<ElfSection>,
    /// The entries of the symbol table, or `None` where the object has no
    /// section that is a symbol table of 64-bit entries.
    pub symbol_table: Option<Vec<ElfSymbol>>,
}

impl View for ElfImage {
    type V = ElfImageInfo;

    open spec fn view(&self) -> ElfImageInfo {
        ElfImageInfo {
            sections: section_views(self.sections@),
            symbol_table: match self.symbol_table {
                Some(symbols) => Some(symbol_views(symbols@)),
                None => None,
            },
        }
    }
}

/// Which of the four sections a section header stands for, if any: a
/// section with content that is named `.text`, `.data` or `.rodata` and
/// holds program data, or one that is named `.bss` and takes up no space in
/// the file.
pub open spec fn section_role(section: ElfSectionInfo) -> Option<SectionType> {
    if section.size == 0 {
        None
    } else if section.typ == ElfSectionType::ProgBits {
        if section.name == Some(".text"@) {
            Some(SectionType::Text)
        } else if section.name == Some(".data"@) {
            Some(SectionType::Data)
        } else if section.name == Some(".rodata"@) {
            Some(SectionType::Rodata)
        } else {
            None
        }
    } else if section.typ == ElfSectionType::NoBits {
        if section.name == Some(".bss"@) {
            Some(SectionType::Bss)
        } else {
            None
        }
    } else {
        None
    }
}

/// What is known of the four indices once the section headers from `from`
/// on have been read, starting from `found`. A header that stands for one
/// of the four sections but has other flags than expected ends the reading.
pub open spec fn elf_indices_from(
    sections: Seq<ElfSectionInfo>,
    from: int,
    found: FoundIndices,
) -> Result<FoundIndices, ParseError>
    decreases sections.len() - from,
{
    if 0 <= from < sections.len() {
        match section_role(sections[from]) {
            None => elf_indices_from(sections, from + 1, found),
            Some(typ) => if sections[from].flags == expected_flags(typ) {
                elf_indices_from(sections, from + 1, found.with(typ, from as usize))
            } else {
                Err(ParseError::WrongSectionFlags(typ))
            },
        }
    } else {
        Ok(found)
    }
}

/// The sections that the entries of the symbol table from `from` on add to
/// `sections`. Each new section takes the number of sections before it as
/// its id.
pub open spec fn elf_sections_from(
    symbols: Seq<ElfSymbolInfo>,
    from: int,
    indices: SectionIndices,
    pages: PageSet,
    sections: Seq<(usize, SectionInfo)>,
) -> Result<Seq<(usize, SectionInfo)>, ParseError>
    decreases symbols.len() - from,
{
    if 0 <= from < symbols.len() {
        let symbol = symbols[from];
        if !symbol.admitted() {
            elf_sections_from(symbols, from + 1, indices, pages, sections)
        } else {
            match symbol.name {
                None => Err(ParseError::UnreadableSymbolName),
                Some(name) => match indices.type_of(symbol.shndx) {
                    None => elf_sections_from(symbols, from + 1, indices, pages, sections),
                    Some(typ) => match placed_section(
                        typ,
                        name.no_hash,
                        name.hash,
                        symbol.value,
                        symbol.size,
                        pages,
                    ) {
                        Ok(section) => elf_sections_from(
                            symbols,
                            from + 1,
                            indices,
                            pages,
                            sections.push((sections.len() as usize, section)),
                        ),
                        Err(error) => Err(error),
                    },
                },
            }
        }
    } else {
        Ok(sections)
    }
}

/// The sections that the object `image` describes within `pages`.
pub open spec fn parsed_binary(image: ElfImageInfo, pages: PageSet) -> Result<
    Seq<(usize, SectionInfo)>,
    ParseError,
> {
    match image.symbol_table {
        None => Err(ParseError::NoSymbolTable),
        Some(symbols) => match elf_indices_from(image.sections, 0, FoundIndices::none()) {
            Err(error) => Err(error),
            Ok(found) => match found.first_missing() {
                Some(typ) => Err(ParseError::SectionNotFound(typ)),
                None => elf_sections_from(symbols, 0, found.indices(), pages, Seq::empty()),
            },
        },
    }
}

/// Whether a section header stands for one of the four sections but has
/// other flags than that section must have.
pub open spec fn has_wrong_flags(section: ElfSectionInfo) -> bool {
    section_role(section) is Some && section.flags != expected_flags(
        section_role(section).unwrap(),
    )
}

/// The error that an entry of the symbol table ends the reading with, if it
/// does: it is admitted, and its name could not be read or its address lies
/// outside the pages for its section.
pub open spec fn symbol_error(
    symbol: ElfSymbolInfo,
    indices: SectionIndices,
    pages: PageSet,
) -> Option<ParseError> {
    if !symbol.admitted() {
        None
    } else if symbol.name is None {
        Some(ParseError::UnreadableSymbolName)
    } else {
        match indices.type_of(symbol.shndx) {
            None => None,
            Some(typ) => match placed_section(
                typ,
                symbol.name.unwrap().no_hash,
                symbol.name.unwrap().hash,
                symbol.value,
                symbol.size,
                pages,
            ) {
                Ok(_) => None,
                Err(error) => Some(error),
            },
        }
    }
}

/// The section that an entry of the symbol table becomes, if it becomes one.
pub open spec fn symbol_section(
    symbol: ElfSymbolInfo,
    indices: SectionIndices,
    pages: PageSet,
) -> Option<SectionInfo> {
    if symbol.admitted() && symbol.name is Some && indices.type_of(symbol.shndx) is Some {
        match placed_section(
            indices.type_of(symbol.shndx).unwrap(),
            symbol.name.unwrap().no_hash,
            symbol.name.unwrap().hash,
            symbol.value,
            symbol.size,
            pages,
        ) {
            Ok(section) => Some(section),
            Err(_) => None,
        }
    } else {
        None
    }
}

/// An object without a symbol table fails as stripped, whatever its
/// sections are.
pub proof fn lemma_stripped_object_fails(image: ElfImageInfo, pages: PageSet)
    requires
        image.symbol_table is None,
    ensures
        parsed_binary(image, pages) == Err::<Seq<(usize, SectionInfo)>, ParseError>(
            ParseError::NoSymbolTable,
        ),
{
}

/// Flags without `SHF_EXECINSTR` are not those of the text section.
pub proof fn lemma_text_needs_execinstr(flags: u64)
    requires
        flags & SHF_EXECINSTR == 0,
    ensures
        flags != expected_flags(SectionType::Text),
{
    assert(flags & 0x4 == 0 ==> flags != 0x6) by (bit_vector);
}

/// The first section header with wrong flags decides the outcome: where the
/// headers from `from` up to `sections[k]` are in order and `sections[k]` is
/// not, reading the headers fails and names the section that `sections[k]`
/// stands for.
pub proof fn lemma_first_wrong_flags_decide(
    sections: Seq<ElfSectionInfo>,
    k: int,
    from: int,
    found: FoundIndices,
)
    requires
        0 <= from <= k < sections.len(),
        forall|j: int| from <= j < k ==> !has_wrong_flags(#[trigger] sections[j]),
        has_wrong_flags(sections[k]),
    ensures
        elf_indices_from(sections, from, found) == Err::<FoundIndices, ParseError>(
            ParseError::WrongSectionFlags(section_role(sections[k]).unwrap()),
        ),
    decreases k - from,
{
    if from < k {
        assert(!has_wrong_flags(sections[from]));
        match section_role(sections[from]) {
            None => {
                lemma_first_wrong_flags_decide(sections, k, from + 1, found);
            },
            Some(typ) => {
                lemma_first_wrong_flags_decide(
                    sections,
                    k,
                    from + 1,
                    found.with(typ, from as usize),
                );
            },
        }
    }
}

/// An object with a symbol table in which a section header has wrong flags
/// fails, and the error names the first such section.
pub proof fn lemma_object_with_wrong_flags_fails(image: ElfImageInfo, k: int, pages: PageSet)
    requires
        image.symbol_table is Some,
        0 <= k < image.sections.len(),
        forall|j: int| 0 <= j < k ==> !has_wrong_flags(#[trigger] image.sections[j]),
        has_wrong_flags(image.sections[k]),
    ensures
        parsed_binary(image, pages) == Err::<Seq<(usize, SectionInfo)>, ParseError>(
            ParseError::WrongSectionFlags(section_role(image.sections[k]).unwrap()),
        ),
{
    lemma_first_wrong_flags_decide(image.sections, k, 0, FoundIndices::none());
}

/// The first entry of the symbol table that is in error decides the
/// outcome: where the entries from `from` up to `symbols[k]` are in order and
/// `symbols[k]` is not, the table as a whole fails with the error of
/// `symbols[k]`.
pub proof fn lemma_first_symbol_in_error_decides(
    symbols: Seq<ElfSymbolInfo>,
    k: int,
    from: int,
    indices: SectionIndices,
    pages: PageSet,
    sections: Seq<(usize, SectionInfo)>,
)
    requires
        0 <= from <= k < symbols.len(),
        forall|j: int| from <= j < k ==> symbol_error(#[trigger] symbols[j], indices, pages) is None,
        symbol_error(symbols[k], indices, pages) is Some,
    ensures
        elf_sections_from(symbols, from, indices, pages, sections) == Err::<
            Seq<(usize, SectionInfo)>,
            ParseError,
        >(symbol_error(symbols[k], indices, pages).unwrap()),
    decreases k - from,
{
    if from < k {
        assert(symbol_error(symbols[from], indices, pages) is None);
        match symbol_section(symbols[from], indices, pages) {
            None => {
                lemma_first_symbol_in_error_decides(symbols, k, from + 1, indices, pages, sections);
            },
            Some(section) => {
                lemma_first_symbol_in_error_decides(
                    symbols,
                    k,
                    from + 1,
                    indices,
                    pages,
                    sections.push((sections.len() as usize, section)),
                );
            },
        }
    }
}

/// A symbol table whose entries from `from` on are all global functions or
/// objects of the four sections, each with a name and within its pages,
/// yields one section for each entry, in the order of the entries and with
/// consecutive ids.
pub proof fn lemma_every_symbol_becomes_a_section(
    symbols: Seq<ElfSymbolInfo>,
    from: int,
    indices: SectionIndices,
    pages: PageSet,
    sections: Seq<(usize, SectionInfo)>,
)
    requires
        0 <= from <= symbols.len(),
        forall|i: int|
            from <= i < symbols.len() ==> symbol_section(#[trigger] symbols[i], indices, pages)
                is Some,
    ensures
        elf_sections_from(symbols, from, indices, pages, sections) == Ok::<
            Seq<(usize, SectionInfo)>,
            ParseError,
        >(
            sections + Seq::new(
                (symbols.len() - from) as nat,
                |i: int|
                    (
                        (sections.len() + i) as usize,
                        symbol_section(symbols[from + i], indices, pages).unwrap(),
                    ),
            ),
        ),
    decreases symbols.len() - from,
{
    let added = Seq::new(
        (symbols.len() - from) as nat,
        |i: int|
            (
                (sections.len() + i) as usize,
                symbol_section(symbols[from + i], indices, pages).unwrap(),
            ),
    );
    if from == symbols.len() {
        assert(sections + added =~= sections);
    } else {
        assert(symbol_section(symbols[from], indices, pages) is Some);
        let first = (
            sections.len() as usize,
            symbol_section(symbols[from], indices, pages).unwrap(),
        );
        let longer = sections.push(first);
        lemma_every_symbol_becomes_a_section(symbols, from + 1, indices, pages, longer);
        let more = Seq::new(
            (symbols.len() - from - 1) as nat,
            |i: int|
                (
                    (longer.len() + i) as usize,
                    symbol_section(symbols[from + 1 + i], indices, pages).unwrap(),
                ),
        );
        assert(longer + more =~= sections + added);
    }
}

/// Reading the symbol table of an object only ever adds sections, and every
/// section that it adds is global.
pub proof fn lemma_object_sections_are_global(
    symbols: Seq<ElfSymbolInfo>,
    from: int,
    indices: SectionIndices,
    pages: PageSet,
    sections: Seq<(usize, SectionInfo)>,
)
    requires
        0 <= from <= symbols.len(),
        elf_sections_from(symbols, from, indices, pages, sections) is Ok,
    ensures
        ({
            let all = elf_sections_from(symbols, from, indices, pages, sections).unwrap();
            &&& sections.len() <= all.len()
            &&& all.subrange(0, sections.len() as int) == sections
            &&& forall|i: int| sections.len() <= i < all.len() ==> (#[trigger] all[i]).1.global
        }),
    decreases symbols.len() - from,
{
    let all = elf_sections_from(symbols, from, indices, pages, sections).unwrap();
    if from == symbols.len() {
        assert(all.subrange(0, sections.len() as int) =~= sections);
    } else {
        match symbol_section(symbols[from], indices, pages) {
            None => {
                lemma_object_sections_are_global(symbols, from + 1, indices, pages, sections);
            },
            Some(section) => {
                let longer = sections.push((sections.len() as usize, section));
                lemma_object_sections_are_global(symbols, from + 1, indices, pages, longer);
                assert(all.subrange(0, sections.len() as int) =~= all.subrange(
                    0,
                    longer.len() as int,
                ).subrange(0, sections.len() as int));
                assert(longer.subrange(0, sections.len() as int) =~= sections);
                assert(all[sections.len() as int] == all.subrange(
                    0,
                    longer.len() as int,
                )[sections.len() as int]);
            },
        }
    }
}

/// The names of the four sections.
struct SectionNames {
    text: String,
    data: String,
    rodata: String,
    bss: String,
}

impl SectionNames {
    spec fn wf(&self) -> bool {
        &&& self.text@ == ".text"@
        &&& self.data@ == ".data"@
        &&& self.rodata@ == ".rodata"@
        &&& self.bss@ == ".bss"@
    }

    fn new() -> (names: Self)
        ensures
            names.wf(),
    {
        SectionNames {
            text: ".text".to_owned(),
            data: ".data".to_owned(),
            rodata: ".rodata".to_owned(),
            bss: ".bss".to_owned(),
        }
    }
}

/// The flags that a section of the given type must have.
pub fn flags_for(typ: SectionType) -> (flags: u64)
    ensures
        flags == expected_flags(typ),
{
    match typ {
        SectionType::Text => 0x6,
        SectionType::Rodata => 0x2,
        SectionType::Data => 0x3,
        SectionType::Bss => 0x3,
    }
}

/// Which of the four sections a section header stands for, if any.
fn role_of(section: &ElfSection, names: &SectionNames) -> (role: Option<SectionType>)
    requires
        names.wf(),
    ensures
        role == section_role(section@),
{
    if section.size == 0 {
        return None;
    }
    let name = match &section.name {
        Some(name) => name,
        None => {
            return None;
        },
    };
    match section.typ {
        ElfSectionType::ProgBits => {
            if *name == names.text {
                Some(SectionType::Text)
            } else if *name == names.data {
                Some(SectionType::Data)
            } else if *name == names.rodata {
                Some(SectionType::Rodata)
            } else {
                None
            }
        },
        ElfSectionType::NoBits => {
            if *name == names.bss {
                Some(SectionType::Bss)
            } else {
                None
            }
        },
        _ => None,
    }
}

/// Finds the indices of the four sections among the section headers.
pub fn find_elf_section_indices(sections: &Vec<ElfSection>) -> (found: Result<
    FoundIndices,
    ParseError,
>)
    ensures
        found == elf_indices_from(section_views(sections@), 0, FoundIndices::none()),
{
    let names = SectionNames::new();
    let mut found = FoundIndices::new();
    let mut shndx: usize = 0;
    while shndx < sections.len()
        invariant
            names.wf(),
            shndx <= sections@.len(),
            elf_indices_from(section_views(sections@), shndx as int, found) == elf_indices_from(
                section_views(sections@),
                0,
                FoundIndices::none(),
            ),
        decreases sections@.len() - shndx,
    {
        assert(section_views(sections@)[shndx as int] == sections@[shndx as int]@);
        match role_of(&sections[shndx], &names) {
            None => {},
            Some(typ) => {
                if sections[shndx].flags != flags_for(typ) {
                    return Err(ParseError::WrongSectionFlags(typ));
                }
                found.set(typ, shndx);
            },
        }
        shndx += 1;
    }
    Ok(found)
}

/// Builds the metadata of the `nano_core` crate from the description of its
/// ELF object.
///
/// Every global function or object of the symbol table that lies in the
/// `.text`, `.rodata`, `.data` or `.bss` section becomes a global section of
/// the crate. On failure the three page ranges come back with the error.
pub fn parse_nano_core_binary(
    image: &ElfImage,
    nano_core_object_file: ModuleArea,
    text_pages: MappedPages,
    rodata_pages: MappedPages,
    data_pages: MappedPages,
) -> (loaded: Result<LoadedCrate, (ParseError, [MappedPages; 3])>)
    ensures
        loaded_as(
            loaded,
            parsed_binary(
                image@,
                PageSet { text: text_pages@, rodata: rodata_pages@, data: data_pages@ },
            ),
            nano_core_object_file@,
            PageSet { text: text_pages@, rodata: rodata_pages@, data: data_pages@ },
        ),
{
    let ghost pages = PageSet { text: text_pages@, rodata: rodata_pages@, data: data_pages@ };
    let ghost object_file = nano_core_object_file@;
    let mut new_crate = LoadedCrate::new(
        "nano_core".to_owned(),
        nano_core_object_file,
        text_pages,
        rodata_pages,
        data_pages,
    );
    let symtab = match &image.symbol_table {
        Some(symtab) => symtab,
        None => {
            return Err(give_back(ParseError::NoSymbolTable, new_crate));
        },
    };
    let found = match find_elf_section_indices(&image.sections) {
        Ok(found) => found,
        Err(error) => {
            return Err(give_back(error, new_crate));
        },
    };
    let indices = match found.finish() {
        Ok(indices) => indices,
        Err(typ) => {
            return Err(give_back(ParseError::SectionNotFound(typ), new_crate));
        },
    };
    let ghost expected = parsed_binary(image@, pages);
    let mut section_counter: usize = 0;
    let mut i: usize = 0;
    while i < symtab.len()
        invariant
            i <= symtab@.len(),
            section_counter <= i,
            section_counter == new_crate@.sections.len(),
            new_crate@.wf(),
            new_crate@.admits_id(section_counter),
            new_crate@.crate_name == "nano_core"@,
            new_crate@.object_file == object_file,
            new_crate@.pages == pages,
            pages == (PageSet { text: text_pages@, rodata: rodata_pages@, data: data_pages@ }),
            object_file == nano_core_object_file@,
            expected == parsed_binary(image@, pages),
            elf_sections_from(symbol_views(symtab@), i as int, indices, pages, new_crate@.sections)
                == expected,
        decreases symtab@.len() - i,
    {
        assert(symbol_views(symtab@)[i as int] == symtab@[i as int]@);
        let entry = &symtab[i];
        if entry.is_admitted() {
            let demangled = match &entry.name {
                Some(demangled) => demangled,
                None => {
                    return Err(give_back(ParseError::UnreadableSymbolName, new_crate));
                },
            };
            match indices.classify(entry.shndx) {
                None => {},
                Some(typ) => {
                    match new_crate.add_section(
                        section_counter,
                        typ,
                        demangled.no_hash.clone(),
                        demangled.hash.clone(),
                        entry.value,
                        entry.size,
                    ) {
                        Ok(()) => {},
                        Err(error) => {
                            return Err(give_back(error, new_crate));
                        },
                    }
                    section_counter += 1;
                },
            }
        }
        i += 1;
    }
    Ok(new_crate)
}

} // verus!
