use kernel_core::binary::{
    find_elf_section_indices, flags_for, parse_nano_core_binary, DemangledSymbol, ElfImage,
    ElfSection, ElfSectionType, ElfSymbol, SymbolBinding, SymbolType, SHF_ALLOC, SHF_EXECINSTR,
    SHF_WRITE,
};
use kernel_core::error::{ParseError, SectionType};
use kernel_core::indices::FoundIndices;
use kernel_core::memory::{MappedPages, ModuleArea};
use kernel_core::metadata::LoadedCrate;

fn section(typ: ElfSectionType, name: &str, flags: u64, size: usize) -> ElfSection {
    ElfSection { typ, name: Some(String::from(name)), flags, size }
}

/// The section headers of an object with `.text` at index 3.
fn sections() -> Vec<ElfSection> {
    vec![
        ElfSection { typ: ElfSectionType::Other, name: None, flags: 0, size: 0 },
        section(ElfSectionType::ProgBits, ".init", SHF_ALLOC | SHF_EXECINSTR, 0x100),
        section(ElfSectionType::Other, ".note", SHF_ALLOC, 0x20),
        section(ElfSectionType::ProgBits, ".text", SHF_ALLOC | SHF_EXECINSTR, 0x1000),
        section(ElfSectionType::ProgBits, ".rodata", SHF_ALLOC, 0x1000),
        section(ElfSectionType::ProgBits, ".data", SHF_ALLOC | SHF_WRITE, 0x1000),
        section(ElfSectionType::NoBits, ".bss", SHF_ALLOC | SHF_WRITE, 0x1000),
        section(ElfSectionType::SymTab, ".symtab", 0, 0x300),
        section(ElfSectionType::Other, ".strtab", 0, 0x100),
    ]
}

fn symbol(
    binding: SymbolBinding,
    typ: SymbolType,
    value: usize,
    size: usize,
    shndx: usize,
    name: &str,
    hash: Option<&str>,
) -> ElfSymbol {
    ElfSymbol {
        binding,
        typ,
        value,
        size,
        shndx,
        name: Some(DemangledSymbol {
            no_hash: String::from(name),
            hash: hash.map(String::from),
        }),
    }
}

fn global_func(value: usize, size: usize, shndx: usize, name: &str) -> ElfSymbol {
    symbol(SymbolBinding::Global, SymbolType::Func, value, size, shndx, name, None)
}

fn text_pages() -> MappedPages {
    MappedPages::new(0x800, 0x1800)
}

fn rodata_pages() -> MappedPages {
    MappedPages::new(0x10000, 0x1000)
}

fn data_pages() -> MappedPages {
    MappedPages::new(0x20000, 0x2000)
}

fn parse(image: &ElfImage) -> Result<LoadedCrate, (ParseError, [MappedPages; 3])> {
    let module = ModuleArea::new(0x40_0000, 0x5000, String::from("k#nano_core"));
    parse_nano_core_binary(image, module, text_pages(), rodata_pages(), data_pages())
}

fn expect_error(image: &ElfImage, expected: ParseError) {
    let (error, pages) = parse(image).unwrap_err();
    assert_eq!(error, expected);
    assert_eq!(pages[0], text_pages());
    assert_eq!(pages[1], rodata_pages());
    assert_eq!(pages[2], data_pages());
}

#[test]
fn one_global_in_text_of_an_object_yields_one_text_section() {
    let image = ElfImage {
        sections: sections(),
        symbol_table: Some(vec![global_func(0x1000, 0x40, 3, "foo")]),
    };
    let krate = parse(&image).unwrap();
    assert_eq!(krate.crate_name(), "nano_core");
    assert_eq!(krate.sections().len(), 1);
    let (id, section) = &krate.sections()[0];
    assert_eq!(*id, 0);
    assert_eq!(section.typ(), SectionType::Text);
    assert_eq!(section.name(), "foo");
    assert_eq!(*section.hash(), None);
    assert_eq!(section.virt_addr(), 0x1000);
    assert_eq!(section.size(), 0x40);
    assert_eq!(section.mapped_pages_offset(), 0x1000 - 0x800);
    assert_eq!(section.mapped_pages_offset(), 0x1000 - krate.text_pages().start_address());
    assert!(section.global());
    assert_eq!(krate.object_file().name(), "k#nano_core");
}

#[test]
fn stripped_object_fails_with_no_symbol_table() {
    let mut stripped = sections();
    stripped.remove(7);
    let image = ElfImage { sections: stripped, symbol_table: None };
    expect_error(&image, ParseError::NoSymbolTable);
    assert!(ParseError::NoSymbolTable.message().contains("no symbol table"));
    assert_eq!(
        ParseError::NoSymbolTable.message(),
        "cannot load nano_core: no symbol table found. Was file stripped?"
    );
}

#[test]
fn missing_symbol_table_is_reported_before_wrong_flags() {
    let mut wrong = sections();
    wrong[3].flags = SHF_ALLOC;
    let image = ElfImage { sections: wrong, symbol_table: None };
    expect_error(&image, ParseError::NoSymbolTable);
}

#[test]
fn text_without_execinstr_fails_with_wrong_flags() {
    let mut wrong = sections();
    wrong[3].flags = SHF_ALLOC;
    let image = ElfImage { sections: wrong, symbol_table: Some(vec![]) };
    expect_error(&image, ParseError::WrongSectionFlags(SectionType::Text));
    assert!(ParseError::WrongSectionFlags(SectionType::Text).message().contains("wrong flags"));
    assert_eq!(
        ParseError::WrongSectionFlags(SectionType::Text).message(),
        ".text section had wrong flags!"
    );
}

#[test]
fn each_section_needs_exactly_its_flags() {
    let cases = [
        (3usize, SectionType::Text, SHF_ALLOC | SHF_EXECINSTR | SHF_WRITE, ".text section had wrong flags!"),
        (4, SectionType::Rodata, SHF_ALLOC | SHF_WRITE, ".rodata section had wrong flags!"),
        (5, SectionType::Data, SHF_ALLOC, ".data section had wrong flags!"),
        (6, SectionType::Bss, SHF_WRITE, ".bss section had wrong flags!"),
        (4, SectionType::Rodata, SHF_ALLOC | 0x10, ".rodata section had wrong flags!"),
    ];
    for (index, typ, flags, message) in cases.iter() {
        let mut wrong = sections();
        wrong[*index].flags = *flags;
        let image = ElfImage { sections: wrong, symbol_table: Some(vec![]) };
        expect_error(&image, ParseError::WrongSectionFlags(*typ));
        assert_eq!(ParseError::WrongSectionFlags(*typ).message(), *message);
    }
    assert_eq!(flags_for(SectionType::Text), SHF_ALLOC | SHF_EXECINSTR);
    assert_eq!(flags_for(SectionType::Rodata), SHF_ALLOC);
    assert_eq!(flags_for(SectionType::Data), SHF_ALLOC | SHF_WRITE);
    assert_eq!(flags_for(SectionType::Bss), SHF_ALLOC | SHF_WRITE);
}

#[test]
fn first_wrong_section_in_the_order_of_the_headers_is_reported() {
    let mut wrong = sections();
    wrong[4].flags = 0;
    wrong[6].flags = 0;
    let image = ElfImage { sections: wrong, symbol_table: Some(vec![]) };
    expect_error(&image, ParseError::WrongSectionFlags(SectionType::Rodata));
}

#[test]
fn missing_sections_are_reported_in_order() {
    let cases = [
        (3usize, SectionType::Text, "couldn't find .text section in nano_core ELF"),
        (4, SectionType::Rodata, "couldn't find .rodata section in nano_core ELF"),
        (5, SectionType::Data, "couldn't find .data section in nano_core ELF"),
        (6, SectionType::Bss, "couldn't find .bss section in nano_core ELF"),
    ];
    for (index, typ, message) in cases.iter() {
        let mut headers = sections();
        headers[*index].name = Some(String::from(".other"));
        let image = ElfImage { sections: headers, symbol_table: Some(vec![]) };
        expect_error(&image, ParseError::SectionNotFound(*typ));
        assert_eq!(ParseError::SectionNotFound(*typ).message(), *message);
    }
    let image = ElfImage { sections: vec![], symbol_table: Some(vec![]) };
    expect_error(&image, ParseError::SectionNotFound(SectionType::Text));
}

#[test]
fn empty_and_unnamed_sections_are_passed_over() {
    let mut headers = sections();
    // an empty `.text` with the wrong flags is no error: it is not looked at
    headers.insert(1, section(ElfSectionType::ProgBits, ".text", 0, 0));
    // neither is a section whose name could not be read
    headers.insert(
        1,
        ElfSection { typ: ElfSectionType::ProgBits, name: None, flags: 0, size: 8 },
    );
    // nor a `.bss` that is not of the type for it
    headers.insert(1, section(ElfSectionType::ProgBits, ".bss", 0, 8));
    headers.insert(1, section(ElfSectionType::NoBits, ".text", 0, 8));
    let found = find_elf_section_indices(&headers).unwrap();
    assert_eq!(
        found,
        FoundIndices { text: Some(7), rodata: Some(8), data: Some(9), bss: Some(10) }
    );
}

#[test]
fn a_later_section_of_the_same_name_replaces_an_earlier_one() {
    let mut headers = sections();
    headers.push(section(ElfSectionType::ProgBits, ".text", SHF_ALLOC | SHF_EXECINSTR, 4));
    let found = find_elf_section_indices(&headers).unwrap();
    assert_eq!(found.text, Some(9));
    assert_eq!(found.rodata, Some(4));
    assert_eq!(found.data, Some(5));
    assert_eq!(found.bss, Some(6));
}

#[test]
fn only_global_functions_and_objects_are_admitted() {
    let bindings = [
        SymbolBinding::Local,
        SymbolBinding::Global,
        SymbolBinding::Weak,
        SymbolBinding::Other,
    ];
    let types = [
        SymbolType::NoType,
        SymbolType::Object,
        SymbolType::Func,
        SymbolType::Section,
        SymbolType::File,
        SymbolType::Common,
        SymbolType::Tls,
        SymbolType::Other,
    ];
    let mut symbols = Vec::new();
    for binding in bindings.iter() {
        for typ in types.iter() {
            let name = format!("{:?}_{:?}", binding, typ);
            let entry = symbol(*binding, *typ, 0x1000, 8, 3, &name, None);
            assert_eq!(
                entry.is_admitted(),
                *binding == SymbolBinding::Global
                    && (*typ == SymbolType::Func || *typ == SymbolType::Object)
            );
            symbols.push(entry);
        }
    }
    let image = ElfImage { sections: sections(), symbol_table: Some(symbols) };
    let krate = parse(&image).unwrap();
    assert_eq!(krate.sections().len(), 2);
    assert_eq!(krate.sections()[0].0, 0);
    assert_eq!(krate.sections()[0].1.name(), "Global_Object");
    assert_eq!(krate.sections()[1].0, 1);
    assert_eq!(krate.sections()[1].1.name(), "Global_Func");
}

#[test]
fn symbols_of_all_four_kinds_get_consecutive_ids() {
    let symbols = vec![
        global_func(0x1000, 0x40, 3, "f"),
        // of a section that is none of the four: no section, no id
        global_func(0x100000, 0x40, 1, "start"),
        symbol(SymbolBinding::Global, SymbolType::Object, 0x10010, 4, 4, "r", Some("h17")),
        symbol(SymbolBinding::Local, SymbolType::Object, 0x10020, 4, 4, "private", None),
        symbol(SymbolBinding::Global, SymbolType::Object, 0x20020, 8, 5, "d", None),
        symbol(SymbolBinding::Global, SymbolType::Object, 0x21000, 16, 6, "b", None),
        // absolute symbols belong to no section
        global_func(0x1000, 0, 0xfff1, "abs"),
    ];
    let image = ElfImage { sections: sections(), symbol_table: Some(symbols) };
    let krate = parse(&image).unwrap();
    let sections = krate.sections();
    assert_eq!(sections.len(), 4);
    let expected = [
        (SectionType::Text, "f", None, 0x800usize, 0x1000usize, 0x40usize),
        (SectionType::Rodata, "r", Some("h17"), 0x10, 0x10010, 4),
        (SectionType::Data, "d", None, 0x20, 0x20020, 8),
        (SectionType::Bss, "b", None, 0x1000, 0x21000, 16),
    ];
    for (i, (typ, name, hash, offset, addr, size)) in expected.iter().enumerate() {
        assert_eq!(sections[i].0, i);
        assert_eq!(sections[i].1.typ(), *typ);
        assert_eq!(sections[i].1.name(), name);
        assert_eq!(sections[i].1.hash().as_deref(), *hash);
        assert_eq!(sections[i].1.mapped_pages_offset(), *offset);
        assert_eq!(sections[i].1.virt_addr(), *addr);
        assert_eq!(sections[i].1.size(), *size);
        assert!(sections[i].1.global());
    }
}

#[test]
fn symbol_of_an_object_outside_its_pages_fails() {
    let image = ElfImage {
        sections: sections(),
        symbol_table: Some(vec![
            global_func(0x1000, 0x40, 3, "inside"),
            global_func(0x2000, 0x40, 3, "outside"),
        ]),
    };
    expect_error(&image, ParseError::NotCovered(SectionType::Text));
    let image = ElfImage {
        sections: sections(),
        symbol_table: Some(vec![symbol(
            SymbolBinding::Global,
            SymbolType::Object,
            0x1f000,
            8,
            6,
            "b",
            None,
        )]),
    };
    expect_error(&image, ParseError::NotCovered(SectionType::Bss));
}

#[test]
fn admitted_symbol_without_a_name_fails() {
    let mut unnamed = global_func(0x1000, 0x40, 3, "");
    unnamed.name = None;
    let image = ElfImage { sections: sections(), symbol_table: Some(vec![unnamed]) };
    expect_error(&image, ParseError::UnreadableSymbolName);
    // a symbol that is not admitted needs no name
    let mut local = symbol(SymbolBinding::Local, SymbolType::Func, 0x1000, 0x40, 3, "", None);
    local.name = None;
    let image = ElfImage { sections: sections(), symbol_table: Some(vec![local]) };
    assert_eq!(parse(&image).unwrap().sections().len(), 0);
}
