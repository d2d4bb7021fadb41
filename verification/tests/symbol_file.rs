use kernel_core::error::{Column, ParseError, SectionType};
use kernel_core::indices::{FoundIndices, SectionIndices};
use kernel_core::memory::{MappedPages, ModuleArea};
use kernel_core::metadata::{LoadedCrate, LoadedSection};
use kernel_core::symbol_file::{
    find_section_indices, find_symbol_table, parse_nano_core_symbol_file, read_symbol_file_text,
};
use kernel_core::symbol_line::{parse_symbol_line, SymbolLine};

const HEADERS: &str = "\
There are 9 section headers, starting at offset 0x5000:

Section Headers:
  [Nr] Name              Type             Address           Offset
       Size              EntSize          Flags  Link  Info  Align
  [ 0]                   NULL             0000000000000000  00000000
       0000000000000000  0000000000000000           0     0     0
  [ 1] .init             PROGBITS         0000000000100000  00001000
       0000000000000100  0000000000000000  AX       0     0     16
  [ 3] .text             PROGBITS         0000000000001000  00002000
       0000000000001000  0000000000000000  AX       0     0     16
  [ 4] .rodata           PROGBITS         0000000000010000  00003000
       0000000000001000  0000000000000000   A       0     0     16
  [ 5] .data             PROGBITS         0000000000020000  00004000
       0000000000001000  0000000000000000  WA       0     0     16
  [ 6] .bss              NOBITS           0000000000021000  00005000
       0000000000001000  0000000000000000  WA       0     0     16
Key to Flags:
  W (write), A (alloc), X (execute)

";

const TABLE_HEAD: &str = "\
Symbol table '.symtab' contains 8 entries:
   Num:    Value          Size Type    Bind   Vis      Ndx Name
";

fn chars(s: &str) -> Vec<char> {
    s.chars().collect()
}

/// The bytes of a symbol file with the one byte more that the text ends in.
fn file(entries: &str) -> Vec<u8> {
    let mut bytes = Vec::new();
    bytes.extend_from_slice(HEADERS.as_bytes());
    bytes.extend_from_slice(TABLE_HEAD.as_bytes());
    bytes.extend_from_slice(entries.as_bytes());
    bytes.push(0xAA);
    bytes
}

fn text_pages() -> MappedPages {
    MappedPages::new(0x800, 0x1800)
}

fn rodata_pages() -> MappedPages {
    MappedPages::new(0x10000, 0x1000)
}

fn data_pages() -> MappedPages {
    MappedPages::new(0x20000, 0x2000)
}

fn module() -> ModuleArea {
    ModuleArea::new(0x40_0000, 0x1234, String::from("k#nano_core"))
}

fn parse(bytes: &mut Vec<u8>) -> Result<LoadedCrate, (ParseError, [MappedPages; 3])> {
    assert!(!bytes.is_empty());
    parse_nano_core_symbol_file(bytes, module(), text_pages(), rodata_pages(), data_pages())
}

fn parse_entries(entries: &str) -> Result<LoadedCrate, (ParseError, [MappedPages; 3])> {
    parse(&mut file(entries))
}

fn expect_error(entries: &str, expected: ParseError) {
    let (error, pages) = parse_entries(entries).unwrap_err();
    assert_eq!(error, expected);
    assert_pages_returned(&pages);
}

fn assert_pages_returned(pages: &[MappedPages; 3]) {
    assert_eq!(pages[0], text_pages());
    assert_eq!(pages[1], rodata_pages());
    assert_eq!(pages[2], data_pages());
}

fn indices() -> SectionIndices {
    SectionIndices { text: 3, rodata: 4, data: 5, bss: 6 }
}

fn check_section(
    entry: &(usize, LoadedSection),
    id: usize,
    typ: SectionType,
    name: &str,
    hash: Option<&str>,
    offset: usize,
    virt_addr: usize,
    size: usize,
) {
    assert_eq!(entry.0, id);
    let section = &entry.1;
    assert_eq!(section.typ(), typ);
    assert_eq!(section.name(), name);
    assert_eq!(section.hash().as_deref(), hash);
    assert_eq!(section.mapped_pages_offset(), offset);
    assert_eq!(section.virt_addr(), virt_addr);
    assert_eq!(section.size(), size);
    assert!(section.global());
}

#[test]
fn one_global_in_text_yields_one_text_section() {
    let krate = parse_entries(
        "     1: 0000000000001000  0x40 FUNC    GLOBAL DEFAULT    3 foo\n",
    )
    .unwrap();
    assert_eq!(krate.crate_name(), "nano_core");
    assert_eq!(krate.sections().len(), 1);
    // the text pages start at 0x800
    check_section(
        &krate.sections()[0],
        0,
        SectionType::Text,
        "foo",
        None,
        0x1000 - 0x800,
        0x1000,
        0x40,
    );
    assert_eq!(krate.sections()[0].1.mapped_pages_offset(), 0x1000 - krate.text_pages().start_address());
    assert_eq!(*krate.text_pages(), text_pages());
    assert_eq!(*krate.rodata_pages(), rodata_pages());
    assert_eq!(*krate.data_pages(), data_pages());
    assert_eq!(krate.object_file().start_address(), 0x40_0000);
    assert_eq!(krate.object_file().size(), 0x1234);
    assert_eq!(krate.object_file().name(), "k#nano_core");
}

#[test]
fn last_byte_is_overwritten_with_nul() {
    let mut bytes = file("     1: 0000000000001000    64 FUNC    GLOBAL DEFAULT    3 foo\n");
    let before = bytes.clone();
    let krate = parse(&mut bytes).unwrap();
    assert_eq!(krate.sections().len(), 1);
    assert_eq!(bytes.len(), before.len());
    assert_eq!(bytes[..bytes.len() - 1], before[..before.len() - 1]);
    assert_eq!(*bytes.last().unwrap(), 0);
    assert_eq!(*before.last().unwrap(), 0xAA);
}

#[test]
fn entry_without_final_newline_is_read() {
    let krate =
        parse_entries("     1: 0000000000001000    64 FUNC    GLOBAL DEFAULT    3 foo").unwrap();
    assert_eq!(krate.sections().len(), 1);
    check_section(&krate.sections()[0], 0, SectionType::Text, "foo", None, 0x800, 0x1000, 64);
}

#[test]
fn non_utf8_byte_fails_and_returns_the_pages() {
    let mut bytes = file("     1: 0000000000001000    64 FUNC    GLOBAL DEFAULT    3 foo\n");
    bytes[10] = 0xFF;
    let (error, pages) = parse(&mut bytes).unwrap_err();
    assert_eq!(error, ParseError::InvalidUtf8);
    assert_eq!(error.message(), "Utf8Error occurred when parsing nano_core symbols CStr");
    assert_pages_returned(&pages);
}

#[test]
fn nul_inside_the_text_fails_and_returns_the_pages() {
    let mut bytes = file("     1: 0000000000001000    64 FUNC    GLOBAL DEFAULT    3 foo\n");
    bytes[10] = 0;
    let (error, pages) = parse(&mut bytes).unwrap_err();
    assert_eq!(error, ParseError::InteriorNul);
    assert_eq!(
        error.message(),
        "FromBytesWithNulError occurred when casting nano_core symbol memory to CStr"
    );
    assert_pages_returned(&pages);
}

#[test]
fn text_of_the_file_ends_before_the_nul() {
    let mut bytes = vec![b'a', b'\n', 0xC3, 0xA9, 0x77];
    let text = read_symbol_file_text(&mut bytes).unwrap();
    assert_eq!(text, vec!['a', '\n', 'é']);
    assert_eq!(bytes, vec![b'a', b'\n', 0xC3, 0xA9, 0]);
    let mut only_terminator = vec![0x55];
    assert_eq!(read_symbol_file_text(&mut only_terminator), Ok(vec![]));
    let mut early_nul = vec![b'a', 0, b'b', 0];
    assert_eq!(read_symbol_file_text(&mut early_nul), Err(ParseError::InteriorNul));
    let mut cut_short = vec![b'a', 0xC3, 0xA9];
    assert_eq!(read_symbol_file_text(&mut cut_short), Err(ParseError::InvalidUtf8));
}

#[test]
fn name_with_hash_in_symbol_file() {
    let krate = parse_entries(
        "     1: 0000000000010020    16 OBJECT  GLOBAL DEFAULT    4 foo::bar::baz#abcd1234\n",
    )
    .unwrap();
    assert_eq!(krate.sections().len(), 1);
    check_section(
        &krate.sections()[0],
        0,
        SectionType::Rodata,
        "foo::bar::baz",
        Some("abcd1234"),
        0x20,
        0x10020,
        16,
    );
}

#[test]
fn name_with_spaces_is_kept_whole() {
    let krate = parse_entries(
        "     1: 0000000000001000    64 FUNC    GLOBAL DEFAULT    3 <impl core::fmt::Debug for Foo>::fmt#dead  \n",
    )
    .unwrap();
    check_section(
        &krate.sections()[0],
        0,
        SectionType::Text,
        "<impl core::fmt::Debug for Foo>::fmt",
        Some("dead"),
        0x800,
        0x1000,
        64,
    );
}

#[test]
fn name_with_two_hashes_fails() {
    expect_error(
        "     1: 0000000000001000    64 FUNC    GLOBAL DEFAULT    3 foo#a#b\n",
        ParseError::MultipleHashSeparators,
    );
    assert_eq!(
        ParseError::MultipleHashSeparators.message(),
        "parse_nano_core_symbol_file(): 'Name' column had multiple '#' characters, expected only one '#' as the hash separator!"
    );
}

#[test]
fn symbol_with_abs_index_is_skipped() {
    let krate = parse_entries(
        "     1: 0000000000001000    64 FUNC    GLOBAL DEFAULT  ABS absolute\n     2: 0000000000001040    64 FUNC    GLOBAL DEFAULT    3 foo\n",
    )
    .unwrap();
    assert_eq!(krate.sections().len(), 1);
    // a skipped line takes no id
    check_section(&krate.sections()[0], 0, SectionType::Text, "foo", None, 0x840, 0x1040, 64);
}

#[test]
fn symbol_of_another_section_takes_an_id_but_gives_no_section() {
    let krate = parse_entries(
        "     1: 0000000000100000    64 FUNC    GLOBAL DEFAULT    1 start\n     2: 0000000000001040    64 FUNC    GLOBAL DEFAULT    3 foo\n",
    )
    .unwrap();
    assert_eq!(krate.sections().len(), 1);
    check_section(&krate.sections()[0], 1, SectionType::Text, "foo", None, 0x840, 0x1040, 64);
}

#[test]
fn empty_lines_in_the_table_are_passed_over() {
    let krate = parse_entries(
        "\n     1: 0000000000001000    64 FUNC    GLOBAL DEFAULT    3 foo\n\r\n\n     2: 0000000000020000     8 OBJECT  GLOBAL DEFAULT    5 bar\r\n\n",
    )
    .unwrap();
    assert_eq!(krate.sections().len(), 2);
    check_section(&krate.sections()[0], 0, SectionType::Text, "foo", None, 0x800, 0x1000, 64);
    check_section(&krate.sections()[1], 1, SectionType::Data, "bar", None, 0, 0x20000, 8);
}

#[test]
fn globals_of_all_four_kinds_come_out_with_their_kinds() {
    let mut entries = String::new();
    let mut expected: Vec<(SectionType, String, usize)> = Vec::new();
    let kinds = [
        (SectionType::Text, 3usize, 0x1000usize),
        (SectionType::Rodata, 4, 0x10000),
        (SectionType::Data, 5, 0x20000),
        (SectionType::Bss, 6, 0x21000),
    ];
    let per_kind = [5usize, 3, 4, 2];
    let mut num = 1;
    for round in 0..5 {
        for (k, (typ, ndx, base)) in kinds.iter().enumerate() {
            if round < per_kind[k] {
                let name = format!("sym_{}_{}", ndx, round);
                let addr = base + 0x10 * round;
                entries.push_str(&format!(
                    "{:6}: {:016x} {:5} OBJECT  GLOBAL DEFAULT {:4} {}\n",
                    num, addr, 16, ndx, name
                ));
                expected.push((*typ, name, addr));
                num += 1;
            }
        }
    }
    let krate = parse_entries(&entries).unwrap();
    let sections = krate.sections();
    assert_eq!(sections.len(), 14);
    assert_eq!(sections.len(), expected.len());
    for (i, (typ, name, addr)) in expected.iter().enumerate() {
        assert_eq!(sections[i].0, i);
        assert_eq!(sections[i].1.typ(), *typ);
        assert_eq!(sections[i].1.name(), name);
        assert_eq!(sections[i].1.virt_addr(), *addr);
        assert_eq!(
            sections[i].1.mapped_pages_offset(),
            addr - krate.pages_for(*typ).start_address()
        );
        assert!(sections[i].1.global());
    }
    for (k, (typ, _, _)) in kinds.iter().enumerate() {
        let count = sections.iter().filter(|s| s.1.typ() == *typ).count();
        assert_eq!(count, per_kind[k]);
    }
}

#[test]
fn entries_are_global_whatever_their_binding() {
    let krate = parse_entries(
        "     1: 0000000000001000    64 FUNC    LOCAL  DEFAULT    3 local_fn\n     2: 0000000000001040    64 FUNC    WEAK   HIDDEN     3 weak_fn\n",
    )
    .unwrap();
    assert_eq!(krate.sections().len(), 2);
    assert!(krate.sections()[0].1.global());
    assert!(krate.sections()[1].1.global());
}

#[test]
fn bss_symbols_live_in_the_data_pages() {
    let krate = parse_entries(
        "     1: 0000000000021008     8 OBJECT  GLOBAL DEFAULT    6 counter\n",
    )
    .unwrap();
    check_section(
        &krate.sections()[0],
        0,
        SectionType::Bss,
        "counter",
        None,
        0x1008,
        0x21008,
        8,
    );
    assert_eq!(*krate.pages_for(SectionType::Bss), data_pages());
    assert_eq!(*krate.pages_for(SectionType::Data), data_pages());
    assert_eq!(*krate.pages_for(SectionType::Text), text_pages());
    assert_eq!(*krate.pages_for(SectionType::Rodata), rodata_pages());
}

#[test]
fn symbol_outside_its_pages_fails_and_returns_the_pages() {
    // the text pages cover 0x800 up to 0x2000
    expect_error(
        "     1: 0000000000002000    64 FUNC    GLOBAL DEFAULT    3 beyond\n",
        ParseError::NotCovered(SectionType::Text),
    );
    expect_error(
        "     1: 00000000000007ff    64 FUNC    GLOBAL DEFAULT    3 before\n",
        ParseError::NotCovered(SectionType::Text),
    );
    expect_error(
        "     1: 0000000000001000    64 OBJECT  GLOBAL DEFAULT    4 elsewhere\n",
        ParseError::NotCovered(SectionType::Rodata),
    );
    expect_error(
        "     1: 0000000000001000    64 OBJECT  GLOBAL DEFAULT    5 elsewhere\n",
        ParseError::NotCovered(SectionType::Data),
    );
    expect_error(
        "     1: 0000000000022000    64 OBJECT  GLOBAL DEFAULT    6 elsewhere\n",
        ParseError::NotCovered(SectionType::Bss),
    );
    assert_eq!(
        ParseError::NotCovered(SectionType::Text).message(),
        "nano_core text section wasn't covered by its mapped pages!"
    );
    assert_eq!(
        ParseError::NotCovered(SectionType::Bss).message(),
        "nano_core bss section wasn't covered by its mapped pages!"
    );
}

#[test]
fn first_and_last_address_of_the_pages_are_covered() {
    let krate = parse_entries(
        "     1: 0000000000000800    64 FUNC    GLOBAL DEFAULT    3 first\n     2: 0000000000001fff     1 FUNC    GLOBAL DEFAULT    3 last\n",
    )
    .unwrap();
    assert_eq!(krate.sections()[0].1.mapped_pages_offset(), 0);
    assert_eq!(krate.sections()[1].1.mapped_pages_offset(), 0x17ff);
}

#[test]
fn error_in_a_later_line_wins_over_nothing_before_it() {
    // the second line is malformed; the first would have been fine
    expect_error(
        "     1: 0000000000001000    64 FUNC    GLOBAL DEFAULT    3 foo\n     2: zzzz    64 FUNC    GLOBAL DEFAULT    3 bar\n",
        ParseError::InvalidAddress,
    );
    // the first error in the order of the lines is the one reported
    expect_error(
        "     1: 0000000000009000    64 FUNC    GLOBAL DEFAULT    3 foo\n     2: zzzz    64 FUNC    GLOBAL DEFAULT    3 bar\n",
        ParseError::NotCovered(SectionType::Text),
    );
}

#[test]
fn malformed_entries_fail() {
    expect_error(
        "     1: 0x1000    64 FUNC    GLOBAL DEFAULT    3 foo\n",
        ParseError::InvalidAddress,
    );
    expect_error(
        "     1: 0000000000001000    4g FUNC    GLOBAL DEFAULT    3 foo\n",
        ParseError::InvalidSize,
    );
    // address and size are checked even where the section index is no number
    expect_error(
        "     1: nowhere    64 FUNC    GLOBAL DEFAULT  ABS foo\n",
        ParseError::InvalidAddress,
    );
    expect_error("     1:\n", ParseError::MissingColumn(Column::Value));
    expect_error("   \n", ParseError::MissingColumn(Column::Value));
    expect_error("     1: 1000\n", ParseError::MissingColumn(Column::Size));
    expect_error("     1: 1000 64\n", ParseError::MissingColumn(Column::Type));
    expect_error("     1: 1000 64 FUNC\n", ParseError::MissingColumn(Column::Bind));
    expect_error("     1: 1000 64 FUNC GLOBAL\n", ParseError::MissingColumn(Column::Vis));
    expect_error(
        "     1: 1000 64 FUNC GLOBAL DEFAULT\n",
        ParseError::MissingColumn(Column::Ndx),
    );
    expect_error(
        "     1: 1000 64 FUNC GLOBAL DEFAULT 3\n",
        ParseError::MissingColumn(Column::Name),
    );
    assert_eq!(
        ParseError::MissingColumn(Column::Name).message(),
        "parse_nano_core_symbol_file(): couldn't get column 7 'Name'"
    );
    assert_eq!(
        ParseError::MissingColumn(Column::Num).message(),
        "parse_nano_core_symbol_file(): couldn't get column 0 'Num'"
    );
    assert_eq!(
        ParseError::InvalidAddress.message(),
        "parse_nano_core_symbol_file(): couldn't parse virtual address (value column)"
    );
    assert_eq!(
        ParseError::InvalidSize.message(),
        "parse_nano_core_symbol_file(): couldn't parse size column"
    );
}

#[test]
fn entry_with_empty_name_after_trailing_space_is_read() {
    let krate = parse_entries("     1: 1000 64 FUNC GLOBAL DEFAULT 3 \n").unwrap();
    check_section(&krate.sections()[0], 0, SectionType::Text, "", None, 0x800, 0x1000, 64);
}

#[test]
fn missing_bss_header_line_fails() {
    let headers = HEADERS.replace("NOBITS", "NOTHING");
    let mut bytes = Vec::new();
    bytes.extend_from_slice(headers.as_bytes());
    bytes.extend_from_slice(TABLE_HEAD.as_bytes());
    bytes.extend_from_slice(b"     1: 1000 64 FUNC GLOBAL DEFAULT 3 foo\n");
    bytes.push(0);
    let (error, pages) = parse(&mut bytes).unwrap_err();
    assert_eq!(error, ParseError::SectionIndexNotFound(SectionType::Bss));
    assert!(error.message().ends_with("couldn't find .bss section index"));
    assert_eq!(
        error.message(),
        "parse_nano_core_symbol_file(): couldn't find .bss section index"
    );
    assert_pages_returned(&pages);
}

#[test]
fn missing_section_indices_are_reported_in_order() {
    let mut empty = vec![0u8];
    let (error, pages) = parse(&mut empty).unwrap_err();
    assert_eq!(error, ParseError::SectionIndexNotFound(SectionType::Text));
    assert_pages_returned(&pages);
    let cases = [
        (".text", SectionType::Text, "parse_nano_core_symbol_file(): couldn't find .text section index"),
        (".rodata", SectionType::Rodata, "parse_nano_core_symbol_file(): couldn't find .rodata section index"),
        (".data ", SectionType::Data, "parse_nano_core_symbol_file(): couldn't find .data section index"),
    ];
    for (name, typ, message) in cases.iter() {
        let headers = HEADERS.replace(name, ".gone ");
        let mut bytes = Vec::new();
        bytes.extend_from_slice(headers.as_bytes());
        bytes.extend_from_slice(TABLE_HEAD.as_bytes());
        bytes.push(0);
        let (error, pages) = parse(&mut bytes).unwrap_err();
        assert_eq!(error, ParseError::SectionIndexNotFound(*typ));
        assert_eq!(error.message(), *message);
        assert_pages_returned(&pages);
    }
}

#[test]
fn section_indices_are_found_among_the_headers() {
    let found = find_section_indices(&chars(HEADERS));
    assert_eq!(
        found,
        FoundIndices { text: Some(3), rodata: Some(4), data: Some(5), bss: Some(6) }
    );
    assert!(found.is_complete());
    assert_eq!(found.finish(), Ok(indices()));
    assert_eq!(find_section_indices(&chars("")), FoundIndices::new());
    assert!(!FoundIndices::new().is_complete());
    assert_eq!(FoundIndices::new().finish(), Err(SectionType::Text));
}

#[test]
fn a_later_header_line_replaces_an_earlier_one() {
    let found = find_section_indices(&chars(
        "[1] .text PROGBITS\n[2] .text PROGBITS\n[x] .data PROGBITS\n",
    ));
    assert_eq!(found, FoundIndices { text: Some(2), rodata: None, data: None, bss: None });
    // a line that names the section but gives no number takes the index away
    let found = find_section_indices(&chars("[1] .text PROGBITS\n.text PROGBITS\n"));
    assert_eq!(found.text, None);
}

#[test]
fn reading_headers_stops_once_all_four_are_known() {
    let found = find_section_indices(&chars(
        "[1] .text PROGBITS\n[2] .rodata PROGBITS\n[3] .data PROGBITS\n[4] .bss NOBITS\n[9] .text PROGBITS\n",
    ));
    assert_eq!(
        found,
        FoundIndices { text: Some(1), rodata: Some(2), data: Some(3), bss: Some(4) }
    );
}

#[test]
fn symbol_table_starts_after_its_two_header_lines() {
    let text = chars("a\nSymbol table x\ntitles\nfirst\nsecond\n");
    let start = find_symbol_table(&text);
    assert_eq!(start, 24);
    assert_eq!(text[start..].iter().collect::<String>(), "first\nsecond\n");
    let text = chars("a\nb\n");
    assert_eq!(find_symbol_table(&text), text.len());
    let text = chars("Symbol table");
    assert_eq!(find_symbol_table(&text), text.len());
    let text = chars("Symbol table\ntitles");
    assert_eq!(find_symbol_table(&text), text.len());
    // the line has to begin with the words
    let text = chars(" Symbol table\ntitles\nfirst\n");
    assert_eq!(find_symbol_table(&text), text.len());
}

#[test]
fn file_without_symbol_table_gives_an_empty_crate() {
    let mut bytes = Vec::new();
    bytes.extend_from_slice(HEADERS.as_bytes());
    bytes.push(0);
    let krate = parse(&mut bytes).unwrap();
    assert_eq!(krate.sections().len(), 0);
    assert_eq!(krate.crate_name(), "nano_core");
}

#[test]
fn lines_of_the_table_are_told_apart() {
    let idx = indices();
    match parse_symbol_line(&chars("1: 1000 0x40 FUNC GLOBAL DEFAULT 3 foo#h1"), &idx) {
        SymbolLine::Entry(symbol) => {
            assert_eq!(symbol.typ, SectionType::Text);
            assert_eq!(symbol.name, "foo");
            assert_eq!(symbol.hash, Some(String::from("h1")));
            assert_eq!(symbol.virt_addr, 0x1000);
            assert_eq!(symbol.size, 0x40);
        }
        other => panic!("{:?}", other),
    }
    assert!(matches!(
        parse_symbol_line(&chars("1: 1000 64 FUNC GLOBAL DEFAULT 4 r"), &idx),
        SymbolLine::Entry(s) if s.typ == SectionType::Rodata
    ));
    assert!(matches!(
        parse_symbol_line(&chars("1: 1000 64 FUNC GLOBAL DEFAULT 5 d"), &idx),
        SymbolLine::Entry(s) if s.typ == SectionType::Data
    ));
    assert!(matches!(
        parse_symbol_line(&chars("1: 1000 64 FUNC GLOBAL DEFAULT 6 b"), &idx),
        SymbolLine::Entry(s) if s.typ == SectionType::Bss
    ));
    assert!(matches!(parse_symbol_line(&chars(""), &idx), SymbolLine::Skipped));
    assert!(matches!(
        parse_symbol_line(&chars("1: 1000 64 FUNC GLOBAL DEFAULT ABS foo"), &idx),
        SymbolLine::Skipped
    ));
    assert!(matches!(
        parse_symbol_line(&chars("1: 1000 64 FUNC GLOBAL DEFAULT UND "), &idx),
        SymbolLine::Skipped
    ));
    assert!(matches!(
        parse_symbol_line(&chars("1: 1000 64 FUNC GLOBAL DEFAULT 1 foo"), &idx),
        SymbolLine::Unplaced
    ));
    assert!(matches!(
        parse_symbol_line(&chars("1: 1000 64 FUNC GLOBAL DEFAULT 3 foo#a#b"), &idx),
        SymbolLine::Malformed(ParseError::MultipleHashSeparators)
    ));
    assert!(matches!(
        parse_symbol_line(&chars("1: 1000 64 FUNC"), &idx),
        SymbolLine::Malformed(ParseError::MissingColumn(Column::Bind))
    ));
}

#[test]
fn coinciding_indices_are_classified_in_order() {
    let idx = SectionIndices { text: 1, rodata: 1, data: 2, bss: 2 };
    assert_eq!(idx.classify(1), Some(SectionType::Text));
    assert_eq!(idx.classify(2), Some(SectionType::Data));
    assert_eq!(idx.classify(3), None);
    assert_eq!(indices().classify(4), Some(SectionType::Rodata));
    assert_eq!(indices().classify(6), Some(SectionType::Bss));
}
