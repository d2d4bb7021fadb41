//! The symbol file: a textual dump of the section headers and the symbol
//! table of the `nano_core` image.
//!
//! The file is read in three passes over its lines. The first finds the
//! indices of the `.text`, `.rodata`, `.data` and `.bss` sections among the
//! section headers. The second looks for the line that begins the symbol
//! table. The third turns every entry of the table that belongs to one of
//! the four sections into a section of the crate.

use vstd::prelude::*;
use vstd::slice::slice_subrange;
use vstd::utf8::{decode_utf8, valid_utf8};
use crate::error::ParseError;
use crate::indices::{FoundIndices, SectionIndices};
use crate::memory::{MappedPages, ModuleArea};
use crate::metadata::{
    give_back,
    loaded_as,
    placed_section,
    LoadedCrate,
    PageSet,
    SectionInfo,
};
use crate::numbers::{parse_usize, parsed_usize};
use crate::symbol_line::{parse_symbol_line, symbol_line, SymbolLine, SymbolLineInfo};
use crate::text::{
    after_line,
    begins_with,
    contains,
    contains_pattern,
    find_char_from,
    index_of,
    line_at,
    lines,
    lines_from,
    next_line,
    starts_with,
    trim,
    trimmed,
};
use crate::utf8::{chars_of, decode_text};

verus! {

/// The section index that a header line gives between its first `[` and its
/// first `]`, if a number stands there.
pub open spec fn section_index_in(line: Seq<char>) -> Option<usize> {
    let open = index_of(line, '[', 0);
    let close = index_of(line, ']', 0);
    if open < line.len() && close < line.len() && open < close {
        parsed_usize(trimmed(line.subrange(open + 1, close)), 10)
    } else {
        None
    }
}

/// What is known of the four indices once the line `raw` has been read.
///
/// A line that names a section and its type sets the index of that section to
/// what the line gives, also where that is nothing.
pub open spec fn header_line(found: FoundIndices, raw: Seq<char>) -> FoundIndices {
    let line = trimmed(raw);
    if line.len() == 0 {
        found
    } else if contains(line, ".text"@) && contains(line, "PROGBITS"@) {
        FoundIndices { text: section_index_in(line), ..found }
    } else if contains(line, ".data"@) && contains(line, "PROGBITS"@) {
        FoundIndices { data: section_index_in(line), ..found }
    } else if contains(line, ".rodata"@) && contains(line, "PROGBITS"@) {
        FoundIndices { rodata: section_index_in(line), ..found }
    } else if contains(line, ".bss"@) && contains(line, "NOBITS"@) {
        FoundIndices { bss: section_index_in(line), ..found }
    } else {
        found
    }
}

/// What is known of the four indices once `lines` have been read, starting
/// from `found`. Reading stops as soon as all four are known.
pub open spec fn header_indices(lines: Seq<Seq<char>>, found: FoundIndices) -> FoundIndices
    decreases lines.len(),
{
    if lines.len() == 0 || found.complete() {
        found
    } else {
        header_indices(lines.drop_first(), header_line(found, lines[0]))
    }
}

/// The entries of the symbol table: the lines that follow the first line
/// beginning with `Symbol table` and the line of column titles after it.
pub open spec fn symbol_table_lines(lines: Seq<Seq<char>>) -> Seq<Seq<char>>
    decreases lines.len(),
{
    if lines.len() == 0 {
        Seq::empty()
    } else if starts_with(lines[0], "Symbol table"@) {
        if lines.len() >= 2 {
            lines.subrange(2, lines.len() as int)
        } else {
            Seq::empty()
        }
    } else {
        symbol_table_lines(lines.drop_first())
    }
}

/// The sections that the entries `lines` add to `sections`, in order.
///
/// Every entry takes the next id, whether it belongs to one of the four
/// sections or not; lines that are passed over take none. The first line
/// that is no entry, or whose address lies outside its pages, ends the
/// reading with its error.
pub open spec fn table_sections(
    lines: Seq<Seq<char>>,
    next_id: nat,
    indices: SectionIndices,
    pages: PageSet,
    sections: Seq<(usize, SectionInfo)>,
) -> Result<Seq<(usize, SectionInfo)>, ParseError>
    decreases lines.len(),
{
    if lines.len() == 0 {
        Ok(sections)
    } else {
        let rest = lines.drop_first();
        match symbol_line(lines[0], indices) {
            SymbolLineInfo::Skipped => table_sections(rest, next_id, indices, pages, sections),
            SymbolLineInfo::Unplaced => table_sections(rest, next_id + 1, indices, pages, sections),
            SymbolLineInfo::Malformed(error) => Err(error),
            SymbolLineInfo::Entry(symbol) => match placed_section(
                symbol.typ,
                symbol.name,
                symbol.hash,
                symbol.virt_addr,
                symbol.size,
                pages,
            ) {
                Ok(section) => table_sections(
                    rest,
                    next_id + 1,
                    indices,
                    pages,
                    sections.push((next_id as usize, section)),
                ),
                Err(error) => Err(error),
            },
        }
    }
}

/// The sections that the symbol file `text` describes within `pages`.
pub open spec fn symbol_file_sections(text: Seq<char>, pages: PageSet) -> Result<
    Seq<(usize, SectionInfo)>,
    ParseError,
> {
    let found = header_indices(lines(text), FoundIndices::none());
    match found.first_missing() {
        Some(typ) => Err(ParseError::SectionIndexNotFound(typ)),
        None => table_sections(
            symbol_table_lines(lines(text)),
            0,
            found.indices(),
            pages,
            Seq::empty(),
        ),
    }
}

/// The first index at or after `from` that holds a NUL byte, or the length
/// where there is none.
pub open spec fn nul_index(bytes: Seq<u8>, from: int) -> int
    decreases bytes.len() - from,
{
    if 0 <= from < bytes.len() && bytes[from] != 0 {
        nul_index(bytes, from + 1)
    } else {
        from
    }
}

/// The text of a symbol file that ends in a NUL byte: what comes before that
/// byte, which must hold no further NUL and be UTF-8.
pub open spec fn symbol_file_text(bytes: Seq<u8>) -> Result<Seq<char>, ParseError>
    recommends
        bytes.len() > 0,
        bytes.last() == 0,
{
    let end = bytes.len() - 1;
    if nul_index(bytes, 0) != end {
        Err(ParseError::InteriorNul)
    } else if !valid_utf8(bytes.subrange(0, end)) {
        Err(ParseError::InvalidUtf8)
    } else {
        Ok(decode_utf8(bytes.subrange(0, end)))
    }
}

/// The sections that the bytes of a symbol file describe within `pages`.
pub open spec fn parsed_symbol_file(bytes: Seq<u8>, pages: PageSet) -> Result<
    Seq<(usize, SectionInfo)>,
    ParseError,
>
    recommends
        bytes.len() > 0,
        bytes.last() == 0,
{
    match symbol_file_text(bytes) {
        Ok(text) => symbol_file_sections(text, pages),
        Err(error) => Err(error),
    }
}

/// The error that the line `line` of the symbol table ends the reading
/// with, if it does: the line is no entry, or it is an entry whose address
/// lies outside the pages for its section.
pub open spec fn line_error(line: Seq<char>, indices: SectionIndices, pages: PageSet) -> Option<
    ParseError,
> {
    match symbol_line(line, indices) {
        SymbolLineInfo::Malformed(error) => Some(error),
        SymbolLineInfo::Entry(symbol) => match placed_section(
            symbol.typ,
            symbol.name,
            symbol.hash,
            symbol.virt_addr,
            symbol.size,
            pages,
        ) {
            Ok(_) => None,
            Err(error) => Some(error),
        },
        _ => None,
    }
}

/// The section that the line `line` of the symbol table becomes, if it
/// becomes one.
pub open spec fn line_section(line: Seq<char>, indices: SectionIndices, pages: PageSet) -> Option<
    SectionInfo,
> {
    match symbol_line(line, indices) {
        SymbolLineInfo::Entry(symbol) => match placed_section(
            symbol.typ,
            symbol.name,
            symbol.hash,
            symbol.virt_addr,
            symbol.size,
            pages,
        ) {
            Ok(section) => Some(section),
            Err(_) => None,
        },
        _ => None,
    }
}

/// The first line of the symbol table that is in error decides the outcome:
/// where the lines before `lines[k]` are in order and `lines[k]` is not, the
/// table as a whole fails with the error of `lines[k]`. This holds of a
/// malformed entry as of one whose address its pages do not cover.
pub proof fn lemma_first_line_in_error_decides(
    lines: Seq<Seq<char>>,
    k: int,
    next_id: nat,
    indices: SectionIndices,
    pages: PageSet,
    sections: Seq<(usize, SectionInfo)>,
)
    requires
        0 <= k < lines.len(),
        forall|j: int| 0 <= j < k ==> line_error(#[trigger] lines[j], indices, pages) is None,
        line_error(lines[k], indices, pages) is Some,
    ensures
        table_sections(lines, next_id, indices, pages, sections) == Err::<
            Seq<(usize, SectionInfo)>,
            ParseError,
        >(line_error(lines[k], indices, pages).unwrap()),
    decreases k,
{
    if k > 0 {
        let rest = lines.drop_first();
        assert(line_error(lines[0], indices, pages) is None);
        assert forall|j: int| 0 <= j < k - 1 implies line_error(
            #[trigger] rest[j],
            indices,
            pages,
        ) is None by {
            assert(rest[j] == lines[j + 1]);
        }
        assert(rest[k - 1] == lines[k]);
        match symbol_line(lines[0], indices) {
            SymbolLineInfo::Skipped => {
                lemma_first_line_in_error_decides(rest, k - 1, next_id, indices, pages, sections);
            },
            SymbolLineInfo::Unplaced => {
                lemma_first_line_in_error_decides(
                    rest,
                    k - 1,
                    next_id + 1,
                    indices,
                    pages,
                    sections,
                );
            },
            SymbolLineInfo::Malformed(_) => {},
            SymbolLineInfo::Entry(_) => {
                lemma_first_line_in_error_decides(
                    rest,
                    k - 1,
                    next_id + 1,
                    indices,
                    pages,
                    sections.push(
                        (next_id as usize, line_section(lines[0], indices, pages).unwrap()),
                    ),
                );
            },
        }
    }
}

/// A symbol table whose lines are all entries of the four sections, each
/// within its pages, yields one section for each line, in the order of the
/// lines: the id of a section is the number of its line, counted from
/// `next_id`, and its type and the rest are those of the line.
pub proof fn lemma_every_entry_becomes_a_section(
    lines: Seq<Seq<char>>,
    next_id: nat,
    indices: SectionIndices,
    pages: PageSet,
    sections: Seq<(usize, SectionInfo)>,
)
    requires
        forall|i: int|
            0 <= i < lines.len() ==> line_section(#[trigger] lines[i], indices, pages) is Some,
    ensures
        table_sections(lines, next_id, indices, pages, sections) == Ok::<
            Seq<(usize, SectionInfo)>,
            ParseError,
        >(
            sections + Seq::new(
                lines.len(),
                |i: int| ((next_id + i) as usize, line_section(lines[i], indices, pages).unwrap()),
            ),
        ),
    decreases lines.len(),
{
    let added = Seq::new(
        lines.len(),
        |i: int| ((next_id + i) as usize, line_section(lines[i], indices, pages).unwrap()),
    );
    if lines.len() == 0 {
        assert(sections + added =~= sections);
    } else {
        let rest = lines.drop_first();
        assert(line_section(lines[0], indices, pages) is Some);
        let first = (next_id as usize, line_section(lines[0], indices, pages).unwrap());
        assert forall|i: int| 0 <= i < rest.len() implies line_section(
            #[trigger] rest[i],
            indices,
            pages,
        ) is Some by {
            assert(rest[i] == lines[i + 1]);
        }
        lemma_every_entry_becomes_a_section(rest, next_id + 1, indices, pages, sections.push(first));
        let more = Seq::new(
            rest.len(),
            |i: int| ((next_id + 1 + i) as usize, line_section(rest[i], indices, pages).unwrap()),
        );
        assert(sections.push(first) + more =~= sections + added) by {
            assert forall|i: int| 0 <= i < more.len() implies more[i] == added[i + 1] by {
                assert(rest[i] == lines[i + 1]);
            }
        }
    }
}

/// Reading a symbol table only ever adds sections, and every section that
/// it adds is global.
pub proof fn lemma_symbol_file_sections_are_global(
    lines: Seq<Seq<char>>,
    next_id: nat,
    indices: SectionIndices,
    pages: PageSet,
    sections: Seq<(usize, SectionInfo)>,
)
    requires
        table_sections(lines, next_id, indices, pages, sections) is Ok,
    ensures
        ({
            let all = table_sections(lines, next_id, indices, pages, sections).unwrap();
            &&& sections.len() <= all.len()
            &&& all.subrange(0, sections.len() as int) == sections
            &&& forall|i: int| sections.len() <= i < all.len() ==> (#[trigger] all[i]).1.global
        }),
    decreases lines.len(),
{
    let all = table_sections(lines, next_id, indices, pages, sections).unwrap();
    if lines.len() == 0 {
        assert(all.subrange(0, sections.len() as int) =~= sections);
    } else {
        let rest = lines.drop_first();
        match symbol_line(lines[0], indices) {
            SymbolLineInfo::Skipped => {
                lemma_symbol_file_sections_are_global(rest, next_id, indices, pages, sections);
            },
            SymbolLineInfo::Unplaced => {
                lemma_symbol_file_sections_are_global(rest, next_id + 1, indices, pages, sections);
            },
            SymbolLineInfo::Malformed(_) => {},
            SymbolLineInfo::Entry(_) => {
                let first = (next_id as usize, line_section(lines[0], indices, pages).unwrap());
                let longer = sections.push(first);
                lemma_symbol_file_sections_are_global(rest, next_id + 1, indices, pages, longer);
                assert(all.subrange(0, sections.len() as int) =~= all.subrange(
                    0,
                    longer.len() as int,
                ).subrange(0, sections.len() as int));
                assert(longer.subrange(0, sections.len() as int) =~= sections);
                assert(all[sections.len() as int] == all.subrange(
                    0,
                    longer.len() as int,
                )[sections.len() as int]);
            },
        }
    }
}

/// A symbol file whose text is cut short by a byte that is no UTF-8 fails as
/// such, whatever else it holds.
pub proof fn lemma_text_that_is_no_utf8_fails(bytes: Seq<u8>, pages: PageSet)
    requires
        bytes.len() > 0,
        nul_index(bytes, 0) == bytes.len() - 1,
        !valid_utf8(bytes.subrange(0, bytes.len() - 1)),
    ensures
        parsed_symbol_file(bytes, pages) == Err::<Seq<(usize, SectionInfo)>, ParseError>(
            ParseError::InvalidUtf8,
        ),
{
}

/// How the lines from an index on are made up.
proof fn lemma_lines_from_step(s: Seq<char>, from: int)
    requires
        0 <= from <= s.len(),
    ensures
        from < s.len() ==> lines_from(s, from).len() >= 1 && lines_from(s, from)[0] == line_at(
            s,
            from,
        ) && lines_from(s, from).drop_first() == lines_from(s, after_line(s, from)),
        from == s.len() ==> lines_from(s, from).len() == 0,
{
    if from < s.len() {
        let rest = lines_from(s, after_line(s, from));
        assert(lines_from(s, from) == seq![line_at(s, from)] + rest);
        assert((seq![line_at(s, from)] + rest).drop_first() =~= rest);
    }
}

/// Reads the section index out of a header line.
pub fn parse_section_ndx(line: &[char]) -> (ndx: Option<usize>)
    ensures
        ndx == section_index_in(line@),
{
    let open = find_char_from(line, '[', 0);
    let close = find_char_from(line, ']', 0);
    if open < line.len() && close < line.len() && open < close {
        parse_usize(trim(slice_subrange(line, open + 1, close)), 10)
    } else {
        None
    }
}

/// The words that mark the section headers and the symbol table.
struct Keywords {
    text: Vec<char>,
    data: Vec<char>,
    rodata: Vec<char>,
    bss: Vec<char>,
    progbits: Vec<char>,
    nobits: Vec<char>,
    symbol_table: Vec<char>,
}

impl Keywords {
    spec fn wf(&self) -> bool {
        &&& self.text@ == ".text"@
        &&& self.data@ == ".data"@
        &&& self.rodata@ == ".rodata"@
        &&& self.bss@ == ".bss"@
        &&& self.progbits@ == "PROGBITS"@
        &&& self.nobits@ == "NOBITS"@
        &&& self.symbol_table@ == "Symbol table"@
    }

    fn new() -> (keywords: Self)
        ensures
            keywords.wf(),
    {
        Keywords {
            text: chars_of(".text"),
            data: chars_of(".data"),
            rodata: chars_of(".rodata"),
            bss: chars_of(".bss"),
            progbits: chars_of("PROGBITS"),
            nobits: chars_of("NOBITS"),
            symbol_table: chars_of("Symbol table"),
        }
    }
}

/// Reads one line of the section headers.
fn read_header_line(
    found: FoundIndices,
    raw: &[char],
    keywords: &Keywords,
) -> (updated: FoundIndices)
    requires
        keywords.wf(),
    ensures
        updated == header_line(found, raw@),
{
    let line = trim(raw);
    if line.len() == 0 {
        found
    } else if contains_pattern(line, keywords.text.as_slice()) && contains_pattern(
        line,
        keywords.progbits.as_slice(),
    ) {
        FoundIndices { text: parse_section_ndx(line), ..found }
    } else if contains_pattern(line, keywords.data.as_slice()) && contains_pattern(
        line,
        keywords.progbits.as_slice(),
    ) {
        FoundIndices { data: parse_section_ndx(line), ..found }
    } else if contains_pattern(line, keywords.rodata.as_slice()) && contains_pattern(
        line,
        keywords.progbits.as_slice(),
    ) {
        FoundIndices { rodata: parse_section_ndx(line), ..found }
    } else if contains_pattern(line, keywords.bss.as_slice()) && contains_pattern(
        line,
        keywords.nobits.as_slice(),
    ) {
        FoundIndices { bss: parse_section_ndx(line), ..found }
    } else {
        found
    }
}

/// Finds the indices of the four sections among the section headers of the
/// symbol file `text`.
pub fn find_section_indices(text: &[char]) -> (found: FoundIndices)
    ensures
        found == header_indices(lines(text@), FoundIndices::none()),
{
    let keywords = Keywords::new();
    let mut found = FoundIndices::new();
    let mut pos: usize = 0;
    while pos < text.len() && !found.is_complete()
        invariant
            keywords.wf(),
            pos <= text@.len(),
            header_indices(lines_from(text@, pos as int), found) == header_indices(
                lines(text@),
                FoundIndices::none(),
            ),
        decreases text@.len() - pos,
    {
        proof {
            lemma_lines_from_step(text@, pos as int);
        }
        let (line, next) = next_line(text, pos);
        found = read_header_line(found, line, &keywords);
        pos = next;
    }
    proof {
        lemma_lines_from_step(text@, pos as int);
    }
    found
}

/// Finds where the entries of the symbol table start in the symbol file
/// `text`: the lines from the returned index on are the entries.
pub fn find_symbol_table(text: &[char]) -> (start: usize)
    ensures
        start <= text@.len(),
        lines_from(text@, start as int) == symbol_table_lines(lines(text@)),
{
    let keywords = Keywords::new();
    let mut pos: usize = 0;
    while pos < text.len()
        invariant
            keywords.wf(),
            pos <= text@.len(),
            symbol_table_lines(lines_from(text@, pos as int)) == symbol_table_lines(lines(text@)),
        decreases text@.len() - pos,
    {
        proof {
            lemma_lines_from_step(text@, pos as int);
        }
        let (line, next) = next_line(text, pos);
        if begins_with(line, keywords.symbol_table.as_slice()) {
            proof {
                lemma_lines_from_step(text@, next as int);
            }
            if next < text.len() {
                let (_titles, entries) = next_line(text, next);
                proof {
                    lemma_lines_from_step(text@, entries as int);
                    let all = lines_from(text@, pos as int);
                    let tail = lines_from(text@, next as int);
                    assert(all.drop_first() == tail);
                    assert(tail.drop_first() == lines_from(text@, entries as int));
                    assert(all.subrange(2, all.len() as int) =~= tail.drop_first());
                }
                return entries;
            } else {
                proof {
                    let all = lines_from(text@, pos as int);
                    assert(all.drop_first().len() == 0);
                    assert(all.len() == 1);
                }
                return next;
            }
        }
        pos = next;
    }
    proof {
        lemma_lines_from_step(text@, pos as int);
    }
    pos
}

/// The text of the symbol file in `bytes`, whose last byte is overwritten
/// with NUL first to end the text.
pub fn read_symbol_file_text(bytes: &mut Vec<u8>) -> (text: Result<Vec<char>, ParseError>)
    requires
        old(bytes)@.len() > 0,
    ensures
        final(bytes)@ == old(bytes)@.update(old(bytes)@.len() - 1, 0u8),
        match symbol_file_text(final(bytes)@) {
            Ok(chars) => text is Ok && text.unwrap()@ == chars,
            Err(error) => text == Err::<Vec<char>, ParseError>(error),
        },
{
    let end: usize = bytes.len() - 1;
    bytes[end] = 0;
    let mut nul: usize = 0;
    while nul < bytes.len() && bytes[nul] != 0
        invariant
            nul <= bytes@.len(),
            nul_index(bytes@, 0) == nul_index(bytes@, nul as int),
        decreases bytes@.len() - nul,
    {
        nul += 1;
    }
    if nul != end {
        return Err(ParseError::InteriorNul);
    }
    match decode_text(slice_subrange(bytes.as_slice(), 0, end)) {
        Some(chars) => Ok(chars),
        None => Err(ParseError::InvalidUtf8),
    }
}

/// Parses the symbol file of the `nano_core` image and builds the metadata
/// of the crate from it.
///
/// `bytes` holds the file and one more byte, which is set to NUL. All
/// entries of the symbol table that belong to the `.text`, `.rodata`, `.data`
/// or `.bss` section become global sections of the crate. On failure the
/// three page ranges come back with the error.
pub fn parse_nano_core_symbol_file(
    bytes: &mut Vec<u8>,
    nano_core_object_file: ModuleArea,
    text_pages: MappedPages,
    rodata_pages: MappedPages,
    data_pages: MappedPages,
) -> (loaded: Result<LoadedCrate, (ParseError, [MappedPages; 3])>)
    requires
        old(bytes)@.len() > 0,
    ensures
        final(bytes)@ == old(bytes)@.update(old(bytes)@.len() - 1, 0u8),
        loaded_as(
            loaded,
            parsed_symbol_file(
                final(bytes)@,
                PageSet { text: text_pages@, rodata: rodata_pages@, data: data_pages@ },
            ),
            nano_core_object_file@,
            PageSet { text: text_pages@, rodata: rodata_pages@, data: data_pages@ },
        ),
{
    let ghost pages = PageSet { text: text_pages@, rodata: rodata_pages@, data: data_pages@ };
    let ghost object_file = nano_core_object_file@;
    let mut new_crate = LoadedCrate::new(
        "nano_core".to_owned(),
        nano_core_object_file,
        text_pages,
        rodata_pages,
        data_pages,
    );
    let text = match read_symbol_file_text(bytes) {
        Ok(text) => text,
        Err(error) => {
            return Err(give_back(error, new_crate));
        },
    };
    let indices = match find_section_indices(text.as_slice()).finish() {
        Ok(indices) => indices,
        Err(typ) => {
            return Err(give_back(ParseError::SectionIndexNotFound(typ), new_crate));
        },
    };
    let mut pos: usize = find_symbol_table(text.as_slice());
    let mut section_counter: usize = 0;
    let ghost expected = parsed_symbol_file(bytes@, pages);
    while pos < text.len()
        invariant
            old(bytes)@.len() > 0,
            bytes@ == old(bytes)@.update(old(bytes)@.len() - 1, 0u8),
            expected == parsed_symbol_file(bytes@, pages),
            pages == (PageSet { text: text_pages@, rodata: rodata_pages@, data: data_pages@ }),
            object_file == nano_core_object_file@,
            pos <= text@.len(),
            section_counter <= pos,
            new_crate@.wf(),
            new_crate@.admits_id(section_counter),
            new_crate@.crate_name == "nano_core"@,
            new_crate@.object_file == object_file,
            new_crate@.pages == pages,
            table_sections(
                lines_from(text@, pos as int),
                section_counter as nat,
                indices,
                pages,
                new_crate@.sections,
            ) == expected,
        decreases text@.len() - pos,
    {
        proof {
            lemma_lines_from_step(text@, pos as int);
        }
        let (line, next) = next_line(text.as_slice(), pos);
        match parse_symbol_line(line, &indices) {
            SymbolLine::Skipped => {},
            SymbolLine::Unplaced => {
                section_counter += 1;
            },
            SymbolLine::Malformed(error) => {
                return Err(give_back(error, new_crate));
            },
            SymbolLine::Entry(symbol) => {
                match new_crate.add_section(
                    section_counter,
                    symbol.typ,
                    symbol.name,
                    symbol.hash,
                    symbol.virt_addr,
                    symbol.size,
                ) {
                    Ok(()) => {},
                    Err(error) => {
                        return Err(give_back(error, new_crate));
                    },
                }
                section_counter += 1;
            },
        }
        pos = next;
    }
    proof {
        lemma_lines_from_step(text@, pos as int);
    }
    Ok(new_crate)
}

} // verus!
