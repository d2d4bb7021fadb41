//! One entry of the symbol table in the symbol file.
//!
//! An entry is a line of eight columns: number, value, size, type, binding,
//! visibility, section index and name. The name is the rest of the line and
//! may hold white space; a hash may follow it after a `#`.

use vstd::prelude::*;
use vstd::slice::slice_subrange;
use crate::error::{Column, ParseError, SectionType};
use crate::indices::SectionIndices;
use crate::metadata::optional_text;
use crate::numbers::{parse_usize, parsed_usize};
use crate::text::{columns, find_char_from, index_of, slice_views, split_columns};
use crate::utf8::string_from_chars;

verus! {

/// The number of columns of a symbol table entry.
pub const SYMBOL_COLUMNS: usize = 8;

/// The column with the given position.
pub open spec fn column_at(position: int) -> Column {
    if position <= 0 {
        Column::Num
    } else if position == 1 {
        Column::Value
    } else if position == 2 {
        Column::Size
    } else if position == 3 {
        Column::Type
    } else if position == 4 {
        Column::Bind
    } else if position == 5 {
        Column::Vis
    } else if position == 6 {
        Column::Ndx
    } else {
        Column::Name
    }
}

/// A name column taken apart: the name, and the hash where one follows
/// after a `#`. `None` where the column holds more than one `#`.
pub open spec fn name_and_hash(column: Seq<char>) -> Option<(Seq<char>, Option<Seq<char>>)> {
    let first = index_of(column, '#', 0);
    if first >= column.len() {
        Some((column, None))
    } else if index_of(column, '#', first + 1) >= column.len() {
        Some((column.subrange(0, first), Some(column.subrange(first + 1, column.len() as int))))
    } else {
        None
    }
}

/// The number of bytes that `c` takes in UTF-8.
pub open spec fn utf8_width(c: char) -> nat {
    let u = c as u32;
    if u < 0x80 {
        1
    } else if u < 0x800 {
        2
    } else if u < 0x10000 {
        3
    } else {
        4
    }
}

/// `s` without the first two bytes of its UTF-8 form, where those are whole
/// characters: either two characters of one byte or one of two bytes.
pub open spec fn without_two_bytes(s: Seq<char>) -> Option<Seq<char>> {
    if s.len() >= 1 && utf8_width(s[0]) == 2 {
        Some(s.subrange(1, s.len() as int))
    } else if s.len() >= 2 && utf8_width(s[0]) == 1 && utf8_width(s[1]) == 1 {
        Some(s.subrange(2, s.len() as int))
    } else {
        None
    }
}

/// The size that a size column denotes: a decimal number, or else a
/// hexadecimal number behind a prefix of two bytes such as `0x`.
pub open spec fn parsed_size(column: Seq<char>) -> Option<usize> {
    match parsed_usize(column, 10) {
        Some(size) => Some(size),
        None => match without_two_bytes(column) {
            Some(digits) => parsed_usize(digits, 16),
            None => None,
        },
    }
}

/// What a symbol table entry says about a section.
pub struct SymbolInfo {
    pub typ: SectionType,
    pub name: Seq<char>,
    pub hash: Option<Seq<char>>,
    pub virt_addr: usize,
    pub size: usize,
}

/// What a line of the symbol table amounts to.
pub enum SymbolLineInfo {
    /// The line is empty or its section index is no number: it is passed over.
    Skipped,
    /// The line is an entry of a section that is none of the four.
    Unplaced,
    /// The line is an entry of one of the four sections.
    Entry(SymbolInfo),
    /// The line is no entry.
    Malformed(ParseError),
}

/// What the line `line` of the symbol table amounts to, given the indices of
/// the four sections.
pub open spec fn symbol_line(line: Seq<char>, indices: SectionIndices) -> SymbolLineInfo {
    let cols = columns(line, SYMBOL_COLUMNS as nat);
    if line.len() == 0 {
        SymbolLineInfo::Skipped
    } else if cols.len() < SYMBOL_COLUMNS {
        SymbolLineInfo::Malformed(ParseError::MissingColumn(column_at(cols.len() as int)))
    } else if name_and_hash(cols[7]) is None {
        SymbolLineInfo::Malformed(ParseError::MultipleHashSeparators)
    } else if parsed_usize(cols[1], 16) is None {
        SymbolLineInfo::Malformed(ParseError::InvalidAddress)
    } else if parsed_size(cols[2]) is None {
        SymbolLineInfo::Malformed(ParseError::InvalidSize)
    } else if parsed_usize(cols[6], 10) is None {
        SymbolLineInfo::Skipped
    } else {
        match indices.type_of(parsed_usize(cols[6], 10).unwrap()) {
            None => SymbolLineInfo::Unplaced,
            Some(typ) => SymbolLineInfo::Entry(
                SymbolInfo {
                    typ,
                    name: name_and_hash(cols[7]).unwrap().0,
                    hash: name_and_hash(cols[7]).unwrap().1,
                    virt_addr: parsed_usize(cols[1], 16).unwrap(),
                    size: parsed_size(cols[2]).unwrap(),
                },
            ),
        }
    }
}

/// A symbol table entry of one of the four sections.
#[derive(Debug)]
pub struct Symbol {
    pub typ: SectionType,
    pub name: String,
    pub hash: Option<String>,
    pub virt_addr: usize,
    pub size: usize,
}

impl View for Symbol {
    type V = SymbolInfo;

    open spec fn view(&self) -> SymbolInfo {
        SymbolInfo {
            typ: self.typ,
            name: self.name@,
            hash: optional_text(self.hash),
            virt_addr: self.virt_addr,
            size: self.size,
        }
    }
}

/// A line of the symbol table, read.
#[derive(Debug)]
pub enum SymbolLine {
    Skipped,
    Unplaced,
    Entry(Symbol),
    Malformed(ParseError),
}

impl View for SymbolLine {
    type V = SymbolLineInfo;

    open spec fn view(&self) -> SymbolLineInfo {
        match self {
            SymbolLine::Skipped => SymbolLineInfo::Skipped,
            SymbolLine::Unplaced => SymbolLineInfo::Unplaced,
            SymbolLine::Entry(symbol) => SymbolLineInfo::Entry(symbol@),
            SymbolLine::Malformed(error) => SymbolLineInfo::Malformed(*error),
        }
    }
}

/// The column with the given position.
pub fn column_for(position: usize) -> (column: Column)
    ensures
        column == column_at(position as int),
{
    if position == 0 {
        Column::Num
    } else if position == 1 {
        Column::Value
    } else if position == 2 {
        Column::Size
    } else if position == 3 {
        Column::Type
    } else if position == 4 {
        Column::Bind
    } else if position == 5 {
        Column::Vis
    } else if position == 6 {
        Column::Ndx
    } else {
        Column::Name
    }
}

/// Takes a name column apart into the name and the hash that may follow it.
pub fn split_name(column: &[char]) -> (parts: Option<(String, Option<String>)>)
    ensures
        match name_and_hash(column@) {
            None => parts is None,
            Some((name, hash)) => parts is Some && parts.unwrap().0@ == name && optional_text(
                parts.unwrap().1,
            ) == hash,
        },
{
    let first = find_char_from(column, '#', 0);
    if first >= column.len() {
        return Some((string_from_chars(column), None));
    }
    let second = find_char_from(column, '#', first + 1);
    if second >= column.len() {
        let name = string_from_chars(slice_subrange(column, 0, first));
        let hash = string_from_chars(slice_subrange(column, first + 1, column.len()));
        Some((name, Some(hash)))
    } else {
        None
    }
}

/// The number of bytes that `c` takes in UTF-8.
pub fn char_utf8_width(c: char) -> (width: usize)
    ensures
        width == utf8_width(c),
{
    let u: u32 = c as u32;
    if u < 0x80 {
        1
    } else if u < 0x800 {
        2
    } else if u < 0x10000 {
        3
    } else {
        4
    }
}

/// Reads a size column.
pub fn parse_size(column: &[char]) -> (size: Option<usize>)
    ensures
        size == parsed_size(column@),
{
    match parse_usize(column, 10) {
        Some(size) => Some(size),
        None => {
            if column.len() >= 1 && char_utf8_width(column[0]) == 2 {
                parse_usize(slice_subrange(column, 1, column.len()), 16)
            } else if column.len() >= 2 && char_utf8_width(column[0]) == 1 && char_utf8_width(
                column[1],
            ) == 1 {
                parse_usize(slice_subrange(column, 2, column.len()), 16)
            } else {
                None
            }
        },
    }
}

/// Reads one line of the symbol table.
pub fn parse_symbol_line(line: &[char], indices: &SectionIndices) -> (parsed: SymbolLine)
    ensures
        parsed@ == symbol_line(line@, *indices),
{
    if line.len() == 0 {
        return SymbolLine::Skipped;
    }
    let cols = split_columns(line, SYMBOL_COLUMNS);
    proof {
        let spec_cols = columns(line@, SYMBOL_COLUMNS as nat);
        assert(slice_views(cols@).len() == cols@.len());
        assert forall|i: int| 0 <= i < cols@.len() implies cols@[i]@ == spec_cols[i] by {
            assert(slice_views(cols@)[i] == cols@[i]@);
        }
    }
    if cols.len() < SYMBOL_COLUMNS {
        return SymbolLine::Malformed(ParseError::MissingColumn(column_for(cols.len())));
    }
    let (name, hash) = match split_name(cols[7]) {
        Some(parts) => parts,
        None => {
            return SymbolLine::Malformed(ParseError::MultipleHashSeparators);
        },
    };
    let virt_addr = match parse_usize(cols[1], 16) {
        Some(virt_addr) => virt_addr,
        None => {
            return SymbolLine::Malformed(ParseError::InvalidAddress);
        },
    };
    let size = match parse_size(cols[2]) {
        Some(size) => size,
        None => {
            return SymbolLine::Malformed(ParseError::InvalidSize);
        },
    };
    let ndx = match parse_usize(cols[6], 10) {
        Some(ndx) => ndx,
        None => {
            return SymbolLine::Skipped;
        },
    };
    match indices.classify(ndx) {
        None => SymbolLine::Unplaced,
        Some(typ) => SymbolLine::Entry(Symbol { typ, name, hash, virt_addr, size }),
    }
}

} // verus!
