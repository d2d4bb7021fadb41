//! The ways in which loading the `nano_core` metadata can fail.

use vstd::prelude::*;

verus! {

/// The kinds of section that the loader tells apart.
#[derive(Clone, Copy, Debug, PartialEq, Eq, Structural)]
pub enum SectionType {
    Text,
    Rodata,
    Data,
    Bss,
}

/// The columns of a symbol table entry in the symbol file.
#[derive(Clone, Copy, Debug, PartialEq, Eq, Structural)]
pub enum Column {
    Num,
    Value,
    Size,
    Type,
    Bind,
    Vis,
    Ndx,
    Name,
}

/// Why no crate metadata could be produced.
#[derive(Clone, Copy, Debug, PartialEq, Eq, Structural)]
pub enum ParseError {
    /// There is no module of the expected name.
    ModuleNotFound,
    /// The module does not start at a page boundary.
    ModuleNotPageAligned,
    /// The kernel has no active page table to map the module with.
    NoActivePageTable,
    /// The symbol file holds a NUL byte before its end.
    InteriorNul,
    /// The symbol file is not UTF-8.
    InvalidUtf8,
    /// The symbol file names no index for this section.
    SectionIndexNotFound(SectionType),
    /// A symbol table entry ends before this column.
    MissingColumn(Column),
    /// The name of a symbol holds more than one `#`.
    MultipleHashSeparators,
    /// The value column of a symbol is no hexadecimal address.
    InvalidAddress,
    /// The size column of a symbol is no number.
    InvalidSize,
    /// A symbol lies outside the pages that hold its section.
    NotCovered(SectionType),
    /// The object file has no symbol table.
    NoSymbolTable,
    /// The object file has this section with unexpected flags.
    WrongSectionFlags(SectionType),
    /// The object file lacks this section.
    SectionNotFound(SectionType),
    /// The name of an admitted symbol could not be read.
    UnreadableSymbolName,
}

impl ParseError {
    /// The text of the error.
    pub open spec fn message_text(self) -> Seq<char> {
        match self {
            ParseError::ModuleNotFound => "Couldn't find nano_core module"@,
            ParseError::ModuleNotPageAligned => "nano_core module was not page aligned"@,
            ParseError::NoActivePageTable => "couldn't get kernel's active page table"@,
            ParseError::InteriorNul => "FromBytesWithNulError occurred when casting nano_core symbol memory to CStr"@,
            ParseError::InvalidUtf8 => "Utf8Error occurred when parsing nano_core symbols CStr"@,
            ParseError::SectionIndexNotFound(SectionType::Text) => "parse_nano_core_symbol_file(): couldn't find .text section index"@,
            ParseError::SectionIndexNotFound(SectionType::Rodata) => "parse_nano_core_symbol_file(): couldn't find .rodata section index"@,
            ParseError::SectionIndexNotFound(SectionType::Data) => "parse_nano_core_symbol_file(): couldn't find .data section index"@,
            ParseError::SectionIndexNotFound(SectionType::Bss) => "parse_nano_core_symbol_file(): couldn't find .bss section index"@,
            ParseError::MissingColumn(Column::Num) => "parse_nano_core_symbol_file(): couldn't get column 0 'Num'"@,
            ParseError::MissingColumn(Column::Value) => "parse_nano_core_symbol_file(): couldn't get column 1 'Value'"@,
            ParseError::MissingColumn(Column::Size) => "parse_nano_core_symbol_file(): couldn't get column 2 'Size'"@,
            ParseError::MissingColumn(Column::Type) => "parse_nano_core_symbol_file(): couldn't get column 3 'Type'"@,
            ParseError::MissingColumn(Column::Bind) => "parse_nano_core_symbol_file(): couldn't get column 4 'Bind'"@,
            ParseError::MissingColumn(Column::Vis) => "parse_nano_core_symbol_file(): couldn't get column 5 'Vis'"@,
            ParseError::MissingColumn(Column::Ndx) => "parse_nano_core_symbol_file(): couldn't get column 6 'Ndx'"@,
            ParseError::MissingColumn(Column::Name) => "parse_nano_core_symbol_file(): couldn't get column 7 'Name'"@,
            ParseError::MultipleHashSeparators => "parse_nano_core_symbol_file(): 'Name' column had multiple '#' characters, expected only one '#' as the hash separator!"@,
            ParseError::InvalidAddress => "parse_nano_core_symbol_file(): couldn't parse virtual address (value column)"@,
            ParseError::InvalidSize => "parse_nano_core_symbol_file(): couldn't parse size column"@,
            ParseError::NotCovered(SectionType::Text) => "nano_core text section wasn't covered by its mapped pages!"@,
            ParseError::NotCovered(SectionType::Rodata) => "nano_core rodata section wasn't covered by its mapped pages!"@,
            ParseError::NotCovered(SectionType::Data) => "nano_core data section wasn't covered by its mapped pages!"@,
            ParseError::NotCovered(SectionType::Bss) => "nano_core bss section wasn't covered by its mapped pages!"@,
            ParseError::NoSymbolTable => "cannot load nano_core: no symbol table found. Was file stripped?"@,
            ParseError::WrongSectionFlags(SectionType::Text) => ".text section had wrong flags!"@,
            ParseError::WrongSectionFlags(SectionType::Rodata) => ".rodata section had wrong flags!"@,
            ParseError::WrongSectionFlags(SectionType::Data) => ".data section had wrong flags!"@,
            ParseError::WrongSectionFlags(SectionType::Bss) => ".bss section had wrong flags!"@,
            ParseError::SectionNotFound(SectionType::Text) => "couldn't find .text section in nano_core ELF"@,
            ParseError::SectionNotFound(SectionType::Rodata) => "couldn't find .rodata section in nano_core ELF"@,
            ParseError::SectionNotFound(SectionType::Data) => "couldn't find .data section in nano_core ELF"@,
            ParseError::SectionNotFound(SectionType::Bss) => "couldn't find .bss section in nano_core ELF"@,
            ParseError::UnreadableSymbolName => "couldn't read the name of a symbol in the nano_core ELF"@,
        }
    }

    /// The text of the error.
    pub fn message(&self) -> (text: &'static str)
        ensures
            text@ == self.message_text(),
    {
        match self {
            ParseError::ModuleNotFound => "Couldn't find nano_core module",
            ParseError::ModuleNotPageAligned => "nano_core module was not page aligned",
            ParseError::NoActivePageTable => "couldn't get kernel's active page table",
            ParseError::InteriorNul => "FromBytesWithNulError occurred when casting nano_core symbol memory to CStr",
            ParseError::InvalidUtf8 => "Utf8Error occurred when parsing nano_core symbols CStr",
            ParseError::SectionIndexNotFound(SectionType::Text) => "parse_nano_core_symbol_file(): couldn't find .text section index",
            ParseError::SectionIndexNotFound(SectionType::Rodata) => "parse_nano_core_symbol_file(): couldn't find .rodata section index",
            ParseError::SectionIndexNotFound(SectionType::Data) => "parse_nano_core_symbol_file(): couldn't find .data section index",
            ParseError::SectionIndexNotFound(SectionType::Bss) => "parse_nano_core_symbol_file(): couldn't find .bss section index",
            ParseError::MissingColumn(Column::Num) => "parse_nano_core_symbol_file(): couldn't get column 0 'Num'",
            ParseError::MissingColumn(Column::Value) => "parse_nano_core_symbol_file(): couldn't get column 1 'Value'",
            ParseError::MissingColumn(Column::Size) => "parse_nano_core_symbol_file(): couldn't get column 2 'Size'",
            ParseError::MissingColumn(Column::Type) => "parse_nano_core_symbol_file(): couldn't get column 3 'Type'",
            ParseError::MissingColumn(Column::Bind) => "parse_nano_core_symbol_file(): couldn't get column 4 'Bind'",
            ParseError::MissingColumn(Column::Vis) => "parse_nano_core_symbol_file(): couldn't get column 5 'Vis'",
            ParseError::MissingColumn(Column::Ndx) => "parse_nano_core_symbol_file(): couldn't get column 6 'Ndx'",
            ParseError::MissingColumn(Column::Name) => "parse_nano_core_symbol_file(): couldn't get column 7 'Name'",
            ParseError::MultipleHashSeparators => "parse_nano_core_symbol_file(): 'Name' column had multiple '#' characters, expected only one '#' as the hash separator!",
            ParseError::InvalidAddress => "parse_nano_core_symbol_file(): couldn't parse virtual address (value column)",
            ParseError::InvalidSize => "parse_nano_core_symbol_file(): couldn't parse size column",
            ParseError::NotCovered(SectionType::Text) => "nano_core text section wasn't covered by its mapped pages!",
            ParseError::NotCovered(SectionType::Rodata) => "nano_core rodata section wasn't covered by its mapped pages!",
            ParseError::NotCovered(SectionType::Data) => "nano_core data section wasn't covered by its mapped pages!",
            ParseError::NotCovered(SectionType::Bss) => "nano_core bss section wasn't covered by its mapped pages!",
            ParseError::NoSymbolTable => "cannot load nano_core: no symbol table found. Was file stripped?",
            ParseError::WrongSectionFlags(SectionType::Text) => ".text section had wrong flags!",
            ParseError::WrongSectionFlags(SectionType::Rodata) => ".rodata section had wrong flags!",
            ParseError::WrongSectionFlags(SectionType::Data) => ".data section had wrong flags!",
            ParseError::WrongSectionFlags(SectionType::Bss) => ".bss section had wrong flags!",
            ParseError::SectionNotFound(SectionType::Text) => "couldn't find .text section in nano_core ELF",
            ParseError::SectionNotFound(SectionType::Rodata) => "couldn't find .rodata section in nano_core ELF",
            ParseError::SectionNotFound(SectionType::Data) => "couldn't find .data section in nano_core ELF",
            ParseError::SectionNotFound(SectionType::Bss) => "couldn't find .bss section in nano_core ELF",
            ParseError::UnreadableSymbolName => "couldn't read the name of a symbol in the nano_core ELF",
        }
    }
}

} // verus!
