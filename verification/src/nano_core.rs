//! Loading the metadata of the `nano_core`: the part of the kernel that is
//! already in memory and running when the loader starts.
//!
//! Nothing is loaded or moved. The module that describes the image is mapped
//! for reading, parsed, and turned into a [`LoadedCrate`] that takes over the
//! three page ranges of the running image. Whatever goes wrong, those three
//! ranges are handed back: they hold the code that is executing.

use vstd::prelude::*;
use crate::binary::{parse_nano_core_binary, parsed_binary, ElfImage, ElfImageInfo};
use crate::error::ParseError;
use crate::memory::{address_is_page_aligned, MappedPages, ModuleArea, ModuleInfo, PAGE_SIZE};
use crate::metadata::{loaded_as, LoadedCrate, PageSet, SectionInfo};
use crate::symbol_file::{parse_nano_core_symbol_file, parsed_symbol_file};

verus! {

/// Whether the `nano_core` is described by its symbol file by default,
/// rather than by its ELF object.
pub const PARSE_NANO_CORE_SYMBOL_FILE: bool = true;

/// The two forms in which the `nano_core` image can be described.
#[derive(Clone, Copy, Debug, PartialEq, Eq, Structural)]
pub enum ParseMode {
    /// A textual dump of section headers and symbol table.
    SymbolFile,
    /// The ELF object itself.
    Binary,
}

/// The mapping that has to be set up to read the module.
#[derive(Clone, Copy, Debug, PartialEq, Eq, Structural)]
pub struct MappingRequest {
    /// The physical address at which the module starts.
    pub start_address: usize,
    /// The number of bytes to map.
    pub size: usize,
    /// Whether the mapping has to be writable.
    pub writable: bool,
}

/// What forbids reading the module, if anything: that there is none, that
/// it does not start at a page boundary, or that the kernel has no active
/// page table, in this order.
pub open spec fn module_obstacle(module: Option<ModuleInfo>, page_table_active: bool) -> Option<
    ParseError,
> {
    match module {
        None => Some(ParseError::ModuleNotFound),
        Some(module) => if module.start_address % PAGE_SIZE != 0 {
            Some(ParseError::ModuleNotPageAligned)
        } else if !page_table_active {
            Some(ParseError::NoActivePageTable)
        } else {
            None
        },
    }
}

/// The mapping that reading `module` in the given mode calls for, or the
/// reason why it cannot be read at all.
///
/// The symbol file is mapped with one byte more than it has, and writable,
/// so that its text can be ended with a NUL. The ELF object is mapped as it
/// is, for reading only.
pub open spec fn scratch_mapping(
    module: Option<ModuleInfo>,
    page_table_active: bool,
    mode: ParseMode,
) -> Result<MappingRequest, ParseError> {
    match module_obstacle(module, page_table_active) {
        Some(error) => Err(error),
        None => match mode {
            ParseMode::SymbolFile => Ok(
                MappingRequest {
                    start_address: module.unwrap().start_address,
                    size: (module.unwrap().size + 1) as usize,
                    writable: true,
                },
            ),
            ParseMode::Binary => Ok(
                MappingRequest {
                    start_address: module.unwrap().start_address,
                    size: module.unwrap().size,
                    writable: false,
                },
            ),
        },
    }
}

/// The view of an optional module.
pub open spec fn optional_module(module: Option<ModuleArea>) -> Option<ModuleInfo> {
    match module {
        Some(module) => Some(module@),
        None => None,
    }
}

/// The mode in which the `nano_core` is read unless told otherwise.
pub fn default_parse_mode() -> (mode: ParseMode)
    ensures
        mode == if PARSE_NANO_CORE_SYMBOL_FILE {
            ParseMode::SymbolFile
        } else {
            ParseMode::Binary
        },
{
    if PARSE_NANO_CORE_SYMBOL_FILE {
        ParseMode::SymbolFile
    } else {
        ParseMode::Binary
    }
}

/// The name under which the module of the `nano_core` is registered: the
/// prefix of kernel crates, then `nano_core`.
pub fn nano_core_module_name() -> (name: &'static str)
    ensures
        name@ == "k#nano_core"@,
{
    "k#nano_core"
}

/// Decides how the module has to be mapped for reading, given what the
/// module registry returned for it and whether the kernel has an active
/// page table.
pub fn plan_scratch_mapping(
    module: &Option<ModuleArea>,
    page_table_active: bool,
    mode: ParseMode,
) -> (request: Result<MappingRequest, ParseError>)
    requires
        mode == ParseMode::SymbolFile && *module is Some ==> module.unwrap()@.size < usize::MAX,
    ensures
        request == scratch_mapping(optional_module(*module), page_table_active, mode),
{
    let module = match module {
        Some(module) => module,
        None => {
            return Err(ParseError::ModuleNotFound);
        },
    };
    if !address_is_page_aligned(module.start_address()) {
        return Err(ParseError::ModuleNotPageAligned);
    }
    if !page_table_active {
        return Err(ParseError::NoActivePageTable);
    }
    match mode {
        ParseMode::SymbolFile => Ok(
            MappingRequest {
                start_address: module.start_address(),
                // one more byte, for the NUL that ends the text
                size: module.size() + 1,
                writable: true,
            },
        ),
        ParseMode::Binary => Ok(
            MappingRequest {
                start_address: module.start_address(),
                size: module.size(),
                writable: false,
            },
        ),
    }
}

/// What an image of the `nano_core` looks like in the abstract.
pub enum NanoCoreImageInfo {
    SymbolFile(Seq<u8>),
    Binary(ElfImageInfo),
}

impl NanoCoreImageInfo {
    /// The mode that the image is read in.
    pub open spec fn mode(self) -> ParseMode {
        match self {
            NanoCoreImageInfo::SymbolFile(_) => ParseMode::SymbolFile,
            NanoCoreImageInfo::Binary(_) => ParseMode::Binary,
        }
    }

    /// Whether the image is fit to be read. The bytes of a symbol file hold
    /// at least the one byte that is there for the NUL.
    pub open spec fn readable(self) -> bool {
        match self {
            NanoCoreImageInfo::SymbolFile(bytes) => bytes.len() > 0,
            NanoCoreImageInfo::Binary(_) => true,
        }
    }

    /// The sections that the image describes within `pages`.
    pub open spec fn sections(self, pages: PageSet) -> Result<
        Seq<(usize, SectionInfo)>,
        ParseError,
    > {
        match self {
            NanoCoreImageInfo::SymbolFile(bytes) => parsed_symbol_file(
                bytes.update(bytes.len() - 1, 0u8),
                pages,
            ),
            NanoCoreImageInfo::Binary(image) => parsed_binary(image, pages),
        }
    }
}

/// The mapped module, in one of its two forms.
#[derive(Debug)]
pub enum NanoCoreImage {
    /// The bytes of the symbol file, and one more.
    SymbolFile(Vec<u8>),
    /// The description of the ELF object.
    Binary(ElfImage),
}

impl View for NanoCoreImage {
    type V = NanoCoreImageInfo;

    open spec fn view(&self) -> NanoCoreImageInfo {
        match self {
            NanoCoreImage::SymbolFile(bytes) => NanoCoreImageInfo::SymbolFile(bytes@),
            NanoCoreImage::Binary(image) => NanoCoreImageInfo::Binary(image@),
        }
    }
}

/// What loading the `nano_core` comes to: the errors that forbid reading the
/// module come first, then what the image itself gives.
pub open spec fn nano_core_sections(
    module: Option<ModuleInfo>,
    page_table_active: bool,
    image: Option<NanoCoreImageInfo>,
    pages: PageSet,
) -> Result<Seq<(usize, SectionInfo)>, ParseError>
    recommends
        module_obstacle(module, page_table_active) is None ==> image is Some,
{
    match module_obstacle(module, page_table_active) {
        Some(error) => Err(error),
        None => image.unwrap().sections(pages),
    }
}

/// The view of an optional image.
pub open spec fn optional_image(image: Option<NanoCoreImage>) -> Option<NanoCoreImageInfo> {
    match image {
        Some(image) => Some(image@),
        None => None,
    }
}

/// Parses the module that describes the already loaded and running
/// `nano_core`, and builds the metadata of its crate.
///
/// `module` is what the registry returned for [`nano_core_module_name`], and
/// `image` is what was mapped for it as [`plan_scratch_mapping`] asked, or
/// `None` where it asked for nothing. The crate takes over the three page
/// ranges. If an error occurs, it comes with `text_pages`, `rodata_pages` and
/// `data_pages`: they hold the running code and must not be lost.
pub fn parse_nano_core(
    module: Option<ModuleArea>,
    page_table_active: bool,
    image: Option<NanoCoreImage>,
    text_pages: MappedPages,
    rodata_pages: MappedPages,
    data_pages: MappedPages,
) -> (loaded: Result<LoadedCrate, (ParseError, [MappedPages; 3])>)
    requires
        module_obstacle(optional_module(module), page_table_active) is None ==> image is Some
            && image.unwrap()@.readable(),
    ensures
        loaded_as(
            loaded,
            nano_core_sections(
                optional_module(module),
                page_table_active,
                optional_image(image),
                PageSet { text: text_pages@, rodata: rodata_pages@, data: data_pages@ },
            ),
            module.unwrap()@,
            PageSet { text: text_pages@, rodata: rodata_pages@, data: data_pages@ },
        ),
{
    let module = match module {
        Some(module) => module,
        None => {
            return Err((ParseError::ModuleNotFound, [text_pages, rodata_pages, data_pages]));
        },
    };
    if !address_is_page_aligned(module.start_address()) {
        return Err((ParseError::ModuleNotPageAligned, [text_pages, rodata_pages, data_pages]));
    }
    if !page_table_active {
        return Err((ParseError::NoActivePageTable, [text_pages, rodata_pages, data_pages]));
    }
    // the module can be read, so the caller has mapped it
    match image.unwrap() {
        NanoCoreImage::SymbolFile(mut bytes) => parse_nano_core_symbol_file(
            &mut bytes,
            module,
            text_pages,
            rodata_pages,
            data_pages,
        ),
        NanoCoreImage::Binary(image) => parse_nano_core_binary(
            &image,
            module,
            text_pages,
            rodata_pages,
            data_pages,
        ),
    }
}

} // verus!
