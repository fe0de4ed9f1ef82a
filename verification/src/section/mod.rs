//! The eleven section kinds of the binary format and the tagged union over
//! them.  Every section encodes as a one-byte id followed by a
//! length-framed body; the module encoder emits sections in the canonical
//! order in which the caller supplies them.

use crate::constants::{
    CODE_SECTION, DATA_SECTION, ELEMENT_SECTION, EXPORT_SECTION, FUNCTION_SECTION,
    GLOBAL_SECTION, IMPORT_SECTION, MEMORY_SECTION, START_SECTION, TABLE_SECTION, TYPE_SECTION,
};
use crate::encoder::{section_frame, WasmEncode, WasmEncoder};
use crate::section::code_section::CodeSection;
use crate::section::data_section::DataSection;
use crate::section::element_section::ElementSection;
use crate::section::export_section::ExportSection;
use crate::section::function_section::FunctionSection;
use crate::section::global_section::GlobalSection;
use crate::section::import_section::ImportSection;
use crate::section::memory_section::MemorySection;
use crate::section::start_section::StartSection;
use crate::section::table_section::TableSection;
use crate::section::type_section::TypeSection;
use vstd::prelude::*;

pub mod code_section;
pub mod data_section;
pub mod element_section;
pub mod export_section;
pub mod function_section;
pub mod global_section;
pub mod import_section;
pub mod memory_section;
pub mod start_section;
pub mod table_section;
pub mod type_section;

verus! {

/// One section of a module, of whichever kind.
pub enum Section {
    TypeSection(TypeSection),
    ImportSection(ImportSection),
    FunctionSection(FunctionSection),
    TableSection(TableSection),
    MemorySection(MemorySection),
    GlobalSection(GlobalSection),
    ExportSection(ExportSection),
    StartSection(StartSection),
    ElementSection(ElementSection),
    CodeSection(CodeSection),
    DataSection(DataSection),
}

impl Section {
    /// The one-byte id that introduces this section's kind on the wire.
    pub open spec fn id(&self) -> u8 {
        match self {
            Section::TypeSection(_) => TYPE_SECTION,
            Section::ImportSection(_) => IMPORT_SECTION,
            Section::FunctionSection(_) => FUNCTION_SECTION,
            Section::TableSection(_) => TABLE_SECTION,
            Section::MemorySection(_) => MEMORY_SECTION,
            Section::GlobalSection(_) => GLOBAL_SECTION,
            Section::ExportSection(_) => EXPORT_SECTION,
            Section::StartSection(_) => START_SECTION,
            Section::ElementSection(_) => ELEMENT_SECTION,
            Section::CodeSection(_) => CODE_SECTION,
            Section::DataSection(_) => DATA_SECTION,
        }
    }

    /// The bytes framed by this section's length field.
    pub open spec fn content_enc(&self) -> Seq<u8> {
        match self {
            Section::TypeSection(section) => section.content_enc(),
            Section::ImportSection(section) => section.content_enc(),
            Section::FunctionSection(section) => section.content_enc(),
            Section::TableSection(section) => section.content_enc(),
            Section::MemorySection(section) => section.content_enc(),
            Section::GlobalSection(section) => section.content_enc(),
            Section::ExportSection(section) => section.content_enc(),
            Section::StartSection(section) => section.content_enc(),
            Section::ElementSection(section) => section.content_enc(),
            Section::CodeSection(section) => section.content_enc(),
            Section::DataSection(section) => section.content_enc(),
        }
    }
}

/// Every section kind, whatever its contents, encodes as a length-framed
/// region: its id byte, the unsigned LEB128 length of its content, and the
/// content itself.  Together with
/// [`crate::encoder::lemma_section_frame_length`] this says that the length
/// field of every encoded section decodes to exactly the byte length of the
/// content that follows it.
pub proof fn lemma_section_is_framed(section: &Section)
    ensures
        section.enc() == section_frame(section.id(), section.content_enc()),
{
}

impl WasmEncode for Section {
    open spec fn enc(&self) -> Seq<u8> {
        match self {
            Section::TypeSection(section) => section.enc(),
            Section::ImportSection(section) => section.enc(),
            Section::FunctionSection(section) => section.enc(),
            Section::TableSection(section) => section.enc(),
            Section::MemorySection(section) => section.enc(),
            Section::GlobalSection(section) => section.enc(),
            Section::ExportSection(section) => section.enc(),
            Section::StartSection(section) => section.enc(),
            Section::ElementSection(section) => section.enc(),
            Section::CodeSection(section) => section.enc(),
            Section::DataSection(section) => section.enc(),
        }
    }

    open spec fn wf(&self) -> bool {
        match self {
            Section::TypeSection(section) => section.wf(),
            Section::ImportSection(section) => section.wf(),
            Section::FunctionSection(section) => section.wf(),
            Section::TableSection(section) => section.wf(),
            Section::MemorySection(section) => section.wf(),
            Section::GlobalSection(section) => section.wf(),
            Section::ExportSection(section) => section.wf(),
            Section::StartSection(section) => section.wf(),
            Section::ElementSection(section) => section.wf(),
            Section::CodeSection(section) => section.wf(),
            Section::DataSection(section) => section.wf(),
        }
    }

    fn encode(&self, encoder: &mut WasmEncoder) -> (count: u32) {
        match self {
            Section::TypeSection(section) => section.encode(encoder),
            Section::ImportSection(section) => section.encode(encoder),
            Section::FunctionSection(section) => section.encode(encoder),
            Section::TableSection(section) => section.encode(encoder),
            Section::MemorySection(section) => section.encode(encoder),
            Section::GlobalSection(section) => section.encode(encoder),
            Section::ExportSection(section) => section.encode(encoder),
            Section::StartSection(section) => section.encode(encoder),
            Section::ElementSection(section) => section.encode(encoder),
            Section::CodeSection(section) => section.encode(encoder),
            Section::DataSection(section) => section.encode(encoder),
        }
    }
}

} // verus!
