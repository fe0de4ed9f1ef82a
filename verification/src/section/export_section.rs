//! The export section: the names the module makes visible, each a name
//! string followed by a descriptor tag and the index of the exported item,
//! as a length-framed vector.

use crate::constants::{EXPORT_SECTION, FUNCTION_INDEX, GLOBAL_INDEX, MEMORY_INDEX, TABLE_INDEX};
use crate::encoder::{
    lemma_frame_splice, lemma_uleb128_len, name_enc, section_frame, seq_enc, uleb128, WasmEncode,
    WasmEncoder,
};
use crate::index::{FunctionIndex, GlobalIndex, MemoryIndex, TableIndex};
use vstd::prelude::*;

verus! {

pub struct ExportSection(pub Vec<Export>);

pub struct Export {
    pub name: String,
    pub descriptor: ExportDescriptor,
}

/// What an export points at: a function, table, memory, or global, named by
/// its index.  Encodes as a one-byte kind tag followed by the LEB128 index.
pub enum ExportDescriptor {
    FunctionIndex(FunctionIndex),
    TableIndex(TableIndex),
    MemoryIndex(MemoryIndex),
    GlobalIndex(GlobalIndex),
}

impl Export {
    /// An export of the given name and descriptor.
    pub fn new(name: &str, descriptor: ExportDescriptor) -> (export: Export)
        ensures
            export.name@ == name@,
            export.descriptor == descriptor,
    {
        Export { name: name.to_owned(), descriptor }
    }
}

impl WasmEncode for ExportDescriptor {
    open spec fn enc(&self) -> Seq<u8> {
        match self {
            ExportDescriptor::FunctionIndex(function_index) => seq![FUNCTION_INDEX] + uleb128(
                function_index.0 as nat,
            ),
            ExportDescriptor::TableIndex(table_index) => seq![TABLE_INDEX] + uleb128(
                table_index.0 as nat,
            ),
            ExportDescriptor::MemoryIndex(memory_index) => seq![MEMORY_INDEX] + uleb128(
                memory_index.0 as nat,
            ),
            ExportDescriptor::GlobalIndex(global_index) => seq![GLOBAL_INDEX] + uleb128(
                global_index.0 as nat,
            ),
        }
    }

    fn encode(&self, encoder: &mut WasmEncoder) -> (count: u32) {
        let (tag, index) = match self {
            ExportDescriptor::FunctionIndex(function_index) => (FUNCTION_INDEX, function_index.0),
            ExportDescriptor::TableIndex(table_index) => (TABLE_INDEX, table_index.0),
            ExportDescriptor::MemoryIndex(memory_index) => (MEMORY_INDEX, memory_index.0),
            ExportDescriptor::GlobalIndex(global_index) => (GLOBAL_INDEX, global_index.0),
        };
        let tag_count = encoder.push_u8(tag);
        let index_count = encoder.push_leb_u32(index);
        proof {
            assert(encoder@ =~= old(encoder)@ + self.enc());
        }
        tag_count + index_count
    }
}

impl WasmEncode for Export {
    open spec fn enc(&self) -> Seq<u8> {
        name_enc(self.name@) + self.descriptor.enc()
    }

    fn encode(&self, encoder: &mut WasmEncoder) -> (count: u32) {
        proof {
            assert(self.enc().len() == name_enc(self.name@).len() + self.descriptor.enc().len());
        }
        let name_count = encoder.push_str(self.name.as_str());
        let descriptor_count = self.descriptor.encode(encoder);
        proof {
            assert(encoder@ =~= old(encoder)@ + self.enc());
        }
        name_count + descriptor_count
    }
}

impl ExportSection {
    /// The body of the section: the item count, then the encoded items.
    pub open spec fn content_enc(&self) -> Seq<u8> {
        uleb128(self.0@.len()) + seq_enc(self.0@)
    }
}

impl WasmEncode for ExportSection {
    open spec fn enc(&self) -> Seq<u8> {
        section_frame(EXPORT_SECTION, self.content_enc())
    }

    open spec fn wf(&self) -> bool {
        self.0@.len() <= u32::MAX && self.0.wf()
    }

    fn encode(&self, encoder: &mut WasmEncoder) -> (count: u32) {
        let ghost pre = encoder@;
        let ghost content = uleb128(self.0@.len()) + seq_enc(self.0@);
        proof {
            lemma_uleb128_len(content.len());
        }
        encoder.push_u8(EXPORT_SECTION);
        encoder.push_u8(0);
        let mut byte_count = encoder.push_leb_u32(self.0.len() as u32);
        byte_count = byte_count + self.0.encode(encoder);
        proof {
            assert(encoder@ =~= pre + seq![EXPORT_SECTION] + seq![0u8] + content);
        }
        let length_count = encoder.write_length(byte_count);
        proof {
            lemma_frame_splice(pre, EXPORT_SECTION, content);
            assert(encoder@ =~= pre + self.enc());
        }
        length_count + byte_count + 1
    }
}

} // verus!
