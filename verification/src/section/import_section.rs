//! The import section: the items the module requires from its host, each a
//! module name, an item name, and a descriptor of what is imported, as a
//! length-framed vector.

use crate::constants::{CONST, GLOBAL_TYPE, IMPORT_SECTION, MEMORY_TYPE, TABLE_TYPE, TYPE_INDEX, VAR};
use crate::encoder::{
    lemma_frame_splice, lemma_uleb128_len, name_enc, section_frame, seq_enc, uleb128, WasmEncode,
    WasmEncoder,
};
use crate::function_type::ValueType;
use crate::section::memory_section::Memory;
use crate::section::table_section::Table;
use vstd::prelude::*;

verus! {

pub struct ImportSection(pub Vec<Import>);

pub struct Import {
    pub module_name: String,
    pub name: String,
    pub descriptor: ImportDescriptor,
}

/// What an import brings in: a function of a given type index, a table, a
/// memory, or a global of a given value type and mutability.  Encodes as a
/// one-byte kind tag followed by the descriptor's payload.
pub enum ImportDescriptor {
    TypeIndex(u32),
    TableType(Table),
    MemoryType(Memory),
    GlobalType(ValueType, GlobalMutability),
}

/// Whether an imported global may be written.  Encodes as the one-byte
/// mutability flag of the global type.
pub enum GlobalMutability {
    Const,
    Var,
}

impl WasmEncode for GlobalMutability {
    open spec fn enc(&self) -> Seq<u8> {
        match self {
            GlobalMutability::Const => seq![CONST],
            GlobalMutability::Var => seq![VAR],
        }
    }

    fn encode(&self, encoder: &mut WasmEncoder) -> (count: u32) {
        match self {
            GlobalMutability::Const => encoder.push_u8(CONST),
            GlobalMutability::Var => encoder.push_u8(VAR),
        }
    }
}

impl Import {
    /// An import of the given module name, item name, and descriptor.
    pub fn new(module_name: &str, name: &str, descriptor: ImportDescriptor) -> (import: Import)
        ensures
            import.module_name@ == module_name@,
            import.name@ == name@,
            import.descriptor == descriptor,
    {
        Import { module_name: module_name.to_owned(), name: name.to_owned(), descriptor }
    }
}

impl WasmEncode for ImportDescriptor {
    open spec fn enc(&self) -> Seq<u8> {
        match self {
            ImportDescriptor::TypeIndex(type_index) => seq![TYPE_INDEX] + uleb128(
                *type_index as nat,
            ),
            ImportDescriptor::TableType(table) => seq![TABLE_TYPE] + table.enc(),
            ImportDescriptor::MemoryType(memory) => seq![MEMORY_TYPE] + memory.enc(),
            ImportDescriptor::GlobalType(value_type, mutability) => seq![GLOBAL_TYPE]
                + value_type.enc() + mutability.enc(),
        }
    }

    fn encode(&self, encoder: &mut WasmEncoder) -> (count: u32) {
        match self {
            ImportDescriptor::TypeIndex(type_index) => {
                let tag_count = encoder.push_u8(TYPE_INDEX);
                let index_count = encoder.push_leb_u32(*type_index);
                proof {
                    assert(encoder@ =~= old(encoder)@ + self.enc());
                }
                tag_count + index_count
            },
            ImportDescriptor::TableType(table) => {
                let tag_count = encoder.push_u8(TABLE_TYPE);
                let table_count = table.encode(encoder);
                proof {
                    assert(encoder@ =~= old(encoder)@ + self.enc());
                }
                tag_count + table_count
            },
            ImportDescriptor::MemoryType(memory) => {
                let tag_count = encoder.push_u8(MEMORY_TYPE);
                let memory_count = memory.encode(encoder);
                proof {
                    assert(encoder@ =~= old(encoder)@ + self.enc());
                }
                tag_count + memory_count
            },
            ImportDescriptor::GlobalType(value_type, mutability) => {
                proof {
                    assert(self.enc().len() == 1 + value_type.enc().len()
                        + mutability.enc().len());
                }
                let tag_count = encoder.push_u8(GLOBAL_TYPE);
                let type_count = value_type.encode(encoder);
                let mutability_count = mutability.encode(encoder);
                proof {
                    assert(encoder@ =~= old(encoder)@ + self.enc());
                }
                tag_count + type_count + mutability_count
            },
        }
    }
}

impl WasmEncode for Import {
    open spec fn enc(&self) -> Seq<u8> {
        name_enc(self.module_name@) + name_enc(self.name@) + self.descriptor.enc()
    }

    fn encode(&self, encoder: &mut WasmEncoder) -> (count: u32) {
        proof {
            assert(self.enc().len() == name_enc(self.module_name@).len() + name_enc(
                self.name@,
            ).len() + self.descriptor.enc().len());
        }
        let module_name_count = encoder.push_str(self.module_name.as_str());
        let name_count = encoder.push_str(self.name.as_str());
        let descriptor_count = self.descriptor.encode(encoder);
        proof {
            assert(encoder@ =~= old(encoder)@ + self.enc());
        }
        module_name_count + name_count + descriptor_count
    }
}

impl ImportSection {
    /// The body of the section: the item count, then the encoded items.
    pub open spec fn content_enc(&self) -> Seq<u8> {
        uleb128(self.0@.len()) + seq_enc(self.0@)
    }
}

impl WasmEncode for ImportSection {
    open spec fn enc(&self) -> Seq<u8> {
        section_frame(IMPORT_SECTION, self.content_enc())
    }

    open spec fn wf(&self) -> bool {
        self.0@.len() <= u32::MAX && self.0.wf()
    }

    fn encode(&self, encoder: &mut WasmEncoder) -> (count: u32) {
        let ghost pre = encoder@;
        let ghost content = uleb128(self.0@.len()) + seq_enc(self.0@);
        proof {
            lemma_uleb128_len(content.len());
        }
        encoder.push_u8(IMPORT_SECTION);
        encoder.push_u8(0);
        let mut byte_count = encoder.push_leb_u32(self.0.len() as u32);
        byte_count = byte_count + self.0.encode(encoder);
        proof {
            assert(encoder@ =~= pre + seq![IMPORT_SECTION] + seq![0u8] + content);
        }
        let length_count = encoder.write_length(byte_count);
        proof {
            lemma_frame_splice(pre, IMPORT_SECTION, content);
            assert(encoder@ =~= pre + self.enc());
        }
        length_count + byte_count + 1
    }
}

} // verus!
