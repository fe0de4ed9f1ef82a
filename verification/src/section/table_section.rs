//! The table section: the tables defined by the module, each an element
//! reference type and size limits, as a length-framed vector.

use crate::constants::{FUNCTION_REFERENCE, TABLE_SECTION};
use crate::encoder::{
    lemma_frame_splice, lemma_uleb128_len, section_frame, seq_enc, uleb128, WasmEncode,
    WasmEncoder,
};
use crate::limits::Limits;
use vstd::prelude::*;

verus! {

pub struct TableSection(pub Vec<Table>);

/// The format defines a single element type today, so the encoder emits its
/// tag without inspecting the field.
pub struct Table {
    pub element_type: ElementType,
    pub limits: Limits,
}

pub enum ElementType {
    FunctionReference,
}

impl Table {
    /// A table with the given element type and size limits.
    pub fn new(element_type: ElementType, limits: Limits) -> (table: Table)
        ensures
            table.element_type == element_type,
            table.limits == limits,
    {
        Table { element_type, limits }
    }
}

impl WasmEncode for Table {
    open spec fn enc(&self) -> Seq<u8> {
        seq![FUNCTION_REFERENCE] + self.limits.enc()
    }

    fn encode(&self, encoder: &mut WasmEncoder) -> (count: u32) {
        let tag_count = encoder.push_u8(FUNCTION_REFERENCE);
        let limits_count = self.limits.encode(encoder);
        proof {
            assert(encoder@ =~= old(encoder)@ + self.enc());
        }
        tag_count + limits_count
    }
}

impl TableSection {
    /// The body of the section: the item count, then the encoded items.
    pub open spec fn content_enc(&self) -> Seq<u8> {
        uleb128(self.0@.len()) + seq_enc(self.0@)
    }
}

impl WasmEncode for TableSection {
    open spec fn enc(&self) -> Seq<u8> {
        section_frame(TABLE_SECTION, self.content_enc())
    }

    open spec fn wf(&self) -> bool {
        self.0@.len() <= u32::MAX && self.0.wf()
    }

    fn encode(&self, encoder: &mut WasmEncoder) -> (count: u32) {
        let ghost pre = encoder@;
        let ghost content = uleb128(self.0@.len()) + seq_enc(self.0@);
        proof {
            lemma_uleb128_len(content.len());
        }
        encoder.push_u8(TABLE_SECTION);
        encoder.push_u8(0);
        let mut byte_count = encoder.push_leb_u32(self.0.len() as u32);
        byte_count = byte_count + self.0.encode(encoder);
        proof {
            assert(encoder@ =~= pre + seq![TABLE_SECTION] + seq![0u8] + content);
        }
        let length_count = encoder.write_length(byte_count);
        proof {
            lemma_frame_splice(pre, TABLE_SECTION, content);
            assert(encoder@ =~= pre + self.enc());
        }
        length_count + byte_count + 1
    }
}

} // verus!
