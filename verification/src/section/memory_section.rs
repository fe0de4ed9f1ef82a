//! The memory section: the memories defined by the module, each just its
//! size limits, as a length-framed vector.

use crate::constants::MEMORY_SECTION;
use crate::encoder::{
    lemma_frame_splice, lemma_uleb128_len, section_frame, seq_enc, uleb128, WasmEncode,
    WasmEncoder,
};
use crate::limits::Limits;
use vstd::prelude::*;

verus! {

pub struct MemorySection(pub Vec<Memory>);

pub struct Memory {
    pub limits: Limits,
}

impl Memory {
    /// A memory with the given size limits.
    pub fn new(limits: Limits) -> (memory: Memory)
        ensures
            memory.limits == limits,
    {
        Memory { limits }
    }
}

impl WasmEncode for Memory {
    open spec fn enc(&self) -> Seq<u8> {
        self.limits.enc()
    }

    fn encode(&self, encoder: &mut WasmEncoder) -> (count: u32) {
        self.limits.encode(encoder)
    }
}

impl MemorySection {
    /// The body of the section: the item count, then the encoded items.
    pub open spec fn content_enc(&self) -> Seq<u8> {
        uleb128(self.0@.len()) + seq_enc(self.0@)
    }
}

impl WasmEncode for MemorySection {
    open spec fn enc(&self) -> Seq<u8> {
        section_frame(MEMORY_SECTION, self.content_enc())
    }

    open spec fn wf(&self) -> bool {
        self.0@.len() <= u32::MAX && self.0.wf()
    }

    fn encode(&self, encoder: &mut WasmEncoder) -> (count: u32) {
        let ghost pre = encoder@;
        let ghost content = uleb128(self.0@.len()) + seq_enc(self.0@);
        proof {
            lemma_uleb128_len(content.len());
        }
        encoder.push_u8(MEMORY_SECTION);
        encoder.push_u8(0);
        let mut byte_count = encoder.push_leb_u32(self.0.len() as u32);
        byte_count = byte_count + self.0.encode(encoder);
        proof {
            assert(encoder@ =~= pre + seq![MEMORY_SECTION] + seq![0u8] + content);
        }
        let length_count = encoder.write_length(byte_count);
        proof {
            lemma_frame_splice(pre, MEMORY_SECTION, content);
            assert(encoder@ =~= pre + self.enc());
        }
        length_count + byte_count + 1
    }
}

} // verus!
