//! The data section: initializers for memory contents, each naming a
//! memory, an offset expression, and the raw bytes to place there, as a
//! length-framed vector.

use crate::constants::DATA_SECTION;
use crate::encoder::{
    lemma_frame_splice, lemma_uleb128_len, section_frame, seq_enc, uleb128, WasmEncode,
    WasmEncoder,
};
use crate::expression::Expression;
use crate::index::MemoryIndex;
use vstd::prelude::*;

verus! {

pub struct DataSection(pub Vec<Data>);

pub struct Data {
    pub memory_index: MemoryIndex,
    pub offset: Expression,
    pub initializer: Vec<u8>,
}

impl Data {
    /// A data segment for the given memory, placed at the given offset,
    /// holding the given bytes.
    pub fn new(memory_index: MemoryIndex, offset: Expression, initializer: Vec<u8>) -> (data: Data)
        ensures
            data.memory_index == memory_index,
            data.offset == offset,
            data.initializer == initializer,
    {
        Data { memory_index, offset, initializer }
    }
}

impl WasmEncode for Data {
    open spec fn enc(&self) -> Seq<u8> {
        uleb128(self.memory_index.0 as nat) + self.offset.enc() + uleb128(self.initializer@.len())
            + self.initializer@
    }

    open spec fn wf(&self) -> bool {
        self.initializer@.len() <= u32::MAX
    }

    fn encode(&self, encoder: &mut WasmEncoder) -> (count: u32) {
        proof {
            assert(self.enc().len() == uleb128(self.memory_index.0 as nat).len()
                + self.offset.enc().len() + uleb128(self.initializer@.len()).len()
                + self.initializer@.len());
        }
        let memory_count = encoder.push_leb_u32(self.memory_index.0);
        let offset_count = self.offset.encode(encoder);
        let mut byte_count = memory_count + offset_count;
        byte_count = byte_count + encoder.push_leb_u32(self.initializer.len() as u32);
        let ghost mid = encoder@;
        let mut i: usize = 0;
        while i < self.initializer.len()
            invariant
                i <= self.initializer@.len(),
                old(encoder)@.len() + self.enc().len() <= u32::MAX as int,
                self.enc().len() == (mid.len() - old(encoder)@.len())
                    + self.initializer@.len(),
                encoder@ == mid + self.initializer@.take(i as int),
                byte_count as int + old(encoder)@.len() == encoder@.len(),
                old(encoder)@.len() <= mid.len() <= encoder@.len(),
            decreases self.initializer@.len() - i,
        {
            let byte_count_one = encoder.push_u8(self.initializer[i]);
            byte_count = byte_count + byte_count_one;
            proof {
                assert(mid + self.initializer@.take(i as int) + seq![self.initializer@[i as int]]
                    =~= mid + self.initializer@.take(i as int + 1));
            }
            i = i + 1;
        }
        proof {
            assert(self.initializer@.take(self.initializer@.len() as int) =~= self.initializer@);
            assert(encoder@ =~= old(encoder)@ + self.enc());
        }
        byte_count
    }
}

impl DataSection {
    /// The body of the section: the item count, then the encoded items.
    pub open spec fn content_enc(&self) -> Seq<u8> {
        uleb128(self.0@.len()) + seq_enc(self.0@)
    }
}

impl WasmEncode for DataSection {
    open spec fn enc(&self) -> Seq<u8> {
        section_frame(DATA_SECTION, self.content_enc())
    }

    open spec fn wf(&self) -> bool {
        self.0@.len() <= u32::MAX && self.0.wf()
    }

    fn encode(&self, encoder: &mut WasmEncoder) -> (count: u32) {
        let ghost pre = encoder@;
        let ghost content = uleb128(self.0@.len()) + seq_enc(self.0@);
        proof {
            lemma_uleb128_len(content.len());
        }
        encoder.push_u8(DATA_SECTION);
        encoder.push_u8(0);
        let mut byte_count = encoder.push_leb_u32(self.0.len() as u32);
        byte_count = byte_count + self.0.encode(encoder);
        proof {
            assert(encoder@ =~= pre + seq![DATA_SECTION] + seq![0u8] + content);
        }
        let length_count = encoder.write_length(byte_count);
        proof {
            lemma_frame_splice(pre, DATA_SECTION, content);
            assert(encoder@ =~= pre + self.enc());
        }
        length_count + byte_count + 1
    }
}

} // verus!
