//! The element section: initializers for table contents, each naming a
//! table, an offset expression, and the function indices to place there, as
//! a length-framed vector.

use crate::constants::ELEMENT_SECTION;
use crate::encoder::{
    lemma_frame_splice, lemma_uleb128_len, lemma_uleb128_seq_skip, section_frame, seq_enc,
    uleb128, uleb128_seq, WasmEncode, WasmEncoder,
};
use crate::expression::Expression;
use crate::index::TableIndex;
use vstd::prelude::*;

verus! {

pub struct ElementSection(pub Vec<Element>);

pub struct Element {
    pub table_index: TableIndex,
    pub offset: Expression,
    pub initializer: Vec<u32>,
}

impl Element {
    /// An element segment for the given table, placed at the given offset,
    /// holding the given function indices.
    pub fn new(table_index: TableIndex, offset: Expression, initializer: Vec<u32>) -> (element:
        Element)
        ensures
            element.table_index == table_index,
            element.offset == offset,
            element.initializer == initializer,
    {
        Element { table_index, offset, initializer }
    }
}

impl WasmEncode for Element {
    open spec fn enc(&self) -> Seq<u8> {
        uleb128(self.table_index.0 as nat) + self.offset.enc() + uleb128(self.initializer@.len())
            + uleb128_seq(self.initializer@)
    }

    open spec fn wf(&self) -> bool {
        self.initializer@.len() <= u32::MAX
    }

    fn encode(&self, encoder: &mut WasmEncoder) -> (count: u32) {
        proof {
            assert(self.enc().len() == uleb128(self.table_index.0 as nat).len()
                + self.offset.enc().len() + uleb128(self.initializer@.len()).len() + uleb128_seq(
                self.initializer@,
            ).len());
        }
        let table_count = encoder.push_leb_u32(self.table_index.0);
        let offset_count = self.offset.encode(encoder);
        let mut byte_count = table_count + offset_count;
        byte_count = byte_count + encoder.push_leb_u32(self.initializer.len() as u32);
        let ghost mid = encoder@;
        let mut i: usize = 0;
        proof {
            assert(self.initializer@.skip(0) =~= self.initializer@);
        }
        while i < self.initializer.len()
            invariant
                i <= self.initializer@.len(),
                old(encoder)@.len() + self.enc().len() <= u32::MAX as int,
                self.enc().len() == (mid.len() - old(encoder)@.len()) + uleb128_seq(
                    self.initializer@,
                ).len(),
                encoder@ + uleb128_seq(self.initializer@.skip(i as int)) == mid + uleb128_seq(
                    self.initializer@,
                ),
                byte_count as int + old(encoder)@.len() == encoder@.len(),
                old(encoder)@.len() <= mid.len() <= encoder@.len(),
            decreases self.initializer@.len() - i,
        {
            proof {
                lemma_uleb128_seq_skip(self.initializer@, i as int);
                assert((encoder@ + uleb128_seq(self.initializer@.skip(i as int))).len() == (mid
                    + uleb128_seq(self.initializer@)).len());
                assert((uleb128(self.initializer@[i as int] as nat) + uleb128_seq(
                    self.initializer@.skip(i as int + 1),
                )).len() == uleb128(self.initializer@[i as int] as nat).len() + uleb128_seq(
                    self.initializer@.skip(i as int + 1),
                ).len());
            }
            let index_count = encoder.push_leb_u32(self.initializer[i]);
            byte_count = byte_count + index_count;
            proof {
                assert(encoder@ + uleb128_seq(self.initializer@.skip(i as int + 1)) =~= mid
                    + uleb128_seq(self.initializer@));
            }
            i = i + 1;
        }
        proof {
            assert(self.initializer@.skip(self.initializer@.len() as int) =~= Seq::<u32>::empty());
            assert(encoder@ =~= old(encoder)@ + self.enc());
        }
        byte_count
    }
}

impl ElementSection {
    /// The body of the section: the item count, then the encoded items.
    pub open spec fn content_enc(&self) -> Seq<u8> {
        uleb128(self.0@.len()) + seq_enc(self.0@)
    }
}

impl WasmEncode for ElementSection {
    open spec fn enc(&self) -> Seq<u8> {
        section_frame(ELEMENT_SECTION, self.content_enc())
    }

    open spec fn wf(&self) -> bool {
        self.0@.len() <= u32::MAX && self.0.wf()
    }

    fn encode(&self, encoder: &mut WasmEncoder) -> (count: u32) {
        let ghost pre = encoder@;
        let ghost content = uleb128(self.0@.len()) + seq_enc(self.0@);
        proof {
            lemma_uleb128_len(content.len());
        }
        encoder.push_u8(ELEMENT_SECTION);
        encoder.push_u8(0);
        let mut byte_count = encoder.push_leb_u32(self.0.len() as u32);
        byte_count = byte_count + self.0.encode(encoder);
        proof {
            assert(encoder@ =~= pre + seq![ELEMENT_SECTION] + seq![0u8] + content);
        }
        let length_count = encoder.write_length(byte_count);
        proof {
            lemma_frame_splice(pre, ELEMENT_SECTION, content);
            assert(encoder@ =~= pre + self.enc());
        }
        length_count + byte_count + 1
    }
}

} // verus!
