//! The function section: for each function of the module, the index of its
//! type in the type section, as a length-framed vector of LEB128 indices.

use crate::constants::FUNCTION_SECTION;
use crate::encoder::{
    lemma_frame_splice, lemma_uleb128_len, lemma_uleb128_seq_skip, section_frame, uleb128,
    uleb128_seq, WasmEncode, WasmEncoder,
};
use crate::index::TypeIndex;
use vstd::prelude::*;

verus! {

pub struct FunctionSection(pub Vec<TypeIndex>);

/// The numeric values of a sequence of type indices.
pub open spec fn type_index_values(indices: Seq<TypeIndex>) -> Seq<u32> {
    indices.map_values(|index: TypeIndex| index.0)
}

impl FunctionSection {
    /// The body of the section: the item count, then the encoded items.
    pub open spec fn content_enc(&self) -> Seq<u8> {
        uleb128(self.0@.len()) + uleb128_seq(type_index_values(self.0@))
    }
}

impl WasmEncode for FunctionSection {
    open spec fn enc(&self) -> Seq<u8> {
        section_frame(FUNCTION_SECTION, self.content_enc())
    }

    open spec fn wf(&self) -> bool {
        self.0@.len() <= u32::MAX
    }

    fn encode(&self, encoder: &mut WasmEncoder) -> (count: u32) {
        let ghost pre = encoder@;
        let ghost values = type_index_values(self.0@);
        let ghost content = uleb128(self.0@.len()) + uleb128_seq(values);
        proof {
            lemma_uleb128_len(content.len());
        }
        encoder.push_u8(FUNCTION_SECTION);
        encoder.push_u8(0);
        let mut byte_count = encoder.push_leb_u32(self.0.len() as u32);
        let ghost mid = encoder@;
        let mut i: usize = 0;
        proof {
            assert(values.skip(0) =~= values);
        }
        while i < self.0.len()
            invariant
                i <= self.0@.len(),
                values == type_index_values(self.0@),
                content == uleb128(self.0@.len()) + uleb128_seq(values),
                pre.len() + (seq![FUNCTION_SECTION] + content).len() + 1 <= u32::MAX as int,
                mid == pre + seq![FUNCTION_SECTION] + seq![0u8] + uleb128(self.0@.len()),
                encoder@ + uleb128_seq(values.skip(i as int)) == mid + uleb128_seq(values),
                byte_count as int + pre.len() + 2 == encoder@.len(),
                mid.len() <= encoder@.len(),
            decreases self.0@.len() - i,
        {
            proof {
                lemma_uleb128_seq_skip(values, i as int);
                assert(values[i as int] == self.0@[i as int].0);
                assert((encoder@ + uleb128_seq(values.skip(i as int))).len() == (mid + uleb128_seq(
                    values,
                )).len());
                assert((uleb128(values[i as int] as nat) + uleb128_seq(
                    values.skip(i as int + 1),
                )).len() == uleb128(values[i as int] as nat).len() + uleb128_seq(
                    values.skip(i as int + 1),
                ).len());
                assert(content.len() == uleb128(self.0@.len()).len() + uleb128_seq(values).len());
            }
            let index_count = encoder.push_leb_u32(self.0[i].0);
            byte_count = byte_count + index_count;
            proof {
                assert(encoder@ + uleb128_seq(values.skip(i as int + 1)) =~= mid + uleb128_seq(
                    values,
                ));
            }
            i = i + 1;
        }
        proof {
            assert(values.skip(values.len() as int) =~= Seq::<u32>::empty());
            assert(encoder@ =~= pre + seq![FUNCTION_SECTION] + seq![0u8] + content);
        }
        let length_count = encoder.write_length(byte_count);
        proof {
            lemma_frame_splice(pre, FUNCTION_SECTION, content);
            assert(encoder@ =~= pre + self.enc());
        }
        length_count + byte_count + 1
    }
}

} // verus!
