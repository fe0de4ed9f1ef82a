//! The start section: the single function index that runs when the module
//! is instantiated.  The body is the ULEB128 encoding of the index, and
//! the section's length field is the width of that encoding.

use crate::constants::START_SECTION;
use crate::encoder::{
    lemma_frame_splice, section_frame, uleb128, WasmEncode, WasmEncoder,
};
use crate::index::FunctionIndex;
use vstd::prelude::*;

verus! {

pub struct StartSection(pub FunctionIndex);

impl StartSection {
    /// The body of the section: the ULEB128-encoded start function index.
    pub open spec fn content_enc(&self) -> Seq<u8> {
        uleb128(self.0.0 as nat)
    }
}

impl WasmEncode for StartSection {
    open spec fn enc(&self) -> Seq<u8> {
        section_frame(START_SECTION, self.content_enc())
    }

    fn encode(&self, encoder: &mut WasmEncoder) -> (count: u32) {
        let ghost pre = encoder@;
        let ghost content = self.content_enc();
        encoder.push_u8(START_SECTION);
        encoder.push_u8(0);
        let byte_count = encoder.push_leb_u32(self.0.0);
        proof {
            assert(encoder@ =~= pre + seq![START_SECTION] + seq![0u8] + content);
        }
        let length_count = encoder.write_length(byte_count);
        proof {
            lemma_frame_splice(pre, START_SECTION, content);
            assert(encoder@ =~= pre + self.enc());
        }
        length_count + byte_count + 1
    }
}

} // verus!
