//! The module itself: the fixed preamble followed by the caller-supplied
//! sections in order.

use crate::constants::{MAGIC_NUMBER, VERSION};
use crate::encoder::{le_bytes_u32, seq_enc, WasmEncode, WasmEncoder};
use crate::section::Section;
use vstd::prelude::*;

verus! {

/// A whole module: its sections, expected in the canonical section order.
/// The encoder emits them in the order given and does not validate it.
pub struct Module(pub Vec<Section>);

impl WasmEncode for Module {
    open spec fn enc(&self) -> Seq<u8> {
        le_bytes_u32(MAGIC_NUMBER) + le_bytes_u32(VERSION) + seq_enc(self.0@)
    }

    open spec fn wf(&self) -> bool {
        self.0.wf()
    }

    fn encode(&self, encoder: &mut WasmEncoder) -> (count: u32) {
        proof {
            assert(self.enc().len() == 8 + seq_enc(self.0@).len());
        }
        let magic_count = encoder.push_u32(MAGIC_NUMBER);
        let version_count = encoder.push_u32(VERSION);
        let section_count = self.0.encode(encoder);
        proof {
            assert(encoder@ =~= old(encoder)@ + self.enc());
        }
        magic_count + version_count + section_count
    }
}

/// Encoding is a function of the module value alone: two equal modules
/// encode to byte-identical output, whatever buffers they are written to,
/// since `encode` appends exactly `enc` of its module.
pub proof fn lemma_encoding_deterministic(first: &Module, second: &Module)
    requires
        first == second,
    ensures
        first.enc() == second.enc(),
{
}

} // verus!
