//! The global section: the globals defined by the module, each a value
//! type, a mutability flag, and a constant initializer expression, as a
//! length-framed vector.

use crate::constants::{CONST, GLOBAL_SECTION, VAR};
use crate::encoder::{
    lemma_frame_splice, lemma_uleb128_len, section_frame, seq_enc, uleb128, WasmEncode,
    WasmEncoder,
};
use crate::expression::Expression;
use crate::function_type::ValueType;
use vstd::prelude::*;

verus! {

pub struct GlobalSection(pub Vec<Global>);

/// A global: immutable (`Const`) or mutable (`Var`), with its value type
/// and initializer.
pub enum Global {
    Const(ValueType, Expression),
    Var(ValueType, Expression),
}

impl WasmEncode for Global {
    open spec fn enc(&self) -> Seq<u8> {
        match self {
            Global::Const(value_type, initializer) => value_type.enc() + seq![CONST]
                + initializer.enc(),
            Global::Var(value_type, initializer) => value_type.enc() + seq![VAR]
                + initializer.enc(),
        }
    }

    fn encode(&self, encoder: &mut WasmEncoder) -> (count: u32) {
        match self {
            Global::Const(value_type, initializer) => {
                proof {
                    assert(self.enc().len() == value_type.enc().len() + 1
                        + initializer.enc().len());
                }
                let type_count = value_type.encode(encoder);
                let flag_count = encoder.push_u8(CONST);
                let initializer_count = initializer.encode(encoder);
                proof {
                    assert(encoder@ =~= old(encoder)@ + self.enc());
                }
                type_count + flag_count + initializer_count
            },
            Global::Var(value_type, initializer) => {
                proof {
                    assert(self.enc().len() == value_type.enc().len() + 1
                        + initializer.enc().len());
                }
                let type_count = value_type.encode(encoder);
                let flag_count = encoder.push_u8(VAR);
                let initializer_count = initializer.encode(encoder);
                proof {
                    assert(encoder@ =~= old(encoder)@ + self.enc());
                }
                type_count + flag_count + initializer_count
            },
        }
    }
}

impl GlobalSection {
    /// The body of the section: the item count, then the encoded items.
    pub open spec fn content_enc(&self) -> Seq<u8> {
        uleb128(self.0@.len()) + seq_enc(self.0@)
    }
}

impl WasmEncode for GlobalSection {
    open spec fn enc(&self) -> Seq<u8> {
        section_frame(GLOBAL_SECTION, self.content_enc())
    }

    open spec fn wf(&self) -> bool {
        self.0@.len() <= u32::MAX && self.0.wf()
    }

    fn encode(&self, encoder: &mut WasmEncoder) -> (count: u32) {
        let ghost pre = encoder@;
        let ghost content = uleb128(self.0@.len()) + seq_enc(self.0@);
        proof {
            lemma_uleb128_len(content.len());
        }
        encoder.push_u8(GLOBAL_SECTION);
        encoder.push_u8(0);
        let mut byte_count = encoder.push_leb_u32(self.0.len() as u32);
        byte_count = byte_count + self.0.encode(encoder);
        proof {
            assert(encoder@ =~= pre + seq![GLOBAL_SECTION] + seq![0u8] + content);
        }
        let length_count = encoder.write_length(byte_count);
        proof {
            lemma_frame_splice(pre, GLOBAL_SECTION, content);
            assert(encoder@ =~= pre + self.enc());
        }
        length_count + byte_count + 1
    }
}

} // verus!
