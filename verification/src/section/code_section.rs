//! The code section: the bodies of the module's functions, as a
//! length-framed vector.  Each function body is itself length-framed: the
//! byte length of the body, then the run-length grouped local declarations,
//! then the body expression.

use crate::constants::CODE_SECTION;
use crate::encoder::{
    lemma_body_splice, lemma_frame_splice, lemma_uleb128_len, section_frame, seq_enc, uleb128,
    WasmEncode, WasmEncoder,
};
use crate::expression::Expression;
use crate::function_type::ValueType;
use vstd::prelude::*;

verus! {

pub struct CodeSection(pub Vec<Function>);

pub struct Function {
    pub locals: Vec<Local>,
    pub expression: Expression,
}

/// A run-length group of local variable declarations: `count` locals of one
/// value type.
pub struct Local {
    count: u32,
    value_type: ValueType,
}

impl Function {
    /// A function body with the given local declarations and expression.
    pub fn new(locals: Vec<Local>, expression: Expression) -> (function: Function)
        ensures
            function.locals == locals,
            function.expression == expression,
    {
        Function { locals, expression }
    }
}

impl Local {
    /// `count` locals of the given value type.
    pub fn new(count: u32, value_type: ValueType) -> (local: Local)
        ensures
            local.enc() == uleb128(count as nat) + value_type.enc(),
    {
        Local { count, value_type }
    }
}

impl WasmEncode for Local {
    closed spec fn enc(&self) -> Seq<u8> {
        uleb128(self.count as nat) + self.value_type.enc()
    }

    fn encode(&self, encoder: &mut WasmEncoder) -> (count: u32) {
        let count_count = encoder.push_leb_u32(self.count);
        let type_count = self.value_type.encode(encoder);
        proof {
            assert(encoder@ =~= old(encoder)@ + self.enc());
        }
        count_count + type_count
    }
}

impl Function {
    /// The length-framed body of the function: the local-declaration count
    /// and declarations, then the body expression.
    pub open spec fn body_enc(&self) -> Seq<u8> {
        uleb128(self.locals@.len()) + seq_enc(self.locals@) + self.expression.enc()
    }
}

impl WasmEncode for Function {
    open spec fn enc(&self) -> Seq<u8> {
        uleb128(self.body_enc().len()) + self.body_enc()
    }

    open spec fn wf(&self) -> bool {
        self.locals@.len() <= u32::MAX
    }

    fn encode(&self, encoder: &mut WasmEncoder) -> (count: u32) {
        let ghost pre = encoder@;
        let ghost content = self.body_enc();
        proof {
            lemma_uleb128_len(content.len());
        }
        encoder.push_u8(0);
        let mut byte_count = encoder.push_leb_u32(self.locals.len() as u32);
        byte_count = byte_count + self.locals.encode(encoder);
        byte_count = byte_count + self.expression.encode(encoder);
        proof {
            assert(encoder@ =~= pre + seq![0u8] + content);
        }
        let length_count = encoder.write_length(byte_count);
        proof {
            lemma_body_splice(pre, content);
            assert(encoder@ =~= pre + self.enc());
        }
        length_count + byte_count
    }
}

impl CodeSection {
    /// The body of the section: the item count, then the encoded items.
    pub open spec fn content_enc(&self) -> Seq<u8> {
        uleb128(self.0@.len()) + seq_enc(self.0@)
    }
}

impl WasmEncode for CodeSection {
    open spec fn enc(&self) -> Seq<u8> {
        section_frame(CODE_SECTION, self.content_enc())
    }

    open spec fn wf(&self) -> bool {
        self.0@.len() <= u32::MAX && self.0.wf()
    }

    fn encode(&self, encoder: &mut WasmEncoder) -> (count: u32) {
        let ghost pre = encoder@;
        let ghost content = uleb128(self.0@.len()) + seq_enc(self.0@);
        proof {
            lemma_uleb128_len(content.len());
        }
        encoder.push_u8(CODE_SECTION);
        encoder.push_u8(0);
        let mut byte_count = encoder.push_leb_u32(self.0.len() as u32);
        byte_count = byte_count + self.0.encode(encoder);
        proof {
            assert(encoder@ =~= pre + seq![CODE_SECTION] + seq![0u8] + content);
        }
        let length_count = encoder.write_length(byte_count);
        proof {
            lemma_frame_splice(pre, CODE_SECTION, content);
            assert(encoder@ =~= pre + self.enc());
        }
        length_count + byte_count + 1
    }
}

} // verus!
