//! Function types: the ordered parameter and result value types of a
//! function.  A function type encodes as its tag byte, the LEB128 parameter
//! count and parameter type bytes, then the LEB128 result count and result
//! type bytes.

use crate::constants::{F32, F64, FUNCTION_TYPE, I32, I64};
use crate::encoder::{seq_enc, uleb128, WasmEncode, WasmEncoder};
use vstd::prelude::*;

verus! {

/// One of the four value types of the format.
pub enum ValueType {
    I32,
    I64,
    F32,
    F64,
}

impl WasmEncode for ValueType {
    open spec fn enc(&self) -> Seq<u8> {
        match self {
            ValueType::I32 => seq![I32],
            ValueType::I64 => seq![I64],
            ValueType::F32 => seq![F32],
            ValueType::F64 => seq![F64],
        }
    }

    fn encode(&self, encoder: &mut WasmEncoder) -> (count: u32) {
        match self {
            ValueType::I32 => encoder.push_u8(I32),
            ValueType::I64 => encoder.push_u8(I64),
            ValueType::F32 => encoder.push_u8(F32),
            ValueType::F64 => encoder.push_u8(F64),
        }
    }
}

pub struct FunctionType {
    pub parameters: Vec<ValueType>,
    pub results: Vec<ValueType>,
}

impl FunctionType {
    /// A function type with the given parameter and result types.
    pub fn new(parameters: Vec<ValueType>, results: Vec<ValueType>) -> (function_type:
        FunctionType)
        ensures
            function_type.parameters == parameters,
            function_type.results == results,
    {
        FunctionType { parameters, results }
    }
}

impl WasmEncode for FunctionType {
    open spec fn enc(&self) -> Seq<u8> {
        seq![FUNCTION_TYPE] + uleb128(self.parameters@.len()) + seq_enc(self.parameters@)
            + uleb128(self.results@.len()) + seq_enc(self.results@)
    }

    open spec fn wf(&self) -> bool {
        self.parameters@.len() <= u32::MAX && self.results@.len() <= u32::MAX
    }

    fn encode(&self, encoder: &mut WasmEncoder) -> (count: u32) {
        let tag_count = encoder.push_u8(FUNCTION_TYPE);
        let param_len_count = encoder.push_leb_u32(self.parameters.len() as u32);
        let param_count = self.parameters.encode(encoder);
        let result_len_count = encoder.push_leb_u32(self.results.len() as u32);
        let result_count = self.results.encode(encoder);
        proof {
            assert(encoder@ =~= old(encoder)@ + self.enc());
        }
        tag_count + param_len_count + param_count + result_len_count + result_count
    }
}

} // verus!
