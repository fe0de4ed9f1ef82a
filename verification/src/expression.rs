//! Instructions and instruction sequences.
//!
//! An [`Expression`] is an ordered instruction sequence closed by an `end`
//! marker; it serves as a function body or a constant initializer.  Each
//! [`Instruction`] encodes as its one- or two-byte opcode followed by its
//! immediate operands; the structured control instructions (`block`, `loop`,
//! `if`/`else`) recursively encode the instruction sequences they own
//! between matching begin and end markers.
//!
//! The spec functions [`instr_enc`] and [`instr_seq_enc`] give the exact
//! bytes of one instruction and of an instruction sequence; the executable
//! encoders are verified to emit precisely those bytes.

use crate::constants::{
    BLOCK, BR, BR_IF, BR_TABLE, CALL, CALL_INDIRECT, DROP, ELSE, EMPTY, END, F32_ABS, F32_ADD,
    F32_CEIL, F32_CONST, F32_CONVERT_I32_S, F32_CONVERT_I32_U, F32_CONVERT_I64_S,
    F32_CONVERT_I64_U, F32_COPYSIGN, F32_DEMOTE_F64, F32_DIV, F32_EQ, F32_FLOOR, F32_GE, F32_GT,
    F32_LE, F32_LOAD, F32_LT, F32_MAX, F32_MIN, F32_MUL, F32_NE, F32_NEAREST, F32_NEG,
    F32_REINTERPRET_I32, F32_SQRT, F32_STORE, F32_SUB, F32_TRUNC, F64_ABS, F64_ADD, F64_CEIL,
    F64_CONST, F64_CONVERT_I32_S, F64_CONVERT_I32_U, F64_CONVERT_I64_S, F64_CONVERT_I64_U,
    F64_COPYSIGN, F64_DIV, F64_EQ, F64_FLOOR, F64_GE, F64_GT, F64_LE, F64_LOAD, F64_LT, F64_MAX,
    F64_MIN, F64_MUL, F64_NE, F64_NEAREST, F64_NEG, F64_PROMOTE_F32, F64_REINTERPRET_I64,
    F64_SQRT, F64_STORE, F64_SUB, F64_TRUNC, GLOBAL_GET, GLOBAL_SET, I32_ADD, I32_AND, I32_CLZ,
    I32_CONST, I32_CTZ, I32_DIV_S, I32_DIV_U, I32_EQ, I32_EQZ, I32_GE_S, I32_GE_U, I32_GT_S,
    I32_GT_U, I32_LE_S, I32_LE_U, I32_LOAD, I32_LOAD16_S, I32_LOAD16_U, I32_LOAD8_S, I32_LOAD8_U,
    I32_LT_S, I32_LT_U, I32_MUL, I32_NE, I32_OR, I32_POPCNT, I32_REINTERPRET_F32, I32_REM_S,
    I32_REM_U, I32_ROTL, I32_ROTR, I32_SHL, I32_SHR_S, I32_SHR_U, I32_STORE, I32_STORE16,
    I32_STORE8, I32_SUB, I32_TRUNC_F32_S, I32_TRUNC_F32_U, I32_TRUNC_F64_S, I32_TRUNC_F64_U,
    I32_WRAP_I64, I32_XOR, I64_ADD, I64_AND, I64_CLZ, I64_CONST, I64_CTZ, I64_DIV_S, I64_DIV_U,
    I64_EQ, I64_EQZ, I64_EXTEND_I32_S, I64_EXTEND_I32_U, I64_GE_S, I64_GE_U, I64_GT_S, I64_GT_U,
    I64_LE_S, I64_LE_U, I64_LOAD, I64_LOAD16_S, I64_LOAD16_U, I64_LOAD32_S, I64_LOAD32_U,
    I64_LOAD8_S, I64_LOAD8_U, I64_LT_S, I64_LT_U, I64_MUL, I64_NE, I64_OR, I64_POPCNT,
    I64_REINTERPRET_F64, I64_REM_S, I64_REM_U, I64_ROTL, I64_ROTR, I64_SHL, I64_SHR_S, I64_SHR_U,
    I64_STORE, I64_STORE16, I64_STORE32, I64_STORE8, I64_SUB, I64_TRUNC_F32_S, I64_TRUNC_F32_U,
    I64_TRUNC_F64_S, I64_TRUNC_F64_U, I64_XOR, IF, LOCAL_GET, LOCAL_SET, LOCAL_TEE, LOOP,
    MEMORY_GROW, MEMORY_SIZE, NOP, RETURN, SELECT, UNREACHABLE,
};
use crate::encoder::{
    le_bytes_u16, le_bytes_u32, le_bytes_u64, lemma_uleb128_seq_skip, sleb128, uleb128,
    uleb128_seq, WasmEncode, WasmEncoder,
};
use crate::function_type::ValueType;
use vstd::prelude::*;

verus! {

/// An instruction sequence closed by an `end` marker: a function body or a
/// constant initializer.
pub struct Expression(pub Vec<Instruction>);

/// The result-type signature of a structured control construct: either
/// empty or a single value type.
pub enum BlockType {
    Empty,
    Value(ValueType),
}

impl WasmEncode for BlockType {
    open spec fn enc(&self) -> Seq<u8> {
        match self {
            BlockType::Empty => seq![EMPTY],
            BlockType::Value(value_type) => value_type.enc(),
        }
    }

    fn encode(&self, encoder: &mut WasmEncoder) -> (count: u32) {
        match self {
            BlockType::Empty => encoder.push_u8(EMPTY),
            BlockType::Value(value_type) => value_type.encode(encoder),
        }
    }
}

/// The immediate operands of a memory access: the alignment exponent and
/// the constant offset, encoded in that order as unsigned LEB128.
pub struct MemoryArguments {
    pub align: u32,
    pub offset: u32,
}

impl MemoryArguments {
    /// Memory arguments with the given alignment exponent and offset.
    pub fn new(align: u32, offset: u32) -> (arguments: MemoryArguments)
        ensures
            arguments.align == align,
            arguments.offset == offset,
    {
        MemoryArguments { align, offset }
    }
}

impl WasmEncode for MemoryArguments {
    open spec fn enc(&self) -> Seq<u8> {
        uleb128(self.align as nat) + uleb128(self.offset as nat)
    }

    fn encode(&self, encoder: &mut WasmEncoder) -> (count: u32) {
        let align_count = encoder.push_leb_u32(self.align);
        let offset_count = encoder.push_leb_u32(self.offset);
        proof {
            assert(encoder@ =~= old(encoder)@ + self.enc());
        }
        align_count + offset_count
    }
}

/// One instruction of the format.  Branch and variable instructions carry
/// their index immediates as plain 32-bit numbers; the floating-point
/// constants carry the IEEE-754 bit pattern of their literal, which is all
/// the encoder needs since such constants are laid out as fixed-width
/// little-endian bit patterns.
pub enum Instruction {
    // Control instructions
    Unreachable,
    Nop,
    Block(BlockType, Vec<Instruction>),
    Loop(BlockType, Vec<Instruction>),
    If(BlockType, Vec<Instruction>),
    IfElse(BlockType, Vec<Instruction>, Vec<Instruction>),
    Branch(u32),
    BranchIf(u32),
    BranchTable(Vec<u32>, u32),
    Return,
    Call(u32),
    CallIndirect(u32),
    // Parametric instructions
    Drop,
    Select,
    // Variable instructions
    LocalGet(u32),
    LocalSet(u32),
    LocalTee(u32),
    GlobalGet(u32),
    GlobalSet(u32),
    // Memory instructions
    I32Load(MemoryArguments),
    I64Load(MemoryArguments),
    F32Load(MemoryArguments),
    F64Load(MemoryArguments),
    I32Load8S(MemoryArguments),
    I32Load8U(MemoryArguments),
    I32Load16S(MemoryArguments),
    I32Load16U(MemoryArguments),
    I64Load8S(MemoryArguments),
    I64Load8U(MemoryArguments),
    I64Load16S(MemoryArguments),
    I64Load16U(MemoryArguments),
    I64Load32S(MemoryArguments),
    I64Load32U(MemoryArguments),
    I32Store(MemoryArguments),
    I64Store(MemoryArguments),
    F32Store(MemoryArguments),
    F64Store(MemoryArguments),
    I32Store8(MemoryArguments),
    I32Store16(MemoryArguments),
    I64Store8(MemoryArguments),
    I64Store16(MemoryArguments),
    I64Store32(MemoryArguments),
    MemorySize,
    MemoryGrow,
    // Numeric instructions
    I32Const(i32),
    I64Const(i64),
    F32Const(u32),
    F64Const(u64),
    I32Eqz,
    I32Eq,
    I32Ne,
    I32LtS,
    I32LtU,
    I32GtS,
    I32GtU,
    I32LeS,
    I32LeU,
    I32GeS,
    I32GeU,
    I64Eqz,
    I64Eq,
    I64Ne,
    I64LtS,
    I64LtU,
    I64GtS,
    I64GtU,
    I64LeS,
    I64LeU,
    I64GeS,
    I64GeU,
    F32Eq,
    F32Ne,
    F32Lt,
    F32Gt,
    F32Le,
    F32Ge,
    F64Eq,
    F64Ne,
    F64Lt,
    F64Gt,
    F64Le,
    F64Ge,
    I32Clz,
    I32Ctz,
    I32PopCnt,
    I32Add,
    I32Sub,
    I32Mul,
    I32DivS,
    I32DivU,
    I32RemS,
    I32RemU,
    I32And,
    I32Or,
    I32Xor,
    I32Shl,
    I32ShrS,
    I32ShrU,
    I32Rotl,
    I32Rotr,
    I64Clz,
    I64Ctz,
    I64PopCnt,
    I64Add,
    I64Sub,
    I64Mul,
    I64DivS,
    I64DivU,
    I64RemS,
    I64RemU,
    I64And,
    I64Or,
    I64Xor,
    I64Shl,
    I64ShrS,
    I64ShrU,
    I64Rotl,
    I64Rotr,
    F32Abs,
    F32Neg,
    F32Ceil,
    F32Floor,
    F32Trunc,
    F32Nearest,
    F32Sqrt,
    F32Add,
    F32Sub,
    F32Mul,
    F32Div,
    F32Min,
    F32Max,
    F32CopySign,
    F64Abs,
    F64Neg,
    F64Ceil,
    F64Floor,
    F64Trunc,
    F64Nearest,
    F64Sqrt,
    F64Add,
    F64Sub,
    F64Mul,
    F64Div,
    F64Min,
    F64Max,
    F64CopySign,
    I32WrapI64,
    I32TruncF32S,
    I32TruncF32U,
    I32TruncF64S,
    I32TruncF64U,
    I64ExtendI32S,
    I32ExtendI32U,
    I64TruncF32S,
    I64TruncF32U,
    I64TruncF64S,
    I64TruncF64U,
    F32ConvertI32S,
    F32ConvertI32U,
    F32ConvertI64S,
    F32ConvertI64U,
    F32DemoteF64,
    F64ConvertI32S,
    F64ConvertI32U,
    F64ConvertI64S,
    F64ConvertI64U,
    F64PromoteF32,
    I32ReinterpretF32,
    I64ReinterpretF64,
    F32ReinterpretI32,
    F64ReinterpretI64,
}

/// The exact bytes one instruction encodes to.
pub open spec fn instr_enc(instruction: Instruction) -> Seq<u8>
    decreases instruction, 1int,
{
    match instruction {
        // Control instructions
        Instruction::Unreachable => seq![UNREACHABLE],
        Instruction::Nop => seq![NOP],
        Instruction::Block(block_type, instructions) => seq![BLOCK] + block_type.enc()
            + instr_seq_enc(instructions@) + seq![END],
        Instruction::Loop(block_type, instructions) => seq![LOOP] + block_type.enc()
            + instr_seq_enc(instructions@) + seq![END],
        Instruction::If(block_type, instructions) => seq![IF] + block_type.enc() + instr_seq_enc(
            instructions@,
        ) + seq![END],
        Instruction::IfElse(block_type, then_instructions, else_instructions) => seq![IF]
            + block_type.enc() + instr_seq_enc(then_instructions@) + seq![ELSE] + instr_seq_enc(
            else_instructions@,
        ) + seq![END],
        Instruction::Branch(label_index) => seq![BR] + uleb128(label_index as nat),
        Instruction::BranchIf(label_index) => seq![BR_IF] + uleb128(label_index as nat),
        Instruction::BranchTable(label_indices, label_index) => seq![BR_TABLE] + uleb128_seq(
            label_indices@,
        ) + uleb128(label_index as nat),
        Instruction::Return => seq![RETURN],
        Instruction::Call(function_index) => seq![CALL] + uleb128(function_index as nat),
        Instruction::CallIndirect(type_index) => seq![CALL_INDIRECT] + uleb128(type_index as nat),
        // Parametric instructions
        Instruction::Drop => seq![DROP],
        Instruction::Select => seq![SELECT],
        // Variable instructions
        Instruction::LocalGet(local_index) => seq![LOCAL_GET] + uleb128(local_index as nat),
        Instruction::LocalSet(local_index) => seq![LOCAL_SET] + uleb128(local_index as nat),
        Instruction::LocalTee(local_index) => seq![LOCAL_TEE] + uleb128(local_index as nat),
        Instruction::GlobalGet(global_index) => seq![GLOBAL_GET] + uleb128(global_index as nat),
        Instruction::GlobalSet(global_index) => seq![GLOBAL_SET] + uleb128(global_index as nat),
        // Memory instructions
        Instruction::I32Load(mem_args) => seq![I32_LOAD] + mem_args.enc(),
        Instruction::I64Load(mem_args) => seq![I64_LOAD] + mem_args.enc(),
        Instruction::F32Load(mem_args) => seq![F32_LOAD] + mem_args.enc(),
        Instruction::F64Load(mem_args) => seq![F64_LOAD] + mem_args.enc(),
        Instruction::I32Load8S(mem_args) => seq![I32_LOAD8_S] + mem_args.enc(),
        Instruction::I32Load8U(mem_args) => seq![I32_LOAD8_U] + mem_args.enc(),
        Instruction::I32Load16S(mem_args) => seq![I32_LOAD16_S] + mem_args.enc(),
        Instruction::I32Load16U(mem_args) => seq![I32_LOAD16_U] + mem_args.enc(),
        Instruction::I64Load8S(mem_args) => seq![I64_LOAD8_S] + mem_args.enc(),
        Instruction::I64Load8U(mem_args) => seq![I64_LOAD8_U] + mem_args.enc(),
        Instruction::I64Load16S(mem_args) => seq![I64_LOAD16_S] + mem_args.enc(),
        Instruction::I64Load16U(mem_args) => seq![I64_LOAD16_U] + mem_args.enc(),
        Instruction::I64Load32S(mem_args) => seq![I64_LOAD32_S] + mem_args.enc(),
        Instruction::I64Load32U(mem_args) => seq![I64_LOAD32_U] + mem_args.enc(),
        Instruction::I32Store(mem_args) => seq![I32_STORE] + mem_args.enc(),
        Instruction::I64Store(mem_args) => seq![I64_STORE] + mem_args.enc(),
        Instruction::F32Store(mem_args) => seq![F32_STORE] + mem_args.enc(),
        Instruction::F64Store(mem_args) => seq![F64_STORE] + mem_args.enc(),
        Instruction::I32Store8(mem_args) => seq![I32_STORE8] + mem_args.enc(),
        Instruction::I32Store16(mem_args) => seq![I32_STORE16] + mem_args.enc(),
        Instruction::I64Store8(mem_args) => seq![I64_STORE8] + mem_args.enc(),
        Instruction::I64Store16(mem_args) => seq![I64_STORE16] + mem_args.enc(),
        Instruction::I64Store32(mem_args) => seq![I64_STORE32] + mem_args.enc(),
        Instruction::MemorySize => le_bytes_u16(MEMORY_SIZE),
        Instruction::MemoryGrow => le_bytes_u16(MEMORY_GROW),
        // Numeric instructions
        Instruction::I32Const(value) => seq![I32_CONST] + sleb128(value as int),
        Instruction::I64Const(value) => seq![I64_CONST] + sleb128(value as int),
        Instruction::F32Const(bits) => seq![F32_CONST] + le_bytes_u32(bits),
        Instruction::F64Const(bits) => seq![F64_CONST] + le_bytes_u64(bits),
        Instruction::I32Eqz => seq![I32_EQZ],
        Instruction::I32Eq => seq![I32_EQ],
        Instruction::I32Ne => seq![I32_NE],
        Instruction::I32LtS => seq![I32_LT_S],
        Instruction::I32LtU => seq![I32_LT_U],
        Instruction::I32GtS => seq![I32_GT_S],
        Instruction::I32GtU => seq![I32_GT_U],
        Instruction::I32LeS => seq![I32_LE_S],
        Instruction::I32LeU => seq![I32_LE_U],
        Instruction::I32GeS => seq![I32_GE_S],
        Instruction::I32GeU => seq![I32_GE_U],
        Instruction::I64Eqz => seq![I64_EQZ],
        Instruction::I64Eq => seq![I64_EQ],
        Instruction::I64Ne => seq![I64_NE],
        Instruction::I64LtS => seq![I64_LT_S],
        Instruction::I64LtU => seq![I64_LT_U],
        Instruction::I64GtS => seq![I64_GT_S],
        Instruction::I64GtU => seq![I64_GT_U],
        Instruction::I64LeS => seq![I64_LE_S],
        Instruction::I64LeU => seq![I64_LE_U],
        Instruction::I64GeS => seq![I64_GE_S],
        Instruction::I64GeU => seq![I64_GE_U],
        Instruction::F32Eq => seq![F32_EQ],
        Instruction::F32Ne => seq![F32_NE],
        Instruction::F32Lt => seq![F32_LT],
        Instruction::F32Gt => seq![F32_GT],
        Instruction::F32Le => seq![F32_LE],
        Instruction::F32Ge => seq![F32_GE],
        Instruction::F64Eq => seq![F64_EQ],
        Instruction::F64Ne => seq![F64_NE],
        Instruction::F64Lt => seq![F64_LT],
        Instruction::F64Gt => seq![F64_GT],
        Instruction::F64Le => seq![F64_LE],
        Instruction::F64Ge => seq![F64_GE],
        Instruction::I32Clz => seq![I32_CLZ],
        Instruction::I32Ctz => seq![I32_CTZ],
        Instruction::I32PopCnt => seq![I32_POPCNT],
        Instruction::I32Add => seq![I32_ADD],
        Instruction::I32Sub => seq![I32_SUB],
        Instruction::I32Mul => seq![I32_MUL],
        Instruction::I32DivS => seq![I32_DIV_S],
        Instruction::I32DivU => seq![I32_DIV_U],
        Instruction::I32RemS => seq![I32_REM_S],
        Instruction::I32RemU => seq![I32_REM_U],
        Instruction::I32And => seq![I32_AND],
        Instruction::I32Or => seq![I32_OR],
        Instruction::I32Xor => seq![I32_XOR],
        Instruction::I32Shl => seq![I32_SHL],
        Instruction::I32ShrS => seq![I32_SHR_S],
        Instruction::I32ShrU => seq![I32_SHR_U],
        Instruction::I32Rotl => seq![I32_ROTL],
        Instruction::I32Rotr => seq![I32_ROTR],
        Instruction::I64Clz => seq![I64_CLZ],
        Instruction::I64Ctz => seq![I64_CTZ],
        Instruction::I64PopCnt => seq![I64_POPCNT],
        Instruction::I64Add => seq![I64_ADD],
        Instruction::I64Sub => seq![I64_SUB],
        Instruction::I64Mul => seq![I64_MUL],
        Instruction::I64DivS => seq![I64_DIV_S],
        Instruction::I64DivU => seq![I64_DIV_U],
        Instruction::I64RemS => seq![I64_REM_S],
        Instruction::I64RemU => seq![I64_REM_U],
        Instruction::I64And => seq![I64_AND],
        Instruction::I64Or => seq![I64_OR],
        Instruction::I64Xor => seq![I64_XOR],
        Instruction::I64Shl => seq![I64_SHL],
        Instruction::I64ShrS => seq![I64_SHR_S],
        Instruction::I64ShrU => seq![I64_SHR_U],
        Instruction::I64Rotl => seq![I64_ROTL],
        Instruction::I64Rotr => seq![I64_ROTR],
        Instruction::F32Abs => seq![F32_ABS],
        Instruction::F32Neg => seq![F32_NEG],
        Instruction::F32Ceil => seq![F32_CEIL],
        Instruction::F32Floor => seq![F32_FLOOR],
        Instruction::F32Trunc => seq![F32_TRUNC],
        Instruction::F32Nearest => seq![F32_NEAREST],
        Instruction::F32Sqrt => seq![F32_SQRT],
        Instruction::F32Add => seq![F32_ADD],
        Instruction::F32Sub => seq![F32_SUB],
        Instruction::F32Mul => seq![F32_MUL],
        Instruction::F32Div => seq![F32_DIV],
        Instruction::F32Min => seq![F32_MIN],
        Instruction::F32Max => seq![F32_MAX],
        Instruction::F32CopySign => seq![F32_COPYSIGN],
        Instruction::F64Abs => seq![F64_ABS],
        Instruction::F64Neg => seq![F64_NEG],
        Instruction::F64Ceil => seq![F64_CEIL],
        Instruction::F64Floor => seq![F64_FLOOR],
        Instruction::F64Trunc => seq![F64_TRUNC],
        Instruction::F64Nearest => seq![F64_NEAREST],
        Instruction::F64Sqrt => seq![F64_SQRT],
        Instruction::F64Add => seq![F64_ADD],
        Instruction::F64Sub => seq![F64_SUB],
        Instruction::F64Mul => seq![F64_MUL],
        Instruction::F64Div => seq![F64_DIV],
        Instruction::F64Min => seq![F64_MIN],
        Instruction::F64Max => seq![F64_MAX],
        Instruction::F64CopySign => seq![F64_COPYSIGN],
        Instruction::I32WrapI64 => seq![I32_WRAP_I64],
        Instruction::I32TruncF32S => seq![I32_TRUNC_F32_S],
        Instruction::I32TruncF32U => seq![I32_TRUNC_F32_U],
        Instruction::I32TruncF64S => seq![I32_TRUNC_F64_S],
        Instruction::I32TruncF64U => seq![I32_TRUNC_F64_U],
        Instruction::I64ExtendI32S => seq![I64_EXTEND_I32_S],
        Instruction::I32ExtendI32U => seq![I64_EXTEND_I32_U],
        Instruction::I64TruncF32S => seq![I64_TRUNC_F32_S],
        Instruction::I64TruncF32U => seq![I64_TRUNC_F32_U],
        Instruction::I64TruncF64S => seq![I64_TRUNC_F64_S],
        Instruction::I64TruncF64U => seq![I64_TRUNC_F64_U],
        Instruction::F32ConvertI32S => seq![F32_CONVERT_I32_S],
        Instruction::F32ConvertI32U => seq![F32_CONVERT_I32_U],
        Instruction::F32ConvertI64S => seq![F32_CONVERT_I64_S],
        Instruction::F32ConvertI64U => seq![F32_CONVERT_I64_U],
        Instruction::F32DemoteF64 => seq![F32_DEMOTE_F64],
        Instruction::F64ConvertI32S => seq![F64_CONVERT_I32_S],
        Instruction::F64ConvertI32U => seq![F64_CONVERT_I32_U],
        Instruction::F64ConvertI64S => seq![F64_CONVERT_I64_S],
        Instruction::F64ConvertI64U => seq![F64_CONVERT_I64_U],
        Instruction::F64PromoteF32 => seq![F64_PROMOTE_F32],
        Instruction::I32ReinterpretF32 => seq![I32_REINTERPRET_F32],
        Instruction::I64ReinterpretF64 => seq![I64_REINTERPRET_F64],
        Instruction::F32ReinterpretI32 => seq![F32_REINTERPRET_I32],
        Instruction::F64ReinterpretI64 => seq![F64_REINTERPRET_I64],
    }
}

/// The concatenation of the encodings of a sequence of instructions, in
/// order, without any terminating marker.
pub open spec fn instr_seq_enc(instructions: Seq<Instruction>) -> Seq<u8>
    decreases instructions, 0int,
{
    if instructions.len() == 0 {
        Seq::empty()
    } else {
        instr_enc(instructions[0]) + instr_seq_enc(instructions.drop_first())
    }
}

/// Peels the instruction at position `k` off the tail concatenation.
pub proof fn lemma_instr_seq_enc_skip(instructions: Seq<Instruction>, k: int)
    requires
        0 <= k < instructions.len(),
    ensures
        instr_seq_enc(instructions.skip(k)) == instr_enc(instructions[k]) + instr_seq_enc(
            instructions.skip(k + 1),
        ),
{
    assert(instructions.skip(k)[0] == instructions[k]);
    assert(instructions.skip(k).drop_first() =~= instructions.skip(k + 1));
}

/// Appends the encodings of all instructions of `instructions`, in order.
fn encode_instruction_sequence(instructions: &Vec<Instruction>, encoder: &mut WasmEncoder) -> (count:
    u32)
    requires
        old(encoder)@.len() + instr_seq_enc(instructions@).len() <= u32::MAX as int,
    ensures
        final(encoder)@ == old(encoder)@ + instr_seq_enc(instructions@),
        count as int == instr_seq_enc(instructions@).len(),
    decreases instructions@, 0int,
{
    let mut byte_count: u32 = 0;
    let mut i: usize = 0;
    proof {
        assert(instructions@.skip(0) =~= instructions@);
    }
    while i < instructions.len()
        invariant
            i <= instructions@.len(),
            old(encoder)@.len() + instr_seq_enc(instructions@).len() <= u32::MAX as int,
            encoder@ + instr_seq_enc(instructions@.skip(i as int)) == old(encoder)@
                + instr_seq_enc(instructions@),
            byte_count as int + old(encoder)@.len() == encoder@.len(),
            old(encoder)@.len() <= encoder@.len(),
        decreases instructions@.len() - i,
    {
        proof {
            lemma_instr_seq_enc_skip(instructions@, i as int);
            assert((encoder@ + instr_seq_enc(instructions@.skip(i as int))).len() == (old(
                encoder,
            )@ + instr_seq_enc(instructions@)).len());
            assert((instr_enc(instructions@[i as int]) + instr_seq_enc(
                instructions@.skip(i as int + 1),
            )).len() == instr_enc(instructions@[i as int]).len() + instr_seq_enc(
                instructions@.skip(i as int + 1),
            ).len());
        }
        byte_count = byte_count + instructions[i].encode_instruction(encoder);
        proof {
            assert(encoder@ + instr_seq_enc(instructions@.skip(i as int + 1)) =~= old(encoder)@
                + instr_seq_enc(instructions@));
        }
        i = i + 1;
    }
    proof {
        assert(instructions@.skip(instructions@.len() as int) =~= Seq::<Instruction>::empty());
        assert(encoder@ =~= old(encoder)@ + instr_seq_enc(instructions@));
    }
    byte_count
}

/// Appends a one-byte opcode followed by one LEB128-encoded index operand.
fn encode_op_with_index(opcode: u8, index: u32, encoder: &mut WasmEncoder) -> (count: u32)
    ensures
        final(encoder)@ == old(encoder)@ + (seq![opcode] + uleb128(index as nat)),
        count as int == (seq![opcode] + uleb128(index as nat)).len(),
{
    let opcode_count = encoder.push_u8(opcode);
    let operand_count = encoder.push_leb_u32(index);
    proof {
        assert(encoder@ =~= old(encoder)@ + (seq![opcode] + uleb128(index as nat)));
    }
    opcode_count + operand_count
}

/// Appends a one-byte opcode followed by encoded memory arguments.
fn encode_op_with_mem_args(opcode: u8, mem_args: &MemoryArguments, encoder: &mut WasmEncoder) -> (count: u32)
    requires
        old(encoder)@.len() + (seq![opcode] + mem_args.enc()).len() <= u32::MAX as int,
    ensures
        final(encoder)@ == old(encoder)@ + (seq![opcode] + mem_args.enc()),
        count as int == (seq![opcode] + mem_args.enc()).len(),
{
    let opcode_count = encoder.push_u8(opcode);
    let operand_count = mem_args.encode(encoder);
    proof {
        assert(encoder@ =~= old(encoder)@ + (seq![opcode] + mem_args.enc()));
    }
    opcode_count + operand_count
}

impl Instruction {
    /// Appends this instruction's encoding: the opcode, its immediates, and,
    /// for the structured control constructs, the nested sequences with
    /// their markers.  Returns the number of bytes appended.
    #[verifier::rlimit(100)]
    fn encode_instruction(&self, encoder: &mut WasmEncoder) -> (count: u32)
        requires
            old(encoder)@.len() + instr_enc(*self).len() <= u32::MAX as int,
        ensures
            final(encoder)@ == old(encoder)@ + instr_enc(*self),
            count as int == instr_enc(*self).len(),
        decreases *self, 1int,
    {
        match self {
            // Control instructions
            Instruction::Unreachable => encoder.push_u8(UNREACHABLE),
            Instruction::Nop => encoder.push_u8(NOP),
            Instruction::Block(block_type, instructions) => {
                let opcode_count = encoder.push_u8(BLOCK);
                let type_count = block_type.encode(encoder);
                let body_count = encode_instruction_sequence(instructions, encoder);
                let end_count = encoder.push_u8(END);
                proof {
                    assert(encoder@ =~= old(encoder)@ + instr_enc(*self));
                }
                opcode_count + type_count + body_count + end_count
            },
            Instruction::Loop(block_type, instructions) => {
                let opcode_count = encoder.push_u8(LOOP);
                let type_count = block_type.encode(encoder);
                let body_count = encode_instruction_sequence(instructions, encoder);
                let end_count = encoder.push_u8(END);
                proof {
                    assert(encoder@ =~= old(encoder)@ + instr_enc(*self));
                }
                opcode_count + type_count + body_count + end_count
            },
            Instruction::If(block_type, instructions) => {
                let opcode_count = encoder.push_u8(IF);
                let type_count = block_type.encode(encoder);
                let body_count = encode_instruction_sequence(instructions, encoder);
                let end_count = encoder.push_u8(END);
                proof {
                    assert(encoder@ =~= old(encoder)@ + instr_enc(*self));
                }
                opcode_count + type_count + body_count + end_count
            },
            Instruction::IfElse(block_type, then_instructions, else_instructions) => {
                let opcode_count = encoder.push_u8(IF);
                let type_count = block_type.encode(encoder);
                let then_count = encode_instruction_sequence(then_instructions, encoder);
                let else_marker_count = encoder.push_u8(ELSE);
                let else_count = encode_instruction_sequence(else_instructions, encoder);
                let end_count = encoder.push_u8(END);
                proof {
                    assert(encoder@ =~= old(encoder)@ + instr_enc(*self));
                }
                opcode_count + type_count + then_count + else_marker_count + else_count
                    + end_count
            },
            Instruction::Branch(label_index) => encode_op_with_index(BR, *label_index, encoder),
            Instruction::BranchIf(label_index) => encode_op_with_index(BR_IF, *label_index, encoder),
            Instruction::BranchTable(label_indices, label_index) => {
                let opcode_count = encoder.push_u8(BR_TABLE);
                let mut byte_count: u32 = opcode_count;
                let mut i: usize = 0;
                proof {
                    assert(label_indices@.skip(0) =~= label_indices@);
                    assert(encoder@ + uleb128_seq(label_indices@.skip(0)) + uleb128(
                        *label_index as nat,
                    ) =~= old(encoder)@ + instr_enc(*self));
                }
                while i < label_indices.len()
                    invariant
                        i <= label_indices@.len(),
                        encoder@ + uleb128_seq(label_indices@.skip(i as int)) + uleb128(
                            *label_index as nat,
                        ) == old(encoder)@ + instr_enc(*self),
                        old(encoder)@.len() + instr_enc(*self).len() <= u32::MAX as int,
                        byte_count as int + old(encoder)@.len() == encoder@.len(),
                        old(encoder)@.len() <= encoder@.len(),
                    decreases label_indices@.len() - i,
                {
                    proof {
                        lemma_uleb128_seq_skip(label_indices@, i as int);
                        assert((encoder@ + uleb128_seq(label_indices@.skip(i as int)) + uleb128(
                            *label_index as nat,
                        )).len() == (old(encoder)@ + instr_enc(*self)).len());
                    }
                    let operand_count = encoder.push_leb_u32(label_indices[i]);
                    byte_count = byte_count + operand_count;
                    proof {
                        assert(encoder@ + uleb128_seq(label_indices@.skip(i as int + 1)) + uleb128(
                            *label_index as nat,
                        ) =~= old(encoder)@ + instr_enc(*self));
                    }
                    i = i + 1;
                }
                let default_count = encoder.push_leb_u32(*label_index);
                proof {
                    assert(label_indices@.skip(label_indices@.len() as int) =~= Seq::<
                        u32,
                    >::empty());
                    assert(encoder@ =~= old(encoder)@ + instr_enc(*self));
                }
                byte_count + default_count
            },
            Instruction::Return => encoder.push_u8(RETURN),
            Instruction::Call(function_index) => encode_op_with_index(CALL, *function_index, encoder),
            Instruction::CallIndirect(type_index) => encode_op_with_index(CALL_INDIRECT, *type_index, encoder),
            // Parametric instructions
            Instruction::Drop => encoder.push_u8(DROP),
            Instruction::Select => encoder.push_u8(SELECT),
            // Variable instructions
            Instruction::LocalGet(local_index) => encode_op_with_index(LOCAL_GET, *local_index, encoder),
            Instruction::LocalSet(local_index) => encode_op_with_index(LOCAL_SET, *local_index, encoder),
            Instruction::LocalTee(local_index) => encode_op_with_index(LOCAL_TEE, *local_index, encoder),
            Instruction::GlobalGet(global_index) => encode_op_with_index(GLOBAL_GET, *global_index, encoder),
            Instruction::GlobalSet(global_index) => encode_op_with_index(GLOBAL_SET, *global_index, encoder),
            // Memory instructions
            Instruction::I32Load(mem_args) => encode_op_with_mem_args(I32_LOAD, mem_args, encoder),
            Instruction::I64Load(mem_args) => encode_op_with_mem_args(I64_LOAD, mem_args, encoder),
            Instruction::F32Load(mem_args) => encode_op_with_mem_args(F32_LOAD, mem_args, encoder),
            Instruction::F64Load(mem_args) => encode_op_with_mem_args(F64_LOAD, mem_args, encoder),
            Instruction::I32Load8S(mem_args) => encode_op_with_mem_args(I32_LOAD8_S, mem_args, encoder),
            Instruction::I32Load8U(mem_args) => encode_op_with_mem_args(I32_LOAD8_U, mem_args, encoder),
            Instruction::I32Load16S(mem_args) => encode_op_with_mem_args(I32_LOAD16_S, mem_args, encoder),
            Instruction::I32Load16U(mem_args) => encode_op_with_mem_args(I32_LOAD16_U, mem_args, encoder),
            Instruction::I64Load8S(mem_args) => encode_op_with_mem_args(I64_LOAD8_S, mem_args, encoder),
            Instruction::I64Load8U(mem_args) => encode_op_with_mem_args(I64_LOAD8_U, mem_args, encoder),
            Instruction::I64Load16S(mem_args) => encode_op_with_mem_args(I64_LOAD16_S, mem_args, encoder),
            Instruction::I64Load16U(mem_args) => encode_op_with_mem_args(I64_LOAD16_U, mem_args, encoder),
            Instruction::I64Load32S(mem_args) => encode_op_with_mem_args(I64_LOAD32_S, mem_args, encoder),
            Instruction::I64Load32U(mem_args) => encode_op_with_mem_args(I64_LOAD32_U, mem_args, encoder),
            Instruction::I32Store(mem_args) => encode_op_with_mem_args(I32_STORE, mem_args, encoder),
            Instruction::I64Store(mem_args) => encode_op_with_mem_args(I64_STORE, mem_args, encoder),
            Instruction::F32Store(mem_args) => encode_op_with_mem_args(F32_STORE, mem_args, encoder),
            Instruction::F64Store(mem_args) => encode_op_with_mem_args(F64_STORE, mem_args, encoder),
            Instruction::I32Store8(mem_args) => encode_op_with_mem_args(I32_STORE8, mem_args, encoder),
            Instruction::I32Store16(mem_args) => encode_op_with_mem_args(I32_STORE16, mem_args, encoder),
            Instruction::I64Store8(mem_args) => encode_op_with_mem_args(I64_STORE8, mem_args, encoder),
            Instruction::I64Store16(mem_args) => encode_op_with_mem_args(I64_STORE16, mem_args, encoder),
            Instruction::I64Store32(mem_args) => encode_op_with_mem_args(I64_STORE32, mem_args, encoder),
            Instruction::MemorySize => encoder.push_u16(MEMORY_SIZE),
            Instruction::MemoryGrow => encoder.push_u16(MEMORY_GROW),
            // Numeric instructions
            Instruction::I32Const(value) => {
                let opcode_count = encoder.push_u8(I32_CONST);
                let operand_count = encoder.push_leb_i32(*value);
                proof {
                    assert(encoder@ =~= old(encoder)@ + instr_enc(*self));
                }
                opcode_count + operand_count
            },
            Instruction::I64Const(value) => {
                let opcode_count = encoder.push_u8(I64_CONST);
                let operand_count = encoder.push_leb_i64(*value);
                proof {
                    assert(encoder@ =~= old(encoder)@ + instr_enc(*self));
                }
                opcode_count + operand_count
            },
            Instruction::F32Const(bits) => {
                let opcode_count = encoder.push_u8(F32_CONST);
                let operand_count = encoder.push_u32(*bits);
                proof {
                    assert(encoder@ =~= old(encoder)@ + instr_enc(*self));
                }
                opcode_count + operand_count
            },
            Instruction::F64Const(bits) => {
                let opcode_count = encoder.push_u8(F64_CONST);
                let low_count = encoder.push_u32((*bits % 0x1_0000_0000) as u32);
                let high_count = encoder.push_u32((*bits / 0x1_0000_0000) as u32);
                proof {
                    assert(encoder@ =~= old(encoder)@ + instr_enc(*self));
                }
                opcode_count + low_count + high_count
            },
            Instruction::I32Eqz => encoder.push_u8(I32_EQZ),
            Instruction::I32Eq => encoder.push_u8(I32_EQ),
            Instruction::I32Ne => encoder.push_u8(I32_NE),
            Instruction::I32LtS => encoder.push_u8(I32_LT_S),
            Instruction::I32LtU => encoder.push_u8(I32_LT_U),
            Instruction::I32GtS => encoder.push_u8(I32_GT_S),
            Instruction::I32GtU => encoder.push_u8(I32_GT_U),
            Instruction::I32LeS => encoder.push_u8(I32_LE_S),
            Instruction::I32LeU => encoder.push_u8(I32_LE_U),
            Instruction::I32GeS => encoder.push_u8(I32_GE_S),
            Instruction::I32GeU => encoder.push_u8(I32_GE_U),
            Instruction::I64Eqz => encoder.push_u8(I64_EQZ),
            Instruction::I64Eq => encoder.push_u8(I64_EQ),
            Instruction::I64Ne => encoder.push_u8(I64_NE),
            Instruction::I64LtS => encoder.push_u8(I64_LT_S),
            Instruction::I64LtU => encoder.push_u8(I64_LT_U),
            Instruction::I64GtS => encoder.push_u8(I64_GT_S),
            Instruction::I64GtU => encoder.push_u8(I64_GT_U),
            Instruction::I64LeS => encoder.push_u8(I64_LE_S),
            Instruction::I64LeU => encoder.push_u8(I64_LE_U),
            Instruction::I64GeS => encoder.push_u8(I64_GE_S),
            Instruction::I64GeU => encoder.push_u8(I64_GE_U),
            Instruction::F32Eq => encoder.push_u8(F32_EQ),
            Instruction::F32Ne => encoder.push_u8(F32_NE),
            Instruction::F32Lt => encoder.push_u8(F32_LT),
            Instruction::F32Gt => encoder.push_u8(F32_GT),
            Instruction::F32Le => encoder.push_u8(F32_LE),
            Instruction::F32Ge => encoder.push_u8(F32_GE),
            Instruction::F64Eq => encoder.push_u8(F64_EQ),
            Instruction::F64Ne => encoder.push_u8(F64_NE),
            Instruction::F64Lt => encoder.push_u8(F64_LT),
            Instruction::F64Gt => encoder.push_u8(F64_GT),
            Instruction::F64Le => encoder.push_u8(F64_LE),
            Instruction::F64Ge => encoder.push_u8(F64_GE),
            Instruction::I32Clz => encoder.push_u8(I32_CLZ),
            Instruction::I32Ctz => encoder.push_u8(I32_CTZ),
            Instruction::I32PopCnt => encoder.push_u8(I32_POPCNT),
            Instruction::I32Add => encoder.push_u8(I32_ADD),
            Instruction::I32Sub => encoder.push_u8(I32_SUB),
            Instruction::I32Mul => encoder.push_u8(I32_MUL),
            Instruction::I32DivS => encoder.push_u8(I32_DIV_S),
            Instruction::I32DivU => encoder.push_u8(I32_DIV_U),
            Instruction::I32RemS => encoder.push_u8(I32_REM_S),
            Instruction::I32RemU => encoder.push_u8(I32_REM_U),
            Instruction::I32And => encoder.push_u8(I32_AND),
            Instruction::I32Or => encoder.push_u8(I32_OR),
            Instruction::I32Xor => encoder.push_u8(I32_XOR),
            Instruction::I32Shl => encoder.push_u8(I32_SHL),
            Instruction::I32ShrS => encoder.push_u8(I32_SHR_S),
            Instruction::I32ShrU => encoder.push_u8(I32_SHR_U),
            Instruction::I32Rotl => encoder.push_u8(I32_ROTL),
            Instruction::I32Rotr => encoder.push_u8(I32_ROTR),
            Instruction::I64Clz => encoder.push_u8(I64_CLZ),
            Instruction::I64Ctz => encoder.push_u8(I64_CTZ),
            Instruction::I64PopCnt => encoder.push_u8(I64_POPCNT),
            Instruction::I64Add => encoder.push_u8(I64_ADD),
            Instruction::I64Sub => encoder.push_u8(I64_SUB),
            Instruction::I64Mul => encoder.push_u8(I64_MUL),
            Instruction::I64DivS => encoder.push_u8(I64_DIV_S),
            Instruction::I64DivU => encoder.push_u8(I64_DIV_U),
            Instruction::I64RemS => encoder.push_u8(I64_REM_S),
            Instruction::I64RemU => encoder.push_u8(I64_REM_U),
            Instruction::I64And => encoder.push_u8(I64_AND),
            Instruction::I64Or => encoder.push_u8(I64_OR),
            Instruction::I64Xor => encoder.push_u8(I64_XOR),
            Instruction::I64Shl => encoder.push_u8(I64_SHL),
            Instruction::I64ShrS => encoder.push_u8(I64_SHR_S),
            Instruction::I64ShrU => encoder.push_u8(I64_SHR_U),
            Instruction::I64Rotl => encoder.push_u8(I64_ROTL),
            Instruction::I64Rotr => encoder.push_u8(I64_ROTR),
            Instruction::F32Abs => encoder.push_u8(F32_ABS),
            Instruction::F32Neg => encoder.push_u8(F32_NEG),
            Instruction::F32Ceil => encoder.push_u8(F32_CEIL),
            Instruction::F32Floor => encoder.push_u8(F32_FLOOR),
            Instruction::F32Trunc => encoder.push_u8(F32_TRUNC),
            Instruction::F32Nearest => encoder.push_u8(F32_NEAREST),
            Instruction::F32Sqrt => encoder.push_u8(F32_SQRT),
            Instruction::F32Add => encoder.push_u8(F32_ADD),
            Instruction::F32Sub => encoder.push_u8(F32_SUB),
            Instruction::F32Mul => encoder.push_u8(F32_MUL),
            Instruction::F32Div => encoder.push_u8(F32_DIV),
            Instruction::F32Min => encoder.push_u8(F32_MIN),
            Instruction::F32Max => encoder.push_u8(F32_MAX),
            Instruction::F32CopySign => encoder.push_u8(F32_COPYSIGN),
            Instruction::F64Abs => encoder.push_u8(F64_ABS),
            Instruction::F64Neg => encoder.push_u8(F64_NEG),
            Instruction::F64Ceil => encoder.push_u8(F64_CEIL),
            Instruction::F64Floor => encoder.push_u8(F64_FLOOR),
            Instruction::F64Trunc => encoder.push_u8(F64_TRUNC),
            Instruction::F64Nearest => encoder.push_u8(F64_NEAREST),
            Instruction::F64Sqrt => encoder.push_u8(F64_SQRT),
            Instruction::F64Add => encoder.push_u8(F64_ADD),
            Instruction::F64Sub => encoder.push_u8(F64_SUB),
            Instruction::F64Mul => encoder.push_u8(F64_MUL),
            Instruction::F64Div => encoder.push_u8(F64_DIV),
            Instruction::F64Min => encoder.push_u8(F64_MIN),
            Instruction::F64Max => encoder.push_u8(F64_MAX),
            Instruction::F64CopySign => encoder.push_u8(F64_COPYSIGN),
            Instruction::I32WrapI64 => encoder.push_u8(I32_WRAP_I64),
            Instruction::I32TruncF32S => encoder.push_u8(I32_TRUNC_F32_S),
            Instruction::I32TruncF32U => encoder.push_u8(I32_TRUNC_F32_U),
            Instruction::I32TruncF64S => encoder.push_u8(I32_TRUNC_F64_S),
            Instruction::I32TruncF64U => encoder.push_u8(I32_TRUNC_F64_U),
            Instruction::I64ExtendI32S => encoder.push_u8(I64_EXTEND_I32_S),
            Instruction::I32ExtendI32U => encoder.push_u8(I64_EXTEND_I32_U),
            Instruction::I64TruncF32S => encoder.push_u8(I64_TRUNC_F32_S),
            Instruction::I64TruncF32U => encoder.push_u8(I64_TRUNC_F32_U),
            Instruction::I64TruncF64S => encoder.push_u8(I64_TRUNC_F64_S),
            Instruction::I64TruncF64U => encoder.push_u8(I64_TRUNC_F64_U),
            Instruction::F32ConvertI32S => encoder.push_u8(F32_CONVERT_I32_S),
            Instruction::F32ConvertI32U => encoder.push_u8(F32_CONVERT_I32_U),
            Instruction::F32ConvertI64S => encoder.push_u8(F32_CONVERT_I64_S),
            Instruction::F32ConvertI64U => encoder.push_u8(F32_CONVERT_I64_U),
            Instruction::F32DemoteF64 => encoder.push_u8(F32_DEMOTE_F64),
            Instruction::F64ConvertI32S => encoder.push_u8(F64_CONVERT_I32_S),
            Instruction::F64ConvertI32U => encoder.push_u8(F64_CONVERT_I32_U),
            Instruction::F64ConvertI64S => encoder.push_u8(F64_CONVERT_I64_S),
            Instruction::F64ConvertI64U => encoder.push_u8(F64_CONVERT_I64_U),
            Instruction::F64PromoteF32 => encoder.push_u8(F64_PROMOTE_F32),
            Instruction::I32ReinterpretF32 => encoder.push_u8(I32_REINTERPRET_F32),
            Instruction::I64ReinterpretF64 => encoder.push_u8(I64_REINTERPRET_F64),
            Instruction::F32ReinterpretI32 => encoder.push_u8(F32_REINTERPRET_I32),
            Instruction::F64ReinterpretI64 => encoder.push_u8(F64_REINTERPRET_I64),
        }
    }
}

impl WasmEncode for Instruction {
    open spec fn enc(&self) -> Seq<u8> {
        instr_enc(*self)
    }

    fn encode(&self, encoder: &mut WasmEncoder) -> (count: u32) {
        self.encode_instruction(encoder)
    }
}

impl WasmEncode for Expression {
    open spec fn enc(&self) -> Seq<u8> {
        instr_seq_enc(self.0@) + seq![END]
    }

    fn encode(&self, encoder: &mut WasmEncoder) -> (count: u32) {
        let body_count = encode_instruction_sequence(&self.0, encoder);
        let end_count = encoder.push_u8(END);
        proof {
            assert(encoder@ =~= old(encoder)@ + self.enc());
        }
        body_count + end_count
    }
}

/// Structure of an encoded `if`/`else`: the `if` opcode and block type come
/// first, the two branch encodings are separated by exactly one `else`
/// marker, and exactly one `end` marker closes the construct, whatever the
/// nesting depth of the branches.  The total length is the sum of the
/// lengths of the block type and of both encoded branches, plus one byte for
/// the opcode and two for the structural markers.
pub proof fn lemma_if_else_structure(instruction: Instruction)
    requires
        instruction is IfElse,
    ensures
        ({
            let block_type = instruction->IfElse_0;
            let then_branch = instruction->IfElse_1;
            let else_branch = instruction->IfElse_2;
            &&& instr_enc(instruction) == seq![IF] + block_type.enc() + instr_seq_enc(
                then_branch@,
            ) + seq![ELSE] + instr_seq_enc(else_branch@) + seq![END]
            &&& instr_enc(instruction).len() == 3 + block_type.enc().len() + instr_seq_enc(
                then_branch@,
            ).len() + instr_seq_enc(else_branch@).len()
        }),
{
}

} // verus!
