//! Tests for whole-module encoding, instruction encoding, and the
//! properties that relate several encodings: empty-module bytes,
//! nested control flow markers, and byte-identical re-encoding.

use wasm_encoder::encoder::{assert_encoding_eq, WasmEncode, WasmEncoder};
use wasm_encoder::expression::{BlockType, Expression, Instruction, MemoryArguments};
use wasm_encoder::function_type::{FunctionType, ValueType};
use wasm_encoder::index::{FunctionIndex, MemoryIndex, TypeIndex};
use wasm_encoder::limits::Limits;
use wasm_encoder::module::Module;
use wasm_encoder::section::code_section::{CodeSection, Function, Local};
use wasm_encoder::section::data_section::{Data, DataSection};
use wasm_encoder::section::export_section::{Export, ExportDescriptor, ExportSection};
use wasm_encoder::section::function_section::FunctionSection;
use wasm_encoder::section::import_section::{Import, ImportDescriptor, ImportSection};
use wasm_encoder::section::memory_section::{Memory, MemorySection};
use wasm_encoder::section::type_section::TypeSection;
use wasm_encoder::section::Section;

#[test]
fn module_test_encoding() {
    assert!(assert_encoding_eq(
        Module(vec![]),
        &[
            0x00, 0x61, 0x73, 0x6D, // magic number "\0asm"
            0x01, 0x00, 0x00, 0x00, // version 1
        ],
    ));
}

#[test]
fn test_instruction_memory_access_operands() {
    assert!(assert_encoding_eq(
        Expression(vec![
            Instruction::I32Const(0),
            Instruction::I32Load(MemoryArguments::new(2, 16)),
        ]),
        &[
            0x41, 0x00, // (i32.const 0)
            0x28, 0x02, 0x10, // (i32.load align=2 offset=16)
            0x0b, // end
        ],
    ));
}

#[test]
fn test_instruction_memory_size_and_grow() {
    assert!(assert_encoding_eq(
        Expression(vec![Instruction::MemorySize, Instruction::MemoryGrow]),
        &[
            0x3f, 0x00, // memory.size with reserved byte
            0x40, 0x00, // memory.grow with reserved byte
            0x0b, // end
        ],
    ));
}

#[test]
fn test_instruction_branch_table_operands() {
    assert!(assert_encoding_eq(
        Expression(vec![Instruction::BranchTable(vec![1, 2, 300], 0)]),
        &[
            0x0e, // br_table
            0x01, 0x02, 0xac, 0x02, // label indices 1, 2, 300
            0x00, // default label index
            0x0b, // end
        ],
    ));
}

#[test]
fn test_instruction_float_const_bit_patterns() {
    assert!(assert_encoding_eq(
        Expression(vec![
            Instruction::F32Const(0x3f800000),
            Instruction::F64Const(0x3ff0000000000000),
        ]),
        &[
            0x43, 0x00, 0x00, 0x80, 0x3f, // (f32.const 1.0)
            0x44, 0x00, 0x00, 0x00, 0x00, 0x00, 0x00, 0xf0, 0x3f, // (f64.const 1.0)
            0x0b, // end
        ],
    ));
}

#[test]
fn test_if_else_emits_one_else_and_one_end() {
    // An if/else whose else-branch holds another if/else: each construct
    // gets exactly one else marker between its branches and one end marker,
    // and the byte counts add up across the nesting.
    let inner = Instruction::IfElse(
        BlockType::Empty,
        vec![Instruction::Nop],
        vec![Instruction::Drop],
    );
    let outer = Instruction::IfElse(BlockType::Empty, vec![Instruction::Nop], vec![inner]);
    assert!(assert_encoding_eq(
        Expression(vec![outer]),
        &[
            0x04, 0x40, // if (empty block type)
            0x01, // nop
            0x05, // else
            0x04, 0x40, // nested if (empty block type)
            0x01, // nop
            0x05, // nested else
            0x1a, // drop
            0x0b, // nested end
            0x0b, // end
            0x0b, // expression end
        ],
    ));
}

#[test]
fn test_block_and_loop_emit_matching_end_markers() {
    assert!(assert_encoding_eq(
        Expression(vec![Instruction::Block(
            BlockType::Value(ValueType::I32),
            vec![Instruction::Loop(BlockType::Empty, vec![Instruction::Branch(0)])],
        )]),
        &[
            0x02, 0x7f, // block (result i32)
            0x03, 0x40, // loop (empty block type)
            0x0c, 0x00, // br 0
            0x0b, // loop end
            0x0b, // block end
            0x0b, // expression end
        ],
    ));
}

fn example_module() -> Module {
    Module(vec![
        Section::TypeSection(TypeSection(vec![
            FunctionType::new(
                vec![ValueType::I32, ValueType::I32, ValueType::I32, ValueType::I32],
                vec![ValueType::I32],
            ),
            FunctionType::new(vec![], vec![]),
        ])),
        Section::ImportSection(ImportSection(vec![Import::new(
            "wasi_unstable",
            "fd_write",
            ImportDescriptor::TypeIndex(0),
        )])),
        Section::FunctionSection(FunctionSection(vec![TypeIndex(1)])),
        Section::MemorySection(MemorySection(vec![Memory::new(Limits::min(1))])),
        Section::ExportSection(ExportSection(vec![
            Export::new("memory", ExportDescriptor::MemoryIndex(MemoryIndex(0))),
            Export::new("_start", ExportDescriptor::FunctionIndex(FunctionIndex(1))),
        ])),
        Section::CodeSection(CodeSection(vec![Function::new(
            vec![Local::new(1, ValueType::I32)],
            Expression(vec![
                Instruction::I32Const(0),
                Instruction::I32Const(8),
                Instruction::I32Store(MemoryArguments::new(2, 0)),
                Instruction::Call(0),
                Instruction::Drop,
            ]),
        )])),
        Section::DataSection(DataSection(vec![Data::new(
            MemoryIndex(0),
            Expression(vec![Instruction::I32Const(8)]),
            b"hello world!\n".to_vec(),
        )])),
    ])
}

#[test]
fn test_encoding_twice_is_byte_identical() {
    let mut first_encoder = WasmEncoder::new();
    let first_count = example_module().encode(&mut first_encoder);
    let mut second_encoder = WasmEncoder::new();
    let second_count = example_module().encode(&mut second_encoder);

    assert_eq!(first_encoder.as_slice(), second_encoder.as_slice());
    assert_eq!(first_count, second_count);
    assert_eq!(first_count as usize, first_encoder.as_slice().len());
}

#[test]
fn test_module_starts_with_preamble() {
    let mut encoder = WasmEncoder::new();
    let byte_count = example_module().encode(&mut encoder);
    let bytes = encoder.as_slice();

    assert_eq!(&bytes[0..8], [0x00, 0x61, 0x73, 0x6d, 0x01, 0x00, 0x00, 0x00]);
    assert_eq!(byte_count as usize, bytes.len());
    // The type section follows the preamble directly.
    assert_eq!(bytes[8], 0x01);
}
