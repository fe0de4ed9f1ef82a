//! Tests for the per-section encoders: each section kind against its exact
//! expected byte sequence.

use wasm_encoder::encoder::assert_encoding_eq;
use wasm_encoder::expression::{Expression, Instruction};
use wasm_encoder::function_type::{FunctionType, ValueType};
use wasm_encoder::index::{FunctionIndex, MemoryIndex, TableIndex, TypeIndex};
use wasm_encoder::limits::Limits;
use wasm_encoder::section::code_section::{CodeSection, Function};
use wasm_encoder::section::data_section::{Data, DataSection};
use wasm_encoder::section::element_section::{Element, ElementSection};
use wasm_encoder::section::export_section::{Export, ExportDescriptor, ExportSection};
use wasm_encoder::section::function_section::FunctionSection;
use wasm_encoder::section::global_section::{Global, GlobalSection};
use wasm_encoder::section::import_section::{GlobalMutability, Import, ImportDescriptor, ImportSection};
use wasm_encoder::section::memory_section::{Memory, MemorySection};
use wasm_encoder::section::start_section::StartSection;
use wasm_encoder::section::table_section::{ElementType, Table, TableSection};
use wasm_encoder::section::type_section::TypeSection;

#[test]
fn test_encoding_without_max() {
    assert!(assert_encoding_eq(
        Limits::min(1),
        &[
            0x00, // max flag (off)
            0x01, // min
        ],
    ));
}

#[test]
fn test_encoding_with_max() {
    assert!(assert_encoding_eq(
        Limits::min_max(0, 1),
        &[
            0x01, // max flag (on)
            0x00, // min
            0x01, // max
        ],
    ));
}

#[test]
fn test_limits_encoding_multi_byte_min() {
    assert!(assert_encoding_eq(
        Limits::min_max(300, 70000),
        &[
            0x01, // max flag (on)
            0xac, 0x02, // min 300
            0xf0, 0xa2, 0x04, // max 70000
        ],
    ));
}

#[test]
fn function_type_test_encoding() {
    assert!(assert_encoding_eq(
        FunctionType::new(vec![ValueType::I32, ValueType::F32], vec![ValueType::I64]),
        &[
            0x60, // function type id
            0x02, // param count
            0x7f, // i32
            0x7d, // f32
            0x01, // result count
            0x7e, // i64
        ],
    ));
}

#[test]
fn type_section_test_section_encoding() {
    assert!(assert_encoding_eq(
        TypeSection(vec![FunctionType::new(vec![ValueType::I32], vec![])]),
        &[
            0x01, // section id
            0x05, // byte count
            0x01, // function type count
            0x60, // function type id
            0x01, // param count
            0x7f, // i32
            0x00, // result count
        ],
    ));
}

#[test]
fn import_section_test_section_encoding() {
    assert!(assert_encoding_eq(
        ImportSection(vec![Import::new(
            "fs",
            "read",
            ImportDescriptor::TypeIndex(255),
        )]),
        &[
            0x02, // section id
            0x0c, // byte count
            0x01, // import count
            0x02, // module name length
            0x66, 0x73, // module name ("fs")
            0x04, // name length
            0x72, 0x65, 0x61, 0x64, // name ("read")
            0x00, // import type id
            0xff, 0x01, // type index (leb128 encoded)
        ],
    ));
}

#[test]
fn import_section_global_import_encoding() {
    assert!(assert_encoding_eq(
        ImportSection(vec![Import::new(
            "env",
            "g",
            ImportDescriptor::GlobalType(ValueType::I64, GlobalMutability::Var),
        )]),
        &[
            0x02, // section id
            0x0a, // byte count
            0x01, // import count
            0x03, // module name length
            0x65, 0x6e, 0x76, // module name ("env")
            0x01, // name length
            0x67, // name ("g")
            0x03, // global import tag
            0x7e, // i64
            0x01, // mutable
        ],
    ));
}

#[test]
fn import_section_immutable_global_import_encoding() {
    assert!(assert_encoding_eq(
        ImportSection(vec![Import::new(
            "env",
            "g",
            ImportDescriptor::GlobalType(ValueType::F32, GlobalMutability::Const),
        )]),
        &[
            0x02, // section id
            0x0a, // byte count
            0x01, // import count
            0x03, // module name length
            0x65, 0x6e, 0x76, // module name ("env")
            0x01, // name length
            0x67, // name ("g")
            0x03, // global import tag
            0x7d, // f32
            0x00, // immutable
        ],
    ));
}

#[test]
fn function_section_test_section_encoding() {
    assert!(assert_encoding_eq(
        FunctionSection(vec![TypeIndex(0), TypeIndex(1)]),
        &[
            0x03, // section id
            0x03, // byte count
            0x02, // type index count
            0x00, // type index
            0x01, // type index
        ],
    ));
}

#[test]
fn table_section_test_section_encoding() {
    assert!(assert_encoding_eq(
        TableSection(vec![Table::new(
            ElementType::FunctionReference,
            Limits::min(1),
        )]),
        &[
            0x04, // section id
            0x04, // byte count
            0x01, // table count
            0x70, // element type - funcref
            0x00, 0x01, // limits
        ],
    ));
}

#[test]
fn memory_section_test_section_encoding() {
    assert!(assert_encoding_eq(
        MemorySection(vec![Memory::new(Limits::min(1))]),
        &[
            0x05, // section id
            0x03, // byte count
            0x01, // memory count
            0x00, 0x01, // limits
        ],
    ));
}

#[test]
fn global_section_test_section_encoding() {
    assert!(assert_encoding_eq(
        GlobalSection(vec![Global::Const(
            ValueType::I32,
            Expression(vec![Instruction::I32Const(42)]),
        )]),
        &[
            0x06, // section id
            0x06, // byte count
            0x01, // global count
            0x7f, // value type
            0x00, // global type
            0x41, // i32.const
            0x2a, // 42
            0x0b, // end
        ],
    ));
}

#[test]
fn export_section_test_section_encoding() {
    assert!(assert_encoding_eq(
        ExportSection(vec![Export::new(
            "add",
            ExportDescriptor::FunctionIndex(FunctionIndex(255)),
        )]),
        &[
            0x07, // section id
            0x08, // byte count
            0x01, // export count
            0x03, // name length
            0x61, 0x64, 0x64, // name ("add")
            0x00, // export type id
            0xff, 0x01, // export index (leb128 encoded)
        ],
    ));
}

#[test]
fn start_section_test_section_encoding() {
    assert!(assert_encoding_eq(
        StartSection(FunctionIndex(255)),
        &[
            0x08, // section id
            0x02, // byte count
            0xff, 0x01, // function index (leb128 encoded)
        ],
    ));
}

#[test]
fn start_section_wide_index_encoding() {
    assert!(assert_encoding_eq(
        StartSection(FunctionIndex(100000)),
        &[
            0x08, // section id
            0x03, // byte count
            0xa0, 0x8d, 0x06, // function index 100000 (leb128 encoded)
        ],
    ));
}

#[test]
fn element_section_test_section_encoding() {
    assert!(assert_encoding_eq(
        ElementSection(vec![Element::new(
            TableIndex(0),
            Expression(vec![Instruction::I32Const(0)]),
            vec![0],
        )]),
        &[
            0x09, // section id
            0x07, // byte count
            0x01, // element count
            0x00, // table index
            0x41, 0x00, 0x0b, // (i32.const 0)
            0x01, // function index count
            0x00, // function index
        ],
    ));
}

#[test]
fn code_section_test_section_encoding() {
    assert!(assert_encoding_eq(
        CodeSection(vec![Function::new(
            vec![],
            Expression(vec![Instruction::I32Const(6)]),
        )]),
        &[
            0x0a, // section id
            0x06, // section byte count
            0x01, // function count
            0x04, // function byte count
            0x00, // local count
            0x41, 0x06, 0x0b, // (i32.const 6)
        ],
    ));
}

#[test]
fn data_section_test_section_encoding() {
    assert!(assert_encoding_eq(
        DataSection(vec![Data::new(
            MemoryIndex(0),
            Expression(vec![Instruction::I32Const(0)]),
            vec![],
        )]),
        &[
            0x0b, // section id
            0x06, // byte count
            0x01, // data count
            0x00, // memory index
            0x41, 0x00, 0x0b, // (i32.const 0)
            0x00, // byte vec length
        ],
    ));
}

#[test]
fn data_section_long_content_gets_two_byte_length() {
    // Enough data bytes that the section's own length field no longer fits
    // in one LEB128 byte: the placeholder must widen when it is spliced.
    let payload: Vec<u8> = std::iter::repeat(0x5a).take(200).collect();
    let section = DataSection(vec![Data::new(
        MemoryIndex(0),
        Expression(vec![Instruction::I32Const(8)]),
        payload.clone(),
    )]);

    // content: count 1, memory index, (i32.const 8) end, byte length 200, bytes
    let mut expected_bytes = vec![0x0b];
    let content_length = 1 + 1 + 3 + 2 + 200;
    assert_eq!(content_length, 207);
    expected_bytes.extend([0xcf, 0x01]); // 207 as two LEB128 bytes
    expected_bytes.extend([0x01, 0x00, 0x41, 0x08, 0x0b, 0xc8, 0x01]);
    expected_bytes.extend(payload);
    assert!(assert_encoding_eq(section, expected_bytes.as_slice()));
}
