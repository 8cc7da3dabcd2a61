//! Whole-module decoding: framing, sections, and error reporting.

use wasm::instructions::control::{BlockType, ControlInstruction};
use wasm::instructions::numeric::NumericInstruction;
use wasm::instructions::{Expression, Instruction, Instructions};
use wasm::modules::indices::LabelIdx;
use wasm::modules::indices::{FuncIdx, TypeIdx};
use wasm::modules::{
    decode_module, CodeSection, CustomSection, DataCountSection, ExportSection, FunctionSection,
    Magic, Module, Section, StartSection, TypeSection, Version,
};
use wasm::modules::code::{Code, Func};
use wasm::modules::data::Data;
use wasm::modules::element::Elem;
use wasm::modules::export::{Export, ExportDescriptor};
use wasm::modules::import::{Import, ImportDescriptor};
use wasm::types::FuncType;
use wasm::values::{DecodeError, ErrorKind, Name, Parse};

const HEADER: [u8; 8] = [0x00, 0x61, 0x73, 0x6D, 0x01, 0x00, 0x00, 0x00];

fn module_bytes(sections: &[&[u8]]) -> Vec<u8> {
    let mut v = HEADER.to_vec();
    for s in sections {
        v.extend_from_slice(s);
    }
    v
}

#[test]
fn empty_module() {
    let (m, trailing) = decode_module(&HEADER).unwrap();
    assert_eq!(m.magic, Magic);
    assert_eq!(m.version, Version([0x01, 0x00, 0x00, 0x00]));
    assert_eq!(m.sections, vec![]);
    assert_eq!(trailing, 0);
}

#[test]
fn type_section_single_empty_func_type() {
    let bytes = module_bytes(&[&[0x01, 0x05, 0x01, 0x60, 0x00, 0x00]]);
    let (m, trailing) = decode_module(&bytes).unwrap();
    assert_eq!(
        m.sections,
        vec![Section::TypeSection(TypeSection(vec![FuncType { rt1: vec![], rt2: vec![] }]))]
    );
    assert_eq!(trailing, 0);
}

#[test]
fn section_id_thirteen_is_unexpected() {
    let bytes = module_bytes(&[&[0x0D, 0x00]]);
    let e = decode_module(&bytes).unwrap_err();
    assert_eq!(e, DecodeError { kind: ErrorKind::UnexpectedByte, offset: 8 });
}

#[test]
fn magic_too_short_is_truncated() {
    let e = decode_module(&[0x00, 0x61]).unwrap_err();
    assert_eq!(e, DecodeError { kind: ErrorKind::Truncated, offset: 0 });
    let e = decode_module(&[]).unwrap_err();
    assert_eq!(e, DecodeError { kind: ErrorKind::Truncated, offset: 0 });
}

#[test]
fn wrong_magic_reports_first_differing_byte() {
    let e = decode_module(&[0x00, 0x61, 0x73, 0x6E, 0x01, 0x00, 0x00, 0x00]).unwrap_err();
    assert_eq!(e, DecodeError { kind: ErrorKind::UnexpectedByte, offset: 3 });
}

#[test]
fn version_too_short_is_truncated() {
    let e = decode_module(&[0x00, 0x61, 0x73, 0x6D, 0x01, 0x00]).unwrap_err();
    assert_eq!(e, DecodeError { kind: ErrorKind::Truncated, offset: 4 });
}

#[test]
fn any_version_is_accepted() {
    let (m, _) = decode_module(&[0x00, 0x61, 0x73, 0x6D, 0x09, 0x08, 0x07, 0x06]).unwrap();
    assert_eq!(m.version, Version([0x09, 0x08, 0x07, 0x06]));
}

#[test]
fn custom_section_payload() {
    // Declared length 4: a one-byte name "a" (2 bytes with its count) and
    // then 2 raw payload bytes.
    let bytes = module_bytes(&[&[0x00, 0x04, 0x01, 0x61, 0xAA, 0xBB]]);
    let (m, trailing) = decode_module(&bytes).unwrap();
    assert_eq!(
        m.sections,
        vec![Section::CustomSection(CustomSection {
            name: Name(vec![0x61]),
            data: vec![0xAA, 0xBB],
        })]
    );
    assert_eq!(trailing, 0);
}

#[test]
fn custom_section_name_longer_than_declared_is_malformed() {
    // Declared length 0, but the name alone consumes 2 bytes.
    let bytes = module_bytes(&[&[0x00, 0x00, 0x01, 0x61]]);
    let e = decode_module(&bytes).unwrap_err();
    assert_eq!(e, DecodeError { kind: ErrorKind::Malformed, offset: 12 });
}

#[test]
fn custom_section_payload_truncated() {
    // Declared length 5 promises 3 payload bytes; only one remains.
    let bytes = module_bytes(&[&[0x00, 0x05, 0x01, 0x61, 0xAA]]);
    let e = decode_module(&bytes).unwrap_err();
    assert_eq!(e, DecodeError { kind: ErrorKind::Truncated, offset: 12 });
}

#[test]
fn declared_section_length_is_not_enforced() {
    // The type section's declared length is wrong; decoding continues from
    // where the payload grammar actually finished.
    let bytes = module_bytes(&[&[0x01, 0x63, 0x01, 0x60, 0x00, 0x00]]);
    let (m, _) = decode_module(&bytes).unwrap();
    assert_eq!(
        m.sections,
        vec![Section::TypeSection(TypeSection(vec![FuncType { rt1: vec![], rt2: vec![] }]))]
    );
}

#[test]
fn several_sections_in_order() {
    let bytes = module_bytes(&[
        // type: one empty functype
        &[0x01, 0x05, 0x01, 0x60, 0x00, 0x00],
        // function: one entry referring to type 0
        &[0x03, 0x02, 0x01, 0x00],
        // export: "a" as func 0
        &[0x07, 0x05, 0x01, 0x01, 0x61, 0x00, 0x00],
        // start: function 0
        &[0x08, 0x01, 0x00],
        // code: one entry, empty locals, empty body
        &[0x0A, 0x04, 0x01, 0x02, 0x00, 0x0B],
    ]);
    let (m, trailing) = decode_module(&bytes).unwrap();
    assert_eq!(trailing, 0);
    assert_eq!(m.sections.len(), 5);
    assert_eq!(
        m.sections[1],
        Section::FunctionSection(FunctionSection(vec![TypeIdx(0)]))
    );
    assert_eq!(
        m.sections[2],
        Section::ExportSection(ExportSection(vec![Export {
            name: Name(vec![0x61]),
            descriptor: ExportDescriptor::Func(FuncIdx(0)),
        }]))
    );
    assert_eq!(
        m.sections[3],
        Section::StartSection(StartSection(Some(FuncIdx(0))))
    );
    assert_eq!(
        m.sections[4],
        Section::CodeSection(CodeSection(vec![Code {
            size: 2,
            code: Func { locals: vec![], body: Expression(vec![]) },
        }]))
    );
}

#[test]
fn import_section_entry() {
    // module "a", name "b", a function of type 0
    let bytes = module_bytes(&[&[0x02, 0x07, 0x01, 0x01, 0x61, 0x01, 0x62, 0x00, 0x00]]);
    let (m, _) = decode_module(&bytes).unwrap();
    match &m.sections[0] {
        Section::ImportSection(s) => {
            assert_eq!(
                s.0,
                vec![Import {
                    module: Name(vec![0x61]),
                    name: Name(vec![0x62]),
                    descriptor: ImportDescriptor::Func(TypeIdx(0)),
                }]
            );
        }
        other => panic!("not an import section: {:?}", other),
    }
}

#[test]
fn element_and_data_sections() {
    let bytes = module_bytes(&[
        // element: one active segment, offset expression [i32.const 0], one function index
        &[0x09, 0x07, 0x01, 0x00, 0x41, 0x00, 0x0B, 0x01, 0x00],
        // data: one passive segment of two bytes
        &[0x0B, 0x05, 0x01, 0x01, 0x02, 0xAA, 0xBB],
        // data count
        &[0x0C, 0x01, 0x05],
    ]);
    let (m, _) = decode_module(&bytes).unwrap();
    match &m.sections[0] {
        Section::ElementSection(s) => {
            assert_eq!(
                s.0,
                vec![Elem::ActiveIndex(
                    Expression(vec![Instruction::Numeric(NumericInstruction::I32Const(0))]),
                    vec![FuncIdx(0)],
                )]
            );
        }
        other => panic!("not an element section: {:?}", other),
    }
    match &m.sections[1] {
        Section::DataSection(s) => {
            assert_eq!(s.0, vec![Data::Passive(vec![0xAA, 0xBB])]);
        }
        other => panic!("not a data section: {:?}", other),
    }
    assert_eq!(
        m.sections[2],
        Section::DataCountSection(DataCountSection(Some(5)))
    );
}

#[test]
fn failure_inside_section_body_propagates() {
    // The type section's functype lead byte is wrong.
    let bytes = module_bytes(&[&[0x01, 0x05, 0x01, 0x61, 0x00, 0x00]]);
    let e = decode_module(&bytes).unwrap_err();
    assert_eq!(e, DecodeError { kind: ErrorKind::UnexpectedByte, offset: 11 });
}

#[test]
fn error_path_is_stable() {
    // Re-decoding the same malformed input yields the same kind and offset.
    let bytes = module_bytes(&[&[0x01, 0x05, 0x01, 0x61, 0x00, 0x00]]);
    let e1 = decode_module(&bytes).unwrap_err();
    let e2 = decode_module(&bytes).unwrap_err();
    assert_eq!(e1, e2);
    let short = [0x00, 0x61, 0x73];
    assert_eq!(
        decode_module(&short).unwrap_err(),
        decode_module(&short).unwrap_err()
    );
}

#[test]
fn module_with_loop_body() {
    let bytes = module_bytes(&[
        &[0x01, 0x04, 0x01, 0x60, 0x00, 0x00],
        &[0x03, 0x02, 0x01, 0x00],
        // code: one body, no locals: loop { i32.const 0; br_if 0 }
        &[
            0x0A, 0x0B, 0x01, 0x09, 0x00, 0x03, 0x40, 0x41, 0x00, 0x0D, 0x00, 0x0B, 0x0B,
        ],
    ]);
    let (m, trailing) = decode_module(&bytes).unwrap();
    assert_eq!(trailing, 0);
    match &m.sections[2] {
        Section::CodeSection(s) => {
            let body = &s.0[0].code.body;
            assert_eq!(
                body,
                &Expression(vec![Instruction::Control(ControlInstruction::Loop(
                    BlockType::Empty,
                    Instructions(vec![
                        Instruction::Numeric(NumericInstruction::I32Const(0)),
                        Instruction::Control(ControlInstruction::BrIf(LabelIdx(0))),
                    ]),
                ))])
            );
        }
        other => panic!("not a code section: {:?}", other),
    }
}

#[test]
fn module_parse_reports_remaining_input() {
    let (m, end) = Module::parse(&HEADER, 0).unwrap();
    assert_eq!(end, HEADER.len());
    assert_eq!(m.sections, vec![]);
}
