use revm_bytecode::constants::{
    ADD, CALL, CODECOPY, DUP1, DUP16, DUP3, JUMP, JUMPDEST, LOG0, LOG2, LOG4, MLOAD, NOP, PUSH0,
    PUSH1, PUSH32, SSTORE, STOP, SWAP1, SWAP16,
};
use revm_bytecode::{immediate_size, opcode_info, stack_io, terminating, OpCode, OpCodeInfo};

#[test]
fn invalid_bytes_have_no_opcode() {
    for byte in [0x0Cu8, 0x0F, 0x1F, 0x21, 0x2F, 0x4B, 0x4F, 0xA5, 0xEF, 0xF6, 0xF9, 0xFB, 0xFC] {
        assert!(OpCode::new(byte).is_none());
        assert!(OpCode::info_by_op(byte).is_none());
        assert!(opcode_info(byte).is_none());
        assert_eq!(OpCode::name_by_op(byte), "Unknown");
        assert!(OpCode::parse(OpCode::name_by_op(byte)).is_none());
    }
}

#[test]
fn opcode_ranges_law_on_every_byte() {
    for byte in 0..=u8::MAX {
        let in_ranges = byte <= 0x0B
            || (0x10..=0x1E).contains(&byte)
            || byte == 0x20
            || (0x30..=0x4A).contains(&byte)
            || (0x50..=0xA4).contains(&byte)
            || (0xF0..=0xF5).contains(&byte)
            || byte == 0xFA
            || byte >= 0xFD;
        assert_eq!(OpCode::new(byte).is_some(), in_ranges);
        assert_eq!(OpCode::name_by_op(byte) == "Unknown", !in_ranges);
    }
}

#[test]
fn names_identify_opcodes() {
    let mut names = Vec::new();
    for byte in 0..=u8::MAX {
        if let Some(op) = OpCode::new(byte) {
            assert!(op.as_str().len() <= 14);
            assert!(op.as_str().is_ascii());
            assert!(!names.contains(&op.as_str()));
            names.push(op.as_str());
            assert_eq!(OpCode::parse(op.as_str()).map(|o| o.get()), Some(byte));
        }
    }
    assert_eq!(names.len(), 150);
}

#[test]
fn parse_rejects_other_text() {
    assert_eq!(OpCode::parse(""), None);
    assert_eq!(OpCode::parse("add"), None);
    assert_eq!(OpCode::parse("ADDX"), None);
    assert_eq!(OpCode::parse(" ADD"), None);
    assert_eq!(OpCode::parse("PUSH33"), None);
    assert_eq!(OpCode::parse("Unknown"), None);
    assert_eq!(OpCode::parse("PUSH32").map(|o| o.get()), Some(PUSH32));
    assert_eq!(OpCode::parse("KECCAK256").map(|o| o.get()), Some(0x20));
}

#[test]
fn stack_effects() {
    let add = OpCode::new(ADD).unwrap();
    assert_eq!(add.input_output(), (2, 1));
    assert_eq!(add.io_diff(), -1);
    let dup3 = OpCode::new(DUP3).unwrap();
    assert_eq!((dup3.inputs(), dup3.outputs()), (3, 4));
    assert_eq!(dup3.io_diff(), 1);
    assert_eq!(OpCode::new(DUP1).unwrap().input_output(), (1, 2));
    assert_eq!(OpCode::new(DUP16).unwrap().input_output(), (16, 17));
    assert_eq!(OpCode::new(SWAP1).unwrap().input_output(), (2, 2));
    assert_eq!(OpCode::new(SWAP16).unwrap().input_output(), (17, 17));
    assert_eq!(OpCode::new(LOG0).unwrap().input_output(), (2, 0));
    assert_eq!(OpCode::new(LOG2).unwrap().input_output(), (4, 0));
    assert_eq!(OpCode::new(LOG4).unwrap().io_diff(), -6);
    assert_eq!(OpCode::new(CALL).unwrap().input_output(), (7, 1));
    assert_eq!(OpCode::new(CALL).unwrap().io_diff(), -6);
    assert_eq!(OpCode::new(STOP).unwrap().input_output(), (0, 0));
    assert_eq!(OpCode::new(PUSH0).unwrap().input_output(), (0, 1));
    let info = OpCode::info_by_op(SSTORE).unwrap();
    assert_eq!(info.name(), "SSTORE");
    assert_eq!((info.inputs(), info.outputs(), info.io_diff()), (2, 0, -2));
    assert_eq!(info.immediate_size(), 0);
    assert!(!info.is_terminating());
}

#[test]
fn push_immediates() {
    assert_eq!(OpCode::new(PUSH0).unwrap().info().immediate_size(), 0);
    assert_eq!(OpCode::new(PUSH1).unwrap().info().immediate_size(), 1);
    assert_eq!(OpCode::new(PUSH32).unwrap().info().immediate_size(), 32);
    assert!(OpCode::new(PUSH1).unwrap().is_push());
    assert!(!OpCode::new(PUSH0).unwrap().is_push());
    assert!(OpCode::is_push_by_op(0x70));
    assert!(!OpCode::is_push_by_op(PUSH0));
    assert!(!OpCode::is_push_by_op(0x0C));
}

#[test]
fn jumps() {
    assert!(OpCode::new(JUMPDEST).unwrap().is_jumpdest());
    assert!(OpCode::is_jumpdest_by_op(NOP));
    assert!(!OpCode::is_jumpdest_by_op(JUMP));
    assert!(OpCode::new(JUMP).unwrap().is_jump());
    assert!(OpCode::is_jump_by_op(0x56));
    assert!(!OpCode::is_jump_by_op(0x57));
    assert!(!OpCode::is_jump_by_op(0x0C));
}

#[test]
fn memory_opcodes() {
    let mut count = 0;
    for byte in 0..=u8::MAX {
        if let Some(op) = OpCode::new(byte) {
            if op.modifies_memory() {
                count += 1;
            }
        }
    }
    assert_eq!(count, 12);
    assert!(OpCode::new(MLOAD).unwrap().modifies_memory());
    assert!(OpCode::new(CODECOPY).unwrap().modifies_memory());
    assert!(!OpCode::new(SSTORE).unwrap().modifies_memory());
}

#[test]
fn conversions() {
    let op = OpCode::new(0xFF).unwrap();
    assert_eq!(op.get(), 0xFF);
    assert_eq!(op.as_usize(), 255);
    assert_eq!(op.as_str(), "SELFDESTRUCT");
    assert_eq!(op.to_string(), "SELFDESTRUCT".to_string());
    assert!(op == 0xFFu8);
    assert!(op != 0xFEu8);
    assert_eq!(OpCode::default().get(), STOP);
    assert_eq!(OpCode::name_by_op(0x5F), "PUSH0");
}

#[test]
fn info_builders() {
    let info = OpCodeInfo::new("RJUMPV");
    assert_eq!(info.name(), "RJUMPV");
    assert_eq!((info.inputs(), info.outputs(), info.immediate_size()), (0, 0, 0));
    assert!(!info.is_terminating());
    let info = stack_io(info, 1, 0);
    assert_eq!((info.inputs(), info.outputs(), info.io_diff()), (1, 0, -1));
    let info = immediate_size(info, 1);
    assert_eq!(info.immediate_size(), 1);
    assert_eq!(info.inputs(), 1);
    let info = terminating(info);
    assert!(info.is_terminating());
    assert_eq!(info.name(), "RJUMPV");
    assert_eq!(info.outputs(), 0);
}

#[test]
fn table_agrees_with_opcode_methods() {
    for byte in 0..=u8::MAX {
        match (OpCode::new(byte), opcode_info(byte)) {
            (Some(op), Some(info)) => {
                assert_eq!(op.info(), info);
                assert_eq!(op.as_str(), info.name());
                assert_eq!(op.input_output(), (info.inputs(), info.outputs()));
                assert_eq!(OpCode::info_by_op(byte), Some(info));
            }
            (None, None) => {}
            _ => panic!("table and constructor disagree on {byte:#x}"),
        }
    }
}

#[test]
fn info_debug_lists_fields_in_order() {
    let text = format!("{:?}", opcode_info(0x60).unwrap());
    let positions: Vec<usize> = ["name", "inputs", "outputs", "terminating", "immediate_size"]
        .iter()
        .map(|field| text.find(field).unwrap())
        .collect();
    assert!(positions.windows(2).all(|w| w[0] < w[1]), "{text}");
    assert!(text.contains("\"PUSH1\""));
}

#[test]
fn table_names_fit_in_256_bytes() {
    for byte in 0..=u8::MAX {
        if let Some(info) = opcode_info(byte) {
            assert!(info.name().len() < 256);
        }
    }
}
