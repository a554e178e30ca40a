use revm_bytecode::constants::{
    INVALID, PUSH1, PUSH32, RETURN, REVERT, SELFDESTRUCT, STOP,
};
use revm_bytecode::{opcode_info, OpCode};

#[test]
fn test_opcode() {
    let opcode = OpCode::new(0x00).unwrap();
    assert!(!opcode.is_jumpdest());
    assert!(!opcode.is_jump());
    assert!(!opcode.is_push());
    assert_eq!(opcode.as_str(), "STOP");
    assert_eq!(opcode.get(), 0x00);
}

#[test]
fn test_immediate_size() {
    let mut expected = [0u8; 256];
    // PUSH opcodes
    for push in PUSH1..=PUSH32 {
        expected[push as usize] = push - PUSH1 + 1;
    }

    for i in 0..256usize {
        if let Some(opcode) = opcode_info(i as u8) {
            assert_eq!(
                opcode.immediate_size(),
                expected[i],
                "immediate_size check failed for {opcode:#?}",
            );
        }
    }
}

#[test]
fn test_enabled_opcodes() {
    // List obtained from https://eips.ethereum.org/EIPS/eip-3670
    let opcodes = [
        0x10..=0x1d,
        0x20..=0x20,
        0x30..=0x3f,
        0x40..=0x48,
        0x50..=0x5b,
        0x54..=0x5f,
        0x60..=0x6f,
        0x70..=0x7f,
        0x80..=0x8f,
        0x90..=0x9f,
        0xa0..=0xa4,
        0xf0..=0xf5,
        0xfa..=0xfa,
        0xfd..=0xfd,
        //0xfe,
        0xff..=0xff,
    ];
    for i in opcodes {
        for opcode in i {
            OpCode::new(opcode).expect("Opcode should be valid and enabled");
        }
    }
}

#[test]
fn count_opcodes() {
    let mut opcode_num = 0;
    for i in 0..256usize {
        if opcode_info(i as u8).is_some() {
            opcode_num += 1;
        }
    }
    assert_eq!(opcode_num, 150);
}

#[test]
fn test_terminating_opcodes() {
    let terminating = [REVERT, RETURN, INVALID, SELFDESTRUCT, STOP];
    let mut opcodes = [false; 256];
    for terminating in terminating.iter() {
        opcodes[*terminating as usize] = true;
    }

    for i in 0..256usize {
        let opcode = opcode_info(i as u8);
        assert_eq!(
            opcode.map(|opcode| opcode.is_terminating()).unwrap_or_default(),
            opcodes[i],
            "Opcode {opcode:?} terminating check failed."
        );
    }
}

#[test]
fn test_parsing() {
    for i in 0..=u8::MAX {
        if let Some(op) = OpCode::new(i) {
            assert_eq!(OpCode::parse(op.as_str()), Some(op));
        }
    }
}
