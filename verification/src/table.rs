//! The opcode table: what each opcode is called, what it does to the stack, how many
//! immediate bytes follow it and whether it halts execution.

use vstd::prelude::*;

use crate::constants::{
    ADD,
    ADDMOD,
    ADDRESS,
    AND,
    BALANCE,
    BASEFEE,
    BLOBBASEFEE,
    BLOBHASH,
    BLOCKHASH,
    BYTE,
    CALL,
    CALLCODE,
    CALLDATACOPY,
    CALLDATALOAD,
    CALLDATASIZE,
    CALLER,
    CALLVALUE,
    CHAINID,
    CLZ,
    CODECOPY,
    CODESIZE,
    COINBASE,
    CREATE,
    CREATE2,
    DELEGATECALL,
    DIFFICULTY,
    DIV,
    DUP1,
    DUP16,
    EQ,
    EXP,
    EXTCODECOPY,
    EXTCODEHASH,
    EXTCODESIZE,
    GAS,
    GASLIMIT,
    GASPRICE,
    GT,
    INVALID,
    ISZERO,
    JUMP,
    JUMPDEST,
    JUMPI,
    KECCAK256,
    LOG0,
    LOG4,
    LT,
    MCOPY,
    MLOAD,
    MOD,
    MSIZE,
    MSTORE,
    MSTORE8,
    MUL,
    MULMOD,
    NOT,
    NUMBER,
    OR,
    ORIGIN,
    PC,
    POP,
    PUSH0,
    PUSH1,
    PUSH32,
    RETURN,
    RETURNDATACOPY,
    RETURNDATASIZE,
    REVERT,
    SAR,
    SDIV,
    SELFBALANCE,
    SELFDESTRUCT,
    SGT,
    SHL,
    SHR,
    SIGNEXTEND,
    SLOAD,
    SLT,
    SMOD,
    SSTORE,
    STATICCALL,
    STOP,
    SUB,
    SWAP1,
    SWAP16,
    TIMESTAMP,
    TLOAD,
    TSTORE,
    XOR,
};
use crate::info::{OpCodeInfo, OpCodeInfoModel};
use crate::laws::lemma_names_are_short_ascii;

verus! {

/// The name of each defined opcode; `None` for a byte that is no opcode.
pub open spec fn spec_name(op: u8) -> Option<Seq<char>> {
    match op {
        0x00 => Some("STOP"@),
        0x01 => Some("ADD"@),
        0x02 => Some("MUL"@),
        0x03 => Some("SUB"@),
        0x04 => Some("DIV"@),
        0x05 => Some("SDIV"@),
        0x06 => Some("MOD"@),
        0x07 => Some("SMOD"@),
        0x08 => Some("ADDMOD"@),
        0x09 => Some("MULMOD"@),
        0x0A => Some("EXP"@),
        0x0B => Some("SIGNEXTEND"@),
        0x10 => Some("LT"@),
        0x11 => Some("GT"@),
        0x12 => Some("SLT"@),
        0x13 => Some("SGT"@),
        0x14 => Some("EQ"@),
        0x15 => Some("ISZERO"@),
        0x16 => Some("AND"@),
        0x17 => Some("OR"@),
        0x18 => Some("XOR"@),
        0x19 => Some("NOT"@),
        0x1A => Some("BYTE"@),
        0x1B => Some("SHL"@),
        0x1C => Some("SHR"@),
        0x1D => Some("SAR"@),
        0x1E => Some("CLZ"@),
        0x20 => Some("KECCAK256"@),
        0x30 => Some("ADDRESS"@),
        0x31 => Some("BALANCE"@),
        0x32 => Some("ORIGIN"@),
        0x33 => Some("CALLER"@),
        0x34 => Some("CALLVALUE"@),
        0x35 => Some("CALLDATALOAD"@),
        0x36 => Some("CALLDATASIZE"@),
        0x37 => Some("CALLDATACOPY"@),
        0x38 => Some("CODESIZE"@),
        0x39 => Some("CODECOPY"@),
        0x3A => Some("GASPRICE"@),
        0x3B => Some("EXTCODESIZE"@),
        0x3C => Some("EXTCODECOPY"@),
        0x3D => Some("RETURNDATASIZE"@),
        0x3E => Some("RETURNDATACOPY"@),
        0x3F => Some("EXTCODEHASH"@),
        0x40 => Some("BLOCKHASH"@),
        0x41 => Some("COINBASE"@),
        0x42 => Some("TIMESTAMP"@),
        0x43 => Some("NUMBER"@),
        0x44 => Some("DIFFICULTY"@),
        0x45 => Some("GASLIMIT"@),
        0x46 => Some("CHAINID"@),
        0x47 => Some("SELFBALANCE"@),
        0x48 => Some("BASEFEE"@),
        0x49 => Some("BLOBHASH"@),
        0x4A => Some("BLOBBASEFEE"@),
        0x50 => Some("POP"@),
        0x51 => Some("MLOAD"@),
        0x52 => Some("MSTORE"@),
        0x53 => Some("MSTORE8"@),
        0x54 => Some("SLOAD"@),
        0x55 => Some("SSTORE"@),
        0x56 => Some("JUMP"@),
        0x57 => Some("JUMPI"@),
        0x58 => Some("PC"@),
        0x59 => Some("MSIZE"@),
        0x5A => Some("GAS"@),
        0x5B => Some("JUMPDEST"@),
        0x5C => Some("TLOAD"@),
        0x5D => Some("TSTORE"@),
        0x5E => Some("MCOPY"@),
        0x5F => Some("PUSH0"@),
        0x60 => Some("PUSH1"@),
        0x61 => Some("PUSH2"@),
        0x62 => Some("PUSH3"@),
        0x63 => Some("PUSH4"@),
        0x64 => Some("PUSH5"@),
        0x65 => Some("PUSH6"@),
        0x66 => Some("PUSH7"@),
        0x67 => Some("PUSH8"@),
        0x68 => Some("PUSH9"@),
        0x69 => Some("PUSH10"@),
        0x6A => Some("PUSH11"@),
        0x6B => Some("PUSH12"@),
        0x6C => Some("PUSH13"@),
        0x6D => Some("PUSH14"@),
        0x6E => Some("PUSH15"@),
        0x6F => Some("PUSH16"@),
        0x70 => Some("PUSH17"@),
        0x71 => Some("PUSH18"@),
        0x72 => Some("PUSH19"@),
        0x73 => Some("PUSH20"@),
        0x74 => Some("PUSH21"@),
        0x75 => Some("PUSH22"@),
        0x76 => Some("PUSH23"@),
        0x77 => Some("PUSH24"@),
        0x78 => Some("PUSH25"@),
        0x79 => Some("PUSH26"@),
        0x7A => Some("PUSH27"@),
        0x7B => Some("PUSH28"@),
        0x7C => Some("PUSH29"@),
        0x7D => Some("PUSH30"@),
        0x7E => Some("PUSH31"@),
        0x7F => Some("PUSH32"@),
        0x80 => Some("DUP1"@),
        0x81 => Some("DUP2"@),
        0x82 => Some("DUP3"@),
        0x83 => Some("DUP4"@),
        0x84 => Some("DUP5"@),
        0x85 => Some("DUP6"@),
        0x86 => Some("DUP7"@),
        0x87 => Some("DUP8"@),
        0x88 => Some("DUP9"@),
        0x89 => Some("DUP10"@),
        0x8A => Some("DUP11"@),
        0x8B => Some("DUP12"@),
        0x8C => Some("DUP13"@),
        0x8D => Some("DUP14"@),
        0x8E => Some("DUP15"@),
        0x8F => Some("DUP16"@),
        0x90 => Some("SWAP1"@),
        0x91 => Some("SWAP2"@),
        0x92 => Some("SWAP3"@),
        0x93 => Some("SWAP4"@),
        0x94 => Some("SWAP5"@),
        0x95 => Some("SWAP6"@),
        0x96 => Some("SWAP7"@),
        0x97 => Some("SWAP8"@),
        0x98 => Some("SWAP9"@),
        0x99 => Some("SWAP10"@),
        0x9A => Some("SWAP11"@),
        0x9B => Some("SWAP12"@),
        0x9C => Some("SWAP13"@),
        0x9D => Some("SWAP14"@),
        0x9E => Some("SWAP15"@),
        0x9F => Some("SWAP16"@),
        0xA0 => Some("LOG0"@),
        0xA1 => Some("LOG1"@),
        0xA2 => Some("LOG2"@),
        0xA3 => Some("LOG3"@),
        0xA4 => Some("LOG4"@),
        0xF0 => Some("CREATE"@),
        0xF1 => Some("CALL"@),
        0xF2 => Some("CALLCODE"@),
        0xF3 => Some("RETURN"@),
        0xF4 => Some("DELEGATECALL"@),
        0xF5 => Some("CREATE2"@),
        0xFA => Some("STATICCALL"@),
        0xFD => Some("REVERT"@),
        0xFE => Some("INVALID"@),
        0xFF => Some("SELFDESTRUCT"@),
        _ => None,
    }
}

/// A byte is an opcode exactly when the table names it.
pub open spec fn is_valid_opcode(op: u8) -> bool {
    spec_name(op) is Some
}

/// The `PUSH1` .. `PUSH32` opcodes, which carry immediate data.
pub open spec fn is_push_opcode(op: u8) -> bool {
    PUSH1 <= op <= PUSH32
}

/// `PUSHn` is followed by `n` immediate bytes; every other opcode by none.
pub open spec fn spec_immediate_size(op: u8) -> u8 {
    if is_push_opcode(op) {
        (op - PUSH1 + 1) as u8
    } else {
        0
    }
}

/// The opcodes that stop execution.
pub open spec fn spec_terminating(op: u8) -> bool {
    op == STOP || op == RETURN || op == REVERT || op == INVALID || op == SELFDESTRUCT
}

/// The number of stack items an opcode pops and the number it pushes.
pub open spec fn spec_stack_io(op: u8) -> (u8, u8) {
    if PUSH0 <= op <= PUSH32 {
        (0, 1)
    } else if DUP1 <= op <= DUP16 {
        // DUPn reads n items and leaves them with a copy on top
        ((op - DUP1 + 1) as u8, (op - DUP1 + 2) as u8)
    } else if SWAP1 <= op <= SWAP16 {
        // SWAPn exchanges the top item with the one n below it
        ((op - SWAP1 + 2) as u8, (op - SWAP1 + 2) as u8)
    } else if LOG0 <= op <= LOG4 {
        // LOGn pops offset, size and n topics
        ((op - LOG0 + 2) as u8, 0)
    } else if op == ADD || op == MUL || op == SUB || op == DIV || op == SDIV || op == MOD || op == SMOD || op == EXP || op == SIGNEXTEND || op == LT || op == GT || op == SLT || op == SGT || op == EQ || op == AND || op == OR || op == XOR || op == BYTE || op == SHL || op == SHR || op == SAR || op == KECCAK256 {
        // binary arithmetic, comparison, bitwise and hashing operations
        (2, 1)
    } else if op == ISZERO || op == NOT || op == CLZ || op == BALANCE || op == CALLDATALOAD || op == EXTCODESIZE || op == EXTCODEHASH || op == BLOCKHASH || op == BLOBHASH || op == MLOAD || op == SLOAD || op == TLOAD {
        // unary operations and lookups by one key
        (1, 1)
    } else if op == ADDRESS || op == ORIGIN || op == CALLER || op == CALLVALUE || op == CALLDATASIZE || op == CODESIZE || op == GASPRICE || op == RETURNDATASIZE || op == COINBASE || op == TIMESTAMP || op == NUMBER || op == DIFFICULTY || op == GASLIMIT || op == CHAINID || op == SELFBALANCE || op == BASEFEE || op == BLOBBASEFEE || op == PC || op == MSIZE || op == GAS {
        // reads of the execution environment
        (0, 1)
    } else if op == ADDMOD || op == MULMOD || op == CREATE {
        // ternary arithmetic and contract creation
        (3, 1)
    } else if op == MSTORE || op == MSTORE8 || op == SSTORE || op == JUMPI || op == TSTORE || op == RETURN || op == REVERT {
        // stores, conditional jumps and halting with return data
        (2, 0)
    } else if op == CALLDATACOPY || op == CODECOPY || op == RETURNDATACOPY || op == MCOPY {
        // copies into memory
        (3, 0)
    } else if op == POP || op == JUMP || op == SELFDESTRUCT {
        // pops without result
        (1, 0)
    } else if op == EXTCODECOPY {
        // copy of another account's code
        (4, 0)
    } else if op == CREATE2 {
        // salted contract creation
        (4, 1)
    } else if op == CALL || op == CALLCODE {
        // message calls that transfer value
        (7, 1)
    } else if op == DELEGATECALL || op == STATICCALL {
        // message calls without value
        (6, 1)
    } else {
        // STOP, JUMPDEST and INVALID; also every byte that is no opcode
        (0, 0)
    }
}

/// The full description of an opcode, as the table gives it.
pub open spec fn spec_opcode_info(op: u8) -> Option<OpCodeInfoModel> {
    match spec_name(op) {
        Some(name) => Some(
            OpCodeInfoModel {
                name,
                inputs: spec_stack_io(op).0,
                outputs: spec_stack_io(op).1,
                immediate_size: spec_immediate_size(op),
                terminating: spec_terminating(op),
            },
        ),
        None => None,
    }
}

/// Looks up the description of an opcode byte; `None` when the byte is no opcode.
pub fn opcode_info(op: u8) -> (r: Option<OpCodeInfo>)
    ensures
        r is Some <==> is_valid_opcode(op),
        r matches Some(info) ==> Some(info@) == spec_opcode_info(op),
{
    proof {
        if is_valid_opcode(op) {
            lemma_names_are_short_ascii(op);
        }
    }
    match op {
        0x00 => Some(OpCodeInfo::entry("STOP", 0, 0, 0, true)),
        0x01 => Some(OpCodeInfo::entry("ADD", 2, 1, 0, false)),
        0x02 => Some(OpCodeInfo::entry("MUL", 2, 1, 0, false)),
        0x03 => Some(OpCodeInfo::entry("SUB", 2, 1, 0, false)),
        0x04 => Some(OpCodeInfo::entry("DIV", 2, 1, 0, false)),
        0x05 => Some(OpCodeInfo::entry("SDIV", 2, 1, 0, false)),
        0x06 => Some(OpCodeInfo::entry("MOD", 2, 1, 0, false)),
        0x07 => Some(OpCodeInfo::entry("SMOD", 2, 1, 0, false)),
        0x08 => Some(OpCodeInfo::entry("ADDMOD", 3, 1, 0, false)),
        0x09 => Some(OpCodeInfo::entry("MULMOD", 3, 1, 0, false)),
        0x0A => Some(OpCodeInfo::entry("EXP", 2, 1, 0, false)),
        0x0B => Some(OpCodeInfo::entry("SIGNEXTEND", 2, 1, 0, false)),
        0x10 => Some(OpCodeInfo::entry("LT", 2, 1, 0, false)),
        0x11 => Some(OpCodeInfo::entry("GT", 2, 1, 0, false)),
        0x12 => Some(OpCodeInfo::entry("SLT", 2, 1, 0, false)),
        0x13 => Some(OpCodeInfo::entry("SGT", 2, 1, 0, false)),
        0x14 => Some(OpCodeInfo::entry("EQ", 2, 1, 0, false)),
        0x15 => Some(OpCodeInfo::entry("ISZERO", 1, 1, 0, false)),
        0x16 => Some(OpCodeInfo::entry("AND", 2, 1, 0, false)),
        0x17 => Some(OpCodeInfo::entry("OR", 2, 1, 0, false)),
        0x18 => Some(OpCodeInfo::entry("XOR", 2, 1, 0, false)),
        0x19 => Some(OpCodeInfo::entry("NOT", 1, 1, 0, false)),
        0x1A => Some(OpCodeInfo::entry("BYTE", 2, 1, 0, false)),
        0x1B => Some(OpCodeInfo::entry("SHL", 2, 1, 0, false)),
        0x1C => Some(OpCodeInfo::entry("SHR", 2, 1, 0, false)),
        0x1D => Some(OpCodeInfo::entry("SAR", 2, 1, 0, false)),
        0x1E => Some(OpCodeInfo::entry("CLZ", 1, 1, 0, false)),
        0x20 => Some(OpCodeInfo::entry("KECCAK256", 2, 1, 0, false)),
        0x30 => Some(OpCodeInfo::entry("ADDRESS", 0, 1, 0, false)),
        0x31 => Some(OpCodeInfo::entry("BALANCE", 1, 1, 0, false)),
        0x32 => Some(OpCodeInfo::entry("ORIGIN", 0, 1, 0, false)),
        0x33 => Some(OpCodeInfo::entry("CALLER", 0, 1, 0, false)),
        0x34 => Some(OpCodeInfo::entry("CALLVALUE", 0, 1, 0, false)),
        0x35 => Some(OpCodeInfo::entry("CALLDATALOAD", 1, 1, 0, false)),
        0x36 => Some(OpCodeInfo::entry("CALLDATASIZE", 0, 1, 0, false)),
        0x37 => Some(OpCodeInfo::entry("CALLDATACOPY", 3, 0, 0, false)),
        0x38 => Some(OpCodeInfo::entry("CODESIZE", 0, 1, 0, false)),
        0x39 => Some(OpCodeInfo::entry("CODECOPY", 3, 0, 0, false)),
        0x3A => Some(OpCodeInfo::entry("GASPRICE", 0, 1, 0, false)),
        0x3B => Some(OpCodeInfo::entry("EXTCODESIZE", 1, 1, 0, false)),
        0x3C => Some(OpCodeInfo::entry("EXTCODECOPY", 4, 0, 0, false)),
        0x3D => Some(OpCodeInfo::entry("RETURNDATASIZE", 0, 1, 0, false)),
        0x3E => Some(OpCodeInfo::entry("RETURNDATACOPY", 3, 0, 0, false)),
        0x3F => Some(OpCodeInfo::entry("EXTCODEHASH", 1, 1, 0, false)),
        0x40 => Some(OpCodeInfo::entry("BLOCKHASH", 1, 1, 0, false)),
        0x41 => Some(OpCodeInfo::entry("COINBASE", 0, 1, 0, false)),
        0x42 => Some(OpCodeInfo::entry("TIMESTAMP", 0, 1, 0, false)),
        0x43 => Some(OpCodeInfo::entry("NUMBER", 0, 1, 0, false)),
        0x44 => Some(OpCodeInfo::entry("DIFFICULTY", 0, 1, 0, false)),
        0x45 => Some(OpCodeInfo::entry("GASLIMIT", 0, 1, 0, false)),
        0x46 => Some(OpCodeInfo::entry("CHAINID", 0, 1, 0, false)),
        0x47 => Some(OpCodeInfo::entry("SELFBALANCE", 0, 1, 0, false)),
        0x48 => Some(OpCodeInfo::entry("BASEFEE", 0, 1, 0, false)),
        0x49 => Some(OpCodeInfo::entry("BLOBHASH", 1, 1, 0, false)),
        0x4A => Some(OpCodeInfo::entry("BLOBBASEFEE", 0, 1, 0, false)),
        0x50 => Some(OpCodeInfo::entry("POP", 1, 0, 0, false)),
        0x51 => Some(OpCodeInfo::entry("MLOAD", 1, 1, 0, false)),
        0x52 => Some(OpCodeInfo::entry("MSTORE", 2, 0, 0, false)),
        0x53 => Some(OpCodeInfo::entry("MSTORE8", 2, 0, 0, false)),
        0x54 => Some(OpCodeInfo::entry("SLOAD", 1, 1, 0, false)),
        0x55 => Some(OpCodeInfo::entry("SSTORE", 2, 0, 0, false)),
        0x56 => Some(OpCodeInfo::entry("JUMP", 1, 0, 0, false)),
        0x57 => Some(OpCodeInfo::entry("JUMPI", 2, 0, 0, false)),
        0x58 => Some(OpCodeInfo::entry("PC", 0, 1, 0, false)),
        0x59 => Some(OpCodeInfo::entry("MSIZE", 0, 1, 0, false)),
        0x5A => Some(OpCodeInfo::entry("GAS", 0, 1, 0, false)),
        0x5B => Some(OpCodeInfo::entry("JUMPDEST", 0, 0, 0, false)),
        0x5C => Some(OpCodeInfo::entry("TLOAD", 1, 1, 0, false)),
        0x5D => Some(OpCodeInfo::entry("TSTORE", 2, 0, 0, false)),
        0x5E => Some(OpCodeInfo::entry("MCOPY", 3, 0, 0, false)),
        0x5F => Some(OpCodeInfo::entry("PUSH0", 0, 1, 0, false)),
        0x60 => Some(OpCodeInfo::entry("PUSH1", 0, 1, 1, false)),
        0x61 => Some(OpCodeInfo::entry("PUSH2", 0, 1, 2, false)),
        0x62 => Some(OpCodeInfo::entry("PUSH3", 0, 1, 3, false)),
        0x63 => Some(OpCodeInfo::entry("PUSH4", 0, 1, 4, false)),
        0x64 => Some(OpCodeInfo::entry("PUSH5", 0, 1, 5, false)),
        0x65 => Some(OpCodeInfo::entry("PUSH6", 0, 1, 6, false)),
        0x66 => Some(OpCodeInfo::entry("PUSH7", 0, 1, 7, false)),
        0x67 => Some(OpCodeInfo::entry("PUSH8", 0, 1, 8, false)),
        0x68 => Some(OpCodeInfo::entry("PUSH9", 0, 1, 9, false)),
        0x69 => Some(OpCodeInfo::entry("PUSH10", 0, 1, 10, false)),
        0x6A => Some(OpCodeInfo::entry("PUSH11", 0, 1, 11, false)),
        0x6B => Some(OpCodeInfo::entry("PUSH12", 0, 1, 12, false)),
        0x6C => Some(OpCodeInfo::entry("PUSH13", 0, 1, 13, false)),
        0x6D => Some(OpCodeInfo::entry("PUSH14", 0, 1, 14, false)),
        0x6E => Some(OpCodeInfo::entry("PUSH15", 0, 1, 15, false)),
        0x6F => Some(OpCodeInfo::entry("PUSH16", 0, 1, 16, false)),
        0x70 => Some(OpCodeInfo::entry("PUSH17", 0, 1, 17, false)),
        0x71 => Some(OpCodeInfo::entry("PUSH18", 0, 1, 18, false)),
        0x72 => Some(OpCodeInfo::entry("PUSH19", 0, 1, 19, false)),
        0x73 => Some(OpCodeInfo::entry("PUSH20", 0, 1, 20, false)),
        0x74 => Some(OpCodeInfo::entry("PUSH21", 0, 1, 21, false)),
        0x75 => Some(OpCodeInfo::entry("PUSH22", 0, 1, 22, false)),
        0x76 => Some(OpCodeInfo::entry("PUSH23", 0, 1, 23, false)),
        0x77 => Some(OpCodeInfo::entry("PUSH24", 0, 1, 24, false)),
        0x78 => Some(OpCodeInfo::entry("PUSH25", 0, 1, 25, false)),
        0x79 => Some(OpCodeInfo::entry("PUSH26", 0, 1, 26, false)),
        0x7A => Some(OpCodeInfo::entry("PUSH27", 0, 1, 27, false)),
        0x7B => Some(OpCodeInfo::entry("PUSH28", 0, 1, 28, false)),
        0x7C => Some(OpCodeInfo::entry("PUSH29", 0, 1, 29, false)),
        0x7D => Some(OpCodeInfo::entry("PUSH30", 0, 1, 30, false)),
        0x7E => Some(OpCodeInfo::entry("PUSH31", 0, 1, 31, false)),
        0x7F => Some(OpCodeInfo::entry("PUSH32", 0, 1, 32, false)),
        0x80 => Some(OpCodeInfo::entry("DUP1", 1, 2, 0, false)),
        0x81 => Some(OpCodeInfo::entry("DUP2", 2, 3, 0, false)),
        0x82 => Some(OpCodeInfo::entry("DUP3", 3, 4, 0, false)),
        0x83 => Some(OpCodeInfo::entry("DUP4", 4, 5, 0, false)),
        0x84 => Some(OpCodeInfo::entry("DUP5", 5, 6, 0, false)),
        0x85 => Some(OpCodeInfo::entry("DUP6", 6, 7, 0, false)),
        0x86 => Some(OpCodeInfo::entry("DUP7", 7, 8, 0, false)),
        0x87 => Some(OpCodeInfo::entry("DUP8", 8, 9, 0, false)),
        0x88 => Some(OpCodeInfo::entry("DUP9", 9, 10, 0, false)),
        0x89 => Some(OpCodeInfo::entry("DUP10", 10, 11, 0, false)),
        0x8A => Some(OpCodeInfo::entry("DUP11", 11, 12, 0, false)),
        0x8B => Some(OpCodeInfo::entry("DUP12", 12, 13, 0, false)),
        0x8C => Some(OpCodeInfo::entry("DUP13", 13, 14, 0, false)),
        0x8D => Some(OpCodeInfo::entry("DUP14", 14, 15, 0, false)),
        0x8E => Some(OpCodeInfo::entry("DUP15", 15, 16, 0, false)),
        0x8F => Some(OpCodeInfo::entry("DUP16", 16, 17, 0, false)),
        0x90 => Some(OpCodeInfo::entry("SWAP1", 2, 2, 0, false)),
        0x91 => Some(OpCodeInfo::entry("SWAP2", 3, 3, 0, false)),
        0x92 => Some(OpCodeInfo::entry("SWAP3", 4, 4, 0, false)),
        0x93 => Some(OpCodeInfo::entry("SWAP4", 5, 5, 0, false)),
        0x94 => Some(OpCodeInfo::entry("SWAP5", 6, 6, 0, false)),
        0x95 => Some(OpCodeInfo::entry("SWAP6", 7, 7, 0, false)),
        0x96 => Some(OpCodeInfo::entry("SWAP7", 8, 8, 0, false)),
        0x97 => Some(OpCodeInfo::entry("SWAP8", 9, 9, 0, false)),
        0x98 => Some(OpCodeInfo::entry("SWAP9", 10, 10, 0, false)),
        0x99 => Some(OpCodeInfo::entry("SWAP10", 11, 11, 0, false)),
        0x9A => Some(OpCodeInfo::entry("SWAP11", 12, 12, 0, false)),
        0x9B => Some(OpCodeInfo::entry("SWAP12", 13, 13, 0, false)),
        0x9C => Some(OpCodeInfo::entry("SWAP13", 14, 14, 0, false)),
        0x9D => Some(OpCodeInfo::entry("SWAP14", 15, 15, 0, false)),
        0x9E => Some(OpCodeInfo::entry("SWAP15", 16, 16, 0, false)),
        0x9F => Some(OpCodeInfo::entry("SWAP16", 17, 17, 0, false)),
        0xA0 => Some(OpCodeInfo::entry("LOG0", 2, 0, 0, false)),
        0xA1 => Some(OpCodeInfo::entry("LOG1", 3, 0, 0, false)),
        0xA2 => Some(OpCodeInfo::entry("LOG2", 4, 0, 0, false)),
        0xA3 => Some(OpCodeInfo::entry("LOG3", 5, 0, 0, false)),
        0xA4 => Some(OpCodeInfo::entry("LOG4", 6, 0, 0, false)),
        0xF0 => Some(OpCodeInfo::entry("CREATE", 3, 1, 0, false)),
        0xF1 => Some(OpCodeInfo::entry("CALL", 7, 1, 0, false)),
        0xF2 => Some(OpCodeInfo::entry("CALLCODE", 7, 1, 0, false)),
        0xF3 => Some(OpCodeInfo::entry("RETURN", 2, 0, 0, true)),
        0xF4 => Some(OpCodeInfo::entry("DELEGATECALL", 6, 1, 0, false)),
        0xF5 => Some(OpCodeInfo::entry("CREATE2", 4, 1, 0, false)),
        0xFA => Some(OpCodeInfo::entry("STATICCALL", 6, 1, 0, false)),
        0xFD => Some(OpCodeInfo::entry("REVERT", 2, 0, 0, true)),
        0xFE => Some(OpCodeInfo::entry("INVALID", 0, 0, 0, true)),
        0xFF => Some(OpCodeInfo::entry("SELFDESTRUCT", 1, 0, 0, true)),
        _ => None,
    }
}

} // verus!
