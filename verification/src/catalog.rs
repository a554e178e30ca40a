//! The opcode catalogue, byte by byte: each opcode's byte, name, stack effect, immediate
//! size and halting flag, written out as fixed values and proved against the table.

use vstd::prelude::*;

use crate::constants;
use crate::info::OpCodeInfoModel;
use crate::opcode::spec_modifies_memory;
use crate::table::{is_push_opcode, spec_opcode_info};

verus! {

/// The description of an opcode from its parts.
pub open spec fn described(
    name: Seq<char>,
    inputs: u8,
    outputs: u8,
    immediate_size: u8,
    terminating: bool,
) -> Option<OpCodeInfoModel> {
    Some(OpCodeInfoModel { name, inputs, outputs, immediate_size, terminating })
}

/// The arithmetic, comparison, bitwise, hashing and environment opcodes (`0x00` to `0x4A`): each named constant has its byte, and the table gives that byte
/// its name, the number of stack items it pops and pushes, its immediate size and
/// whether it halts.
pub proof fn lemma_catalog_computation()
    ensures
        constants::STOP == 0x00,
        spec_opcode_info(0x00) == described("STOP"@, 0, 0, 0, true),
        constants::ADD == 0x01,
        spec_opcode_info(0x01) == described("ADD"@, 2, 1, 0, false),
        constants::MUL == 0x02,
        spec_opcode_info(0x02) == described("MUL"@, 2, 1, 0, false),
        constants::SUB == 0x03,
        spec_opcode_info(0x03) == described("SUB"@, 2, 1, 0, false),
        constants::DIV == 0x04,
        spec_opcode_info(0x04) == described("DIV"@, 2, 1, 0, false),
        constants::SDIV == 0x05,
        spec_opcode_info(0x05) == described("SDIV"@, 2, 1, 0, false),
        constants::MOD == 0x06,
        spec_opcode_info(0x06) == described("MOD"@, 2, 1, 0, false),
        constants::SMOD == 0x07,
        spec_opcode_info(0x07) == described("SMOD"@, 2, 1, 0, false),
        constants::ADDMOD == 0x08,
        spec_opcode_info(0x08) == described("ADDMOD"@, 3, 1, 0, false),
        constants::MULMOD == 0x09,
        spec_opcode_info(0x09) == described("MULMOD"@, 3, 1, 0, false),
        constants::EXP == 0x0A,
        spec_opcode_info(0x0A) == described("EXP"@, 2, 1, 0, false),
        constants::SIGNEXTEND == 0x0B,
        spec_opcode_info(0x0B) == described("SIGNEXTEND"@, 2, 1, 0, false),
        constants::LT == 0x10,
        spec_opcode_info(0x10) == described("LT"@, 2, 1, 0, false),
        constants::GT == 0x11,
        spec_opcode_info(0x11) == described("GT"@, 2, 1, 0, false),
        constants::SLT == 0x12,
        spec_opcode_info(0x12) == described("SLT"@, 2, 1, 0, false),
        constants::SGT == 0x13,
        spec_opcode_info(0x13) == described("SGT"@, 2, 1, 0, false),
        constants::EQ == 0x14,
        spec_opcode_info(0x14) == described("EQ"@, 2, 1, 0, false),
        constants::ISZERO == 0x15,
        spec_opcode_info(0x15) == described("ISZERO"@, 1, 1, 0, false),
        constants::AND == 0x16,
        spec_opcode_info(0x16) == described("AND"@, 2, 1, 0, false),
        constants::OR == 0x17,
        spec_opcode_info(0x17) == described("OR"@, 2, 1, 0, false),
        constants::XOR == 0x18,
        spec_opcode_info(0x18) == described("XOR"@, 2, 1, 0, false),
        constants::NOT == 0x19,
        spec_opcode_info(0x19) == described("NOT"@, 1, 1, 0, false),
        constants::BYTE == 0x1A,
        spec_opcode_info(0x1A) == described("BYTE"@, 2, 1, 0, false),
        constants::SHL == 0x1B,
        spec_opcode_info(0x1B) == described("SHL"@, 2, 1, 0, false),
        constants::SHR == 0x1C,
        spec_opcode_info(0x1C) == described("SHR"@, 2, 1, 0, false),
        constants::SAR == 0x1D,
        spec_opcode_info(0x1D) == described("SAR"@, 2, 1, 0, false),
        constants::CLZ == 0x1E,
        spec_opcode_info(0x1E) == described("CLZ"@, 1, 1, 0, false),
        constants::KECCAK256 == 0x20,
        spec_opcode_info(0x20) == described("KECCAK256"@, 2, 1, 0, false),
        constants::ADDRESS == 0x30,
        spec_opcode_info(0x30) == described("ADDRESS"@, 0, 1, 0, false),
        constants::BALANCE == 0x31,
        spec_opcode_info(0x31) == described("BALANCE"@, 1, 1, 0, false),
        constants::ORIGIN == 0x32,
        spec_opcode_info(0x32) == described("ORIGIN"@, 0, 1, 0, false),
        constants::CALLER == 0x33,
        spec_opcode_info(0x33) == described("CALLER"@, 0, 1, 0, false),
        constants::CALLVALUE == 0x34,
        spec_opcode_info(0x34) == described("CALLVALUE"@, 0, 1, 0, false),
        constants::CALLDATALOAD == 0x35,
        spec_opcode_info(0x35) == described("CALLDATALOAD"@, 1, 1, 0, false),
        constants::CALLDATASIZE == 0x36,
        spec_opcode_info(0x36) == described("CALLDATASIZE"@, 0, 1, 0, false),
        constants::CALLDATACOPY == 0x37,
        spec_opcode_info(0x37) == described("CALLDATACOPY"@, 3, 0, 0, false),
        constants::CODESIZE == 0x38,
        spec_opcode_info(0x38) == described("CODESIZE"@, 0, 1, 0, false),
        constants::CODECOPY == 0x39,
        spec_opcode_info(0x39) == described("CODECOPY"@, 3, 0, 0, false),
        constants::GASPRICE == 0x3A,
        spec_opcode_info(0x3A) == described("GASPRICE"@, 0, 1, 0, false),
        constants::EXTCODESIZE == 0x3B,
        spec_opcode_info(0x3B) == described("EXTCODESIZE"@, 1, 1, 0, false),
        constants::EXTCODECOPY == 0x3C,
        spec_opcode_info(0x3C) == described("EXTCODECOPY"@, 4, 0, 0, false),
        constants::RETURNDATASIZE == 0x3D,
        spec_opcode_info(0x3D) == described("RETURNDATASIZE"@, 0, 1, 0, false),
        constants::RETURNDATACOPY == 0x3E,
        spec_opcode_info(0x3E) == described("RETURNDATACOPY"@, 3, 0, 0, false),
        constants::EXTCODEHASH == 0x3F,
        spec_opcode_info(0x3F) == described("EXTCODEHASH"@, 1, 1, 0, false),
        constants::BLOCKHASH == 0x40,
        spec_opcode_info(0x40) == described("BLOCKHASH"@, 1, 1, 0, false),
        constants::COINBASE == 0x41,
        spec_opcode_info(0x41) == described("COINBASE"@, 0, 1, 0, false),
        constants::TIMESTAMP == 0x42,
        spec_opcode_info(0x42) == described("TIMESTAMP"@, 0, 1, 0, false),
        constants::NUMBER == 0x43,
        spec_opcode_info(0x43) == described("NUMBER"@, 0, 1, 0, false),
        constants::DIFFICULTY == 0x44,
        spec_opcode_info(0x44) == described("DIFFICULTY"@, 0, 1, 0, false),
        constants::GASLIMIT == 0x45,
        spec_opcode_info(0x45) == described("GASLIMIT"@, 0, 1, 0, false),
        constants::CHAINID == 0x46,
        spec_opcode_info(0x46) == described("CHAINID"@, 0, 1, 0, false),
        constants::SELFBALANCE == 0x47,
        spec_opcode_info(0x47) == described("SELFBALANCE"@, 0, 1, 0, false),
        constants::BASEFEE == 0x48,
        spec_opcode_info(0x48) == described("BASEFEE"@, 0, 1, 0, false),
        constants::BLOBHASH == 0x49,
        spec_opcode_info(0x49) == described("BLOBHASH"@, 1, 1, 0, false),
        constants::BLOBBASEFEE == 0x4A,
        spec_opcode_info(0x4A) == described("BLOBBASEFEE"@, 0, 1, 0, false),
{
}

/// The stack, memory, storage and control-flow opcodes (`0x50` to `0x5F`): each named constant has its byte, and the table gives that byte
/// its name, the number of stack items it pops and pushes, its immediate size and
/// whether it halts.
pub proof fn lemma_catalog_machine()
    ensures
        constants::POP == 0x50,
        spec_opcode_info(0x50) == described("POP"@, 1, 0, 0, false),
        constants::MLOAD == 0x51,
        spec_opcode_info(0x51) == described("MLOAD"@, 1, 1, 0, false),
        constants::MSTORE == 0x52,
        spec_opcode_info(0x52) == described("MSTORE"@, 2, 0, 0, false),
        constants::MSTORE8 == 0x53,
        spec_opcode_info(0x53) == described("MSTORE8"@, 2, 0, 0, false),
        constants::SLOAD == 0x54,
        spec_opcode_info(0x54) == described("SLOAD"@, 1, 1, 0, false),
        constants::SSTORE == 0x55,
        spec_opcode_info(0x55) == described("SSTORE"@, 2, 0, 0, false),
        constants::JUMP == 0x56,
        spec_opcode_info(0x56) == described("JUMP"@, 1, 0, 0, false),
        constants::JUMPI == 0x57,
        spec_opcode_info(0x57) == described("JUMPI"@, 2, 0, 0, false),
        constants::PC == 0x58,
        spec_opcode_info(0x58) == described("PC"@, 0, 1, 0, false),
        constants::MSIZE == 0x59,
        spec_opcode_info(0x59) == described("MSIZE"@, 0, 1, 0, false),
        constants::GAS == 0x5A,
        spec_opcode_info(0x5A) == described("GAS"@, 0, 1, 0, false),
        constants::JUMPDEST == 0x5B,
        spec_opcode_info(0x5B) == described("JUMPDEST"@, 0, 0, 0, false),
        constants::TLOAD == 0x5C,
        spec_opcode_info(0x5C) == described("TLOAD"@, 1, 1, 0, false),
        constants::TSTORE == 0x5D,
        spec_opcode_info(0x5D) == described("TSTORE"@, 2, 0, 0, false),
        constants::MCOPY == 0x5E,
        spec_opcode_info(0x5E) == described("MCOPY"@, 3, 0, 0, false),
        constants::PUSH0 == 0x5F,
        spec_opcode_info(0x5F) == described("PUSH0"@, 0, 1, 0, false),
{
}

/// The `PUSH1`..`PUSH32`, `DUP`, `SWAP` and `LOG` opcodes (`0x60` to `0xA4`): each named constant has its byte, and the table gives that byte
/// its name, the number of stack items it pops and pushes, its immediate size and
/// whether it halts.
pub proof fn lemma_catalog_stack_families()
    ensures
        constants::PUSH1 == 0x60,
        spec_opcode_info(0x60) == described("PUSH1"@, 0, 1, 1, false),
        constants::PUSH2 == 0x61,
        spec_opcode_info(0x61) == described("PUSH2"@, 0, 1, 2, false),
        constants::PUSH3 == 0x62,
        spec_opcode_info(0x62) == described("PUSH3"@, 0, 1, 3, false),
        constants::PUSH4 == 0x63,
        spec_opcode_info(0x63) == described("PUSH4"@, 0, 1, 4, false),
        constants::PUSH5 == 0x64,
        spec_opcode_info(0x64) == described("PUSH5"@, 0, 1, 5, false),
        constants::PUSH6 == 0x65,
        spec_opcode_info(0x65) == described("PUSH6"@, 0, 1, 6, false),
        constants::PUSH7 == 0x66,
        spec_opcode_info(0x66) == described("PUSH7"@, 0, 1, 7, false),
        constants::PUSH8 == 0x67,
        spec_opcode_info(0x67) == described("PUSH8"@, 0, 1, 8, false),
        constants::PUSH9 == 0x68,
        spec_opcode_info(0x68) == described("PUSH9"@, 0, 1, 9, false),
        constants::PUSH10 == 0x69,
        spec_opcode_info(0x69) == described("PUSH10"@, 0, 1, 10, false),
        constants::PUSH11 == 0x6A,
        spec_opcode_info(0x6A) == described("PUSH11"@, 0, 1, 11, false),
        constants::PUSH12 == 0x6B,
        spec_opcode_info(0x6B) == described("PUSH12"@, 0, 1, 12, false),
        constants::PUSH13 == 0x6C,
        spec_opcode_info(0x6C) == described("PUSH13"@, 0, 1, 13, false),
        constants::PUSH14 == 0x6D,
        spec_opcode_info(0x6D) == described("PUSH14"@, 0, 1, 14, false),
        constants::PUSH15 == 0x6E,
        spec_opcode_info(0x6E) == described("PUSH15"@, 0, 1, 15, false),
        constants::PUSH16 == 0x6F,
        spec_opcode_info(0x6F) == described("PUSH16"@, 0, 1, 16, false),
        constants::PUSH17 == 0x70,
        spec_opcode_info(0x70) == described("PUSH17"@, 0, 1, 17, false),
        constants::PUSH18 == 0x71,
        spec_opcode_info(0x71) == described("PUSH18"@, 0, 1, 18, false),
        constants::PUSH19 == 0x72,
        spec_opcode_info(0x72) == described("PUSH19"@, 0, 1, 19, false),
        constants::PUSH20 == 0x73,
        spec_opcode_info(0x73) == described("PUSH20"@, 0, 1, 20, false),
        constants::PUSH21 == 0x74,
        spec_opcode_info(0x74) == described("PUSH21"@, 0, 1, 21, false),
        constants::PUSH22 == 0x75,
        spec_opcode_info(0x75) == described("PUSH22"@, 0, 1, 22, false),
        constants::PUSH23 == 0x76,
        spec_opcode_info(0x76) == described("PUSH23"@, 0, 1, 23, false),
        constants::PUSH24 == 0x77,
        spec_opcode_info(0x77) == described("PUSH24"@, 0, 1, 24, false),
        constants::PUSH25 == 0x78,
        spec_opcode_info(0x78) == described("PUSH25"@, 0, 1, 25, false),
        constants::PUSH26 == 0x79,
        spec_opcode_info(0x79) == described("PUSH26"@, 0, 1, 26, false),
        constants::PUSH27 == 0x7A,
        spec_opcode_info(0x7A) == described("PUSH27"@, 0, 1, 27, false),
        constants::PUSH28 == 0x7B,
        spec_opcode_info(0x7B) == described("PUSH28"@, 0, 1, 28, false),
        constants::PUSH29 == 0x7C,
        spec_opcode_info(0x7C) == described("PUSH29"@, 0, 1, 29, false),
        constants::PUSH30 == 0x7D,
        spec_opcode_info(0x7D) == described("PUSH30"@, 0, 1, 30, false),
        constants::PUSH31 == 0x7E,
        spec_opcode_info(0x7E) == described("PUSH31"@, 0, 1, 31, false),
        constants::PUSH32 == 0x7F,
        spec_opcode_info(0x7F) == described("PUSH32"@, 0, 1, 32, false),
        constants::DUP1 == 0x80,
        spec_opcode_info(0x80) == described("DUP1"@, 1, 2, 0, false),
        constants::DUP2 == 0x81,
        spec_opcode_info(0x81) == described("DUP2"@, 2, 3, 0, false),
        constants::DUP3 == 0x82,
        spec_opcode_info(0x82) == described("DUP3"@, 3, 4, 0, false),
        constants::DUP4 == 0x83,
        spec_opcode_info(0x83) == described("DUP4"@, 4, 5, 0, false),
        constants::DUP5 == 0x84,
        spec_opcode_info(0x84) == described("DUP5"@, 5, 6, 0, false),
        constants::DUP6 == 0x85,
        spec_opcode_info(0x85) == described("DUP6"@, 6, 7, 0, false),
        constants::DUP7 == 0x86,
        spec_opcode_info(0x86) == described("DUP7"@, 7, 8, 0, false),
        constants::DUP8 == 0x87,
        spec_opcode_info(0x87) == described("DUP8"@, 8, 9, 0, false),
        constants::DUP9 == 0x88,
        spec_opcode_info(0x88) == described("DUP9"@, 9, 10, 0, false),
        constants::DUP10 == 0x89,
        spec_opcode_info(0x89) == described("DUP10"@, 10, 11, 0, false),
        constants::DUP11 == 0x8A,
        spec_opcode_info(0x8A) == described("DUP11"@, 11, 12, 0, false),
        constants::DUP12 == 0x8B,
        spec_opcode_info(0x8B) == described("DUP12"@, 12, 13, 0, false),
        constants::DUP13 == 0x8C,
        spec_opcode_info(0x8C) == described("DUP13"@, 13, 14, 0, false),
        constants::DUP14 == 0x8D,
        spec_opcode_info(0x8D) == described("DUP14"@, 14, 15, 0, false),
        constants::DUP15 == 0x8E,
        spec_opcode_info(0x8E) == described("DUP15"@, 15, 16, 0, false),
        constants::DUP16 == 0x8F,
        spec_opcode_info(0x8F) == described("DUP16"@, 16, 17, 0, false),
        constants::SWAP1 == 0x90,
        spec_opcode_info(0x90) == described("SWAP1"@, 2, 2, 0, false),
        constants::SWAP2 == 0x91,
        spec_opcode_info(0x91) == described("SWAP2"@, 3, 3, 0, false),
        constants::SWAP3 == 0x92,
        spec_opcode_info(0x92) == described("SWAP3"@, 4, 4, 0, false),
        constants::SWAP4 == 0x93,
        spec_opcode_info(0x93) == described("SWAP4"@, 5, 5, 0, false),
        constants::SWAP5 == 0x94,
        spec_opcode_info(0x94) == described("SWAP5"@, 6, 6, 0, false),
        constants::SWAP6 == 0x95,
        spec_opcode_info(0x95) == described("SWAP6"@, 7, 7, 0, false),
        constants::SWAP7 == 0x96,
        spec_opcode_info(0x96) == described("SWAP7"@, 8, 8, 0, false),
        constants::SWAP8 == 0x97,
        spec_opcode_info(0x97) == described("SWAP8"@, 9, 9, 0, false),
        constants::SWAP9 == 0x98,
        spec_opcode_info(0x98) == described("SWAP9"@, 10, 10, 0, false),
        constants::SWAP10 == 0x99,
        spec_opcode_info(0x99) == described("SWAP10"@, 11, 11, 0, false),
        constants::SWAP11 == 0x9A,
        spec_opcode_info(0x9A) == described("SWAP11"@, 12, 12, 0, false),
        constants::SWAP12 == 0x9B,
        spec_opcode_info(0x9B) == described("SWAP12"@, 13, 13, 0, false),
        constants::SWAP13 == 0x9C,
        spec_opcode_info(0x9C) == described("SWAP13"@, 14, 14, 0, false),
        constants::SWAP14 == 0x9D,
        spec_opcode_info(0x9D) == described("SWAP14"@, 15, 15, 0, false),
        constants::SWAP15 == 0x9E,
        spec_opcode_info(0x9E) == described("SWAP15"@, 16, 16, 0, false),
        constants::SWAP16 == 0x9F,
        spec_opcode_info(0x9F) == described("SWAP16"@, 17, 17, 0, false),
        constants::LOG0 == 0xA0,
        spec_opcode_info(0xA0) == described("LOG0"@, 2, 0, 0, false),
        constants::LOG1 == 0xA1,
        spec_opcode_info(0xA1) == described("LOG1"@, 3, 0, 0, false),
        constants::LOG2 == 0xA2,
        spec_opcode_info(0xA2) == described("LOG2"@, 4, 0, 0, false),
        constants::LOG3 == 0xA3,
        spec_opcode_info(0xA3) == described("LOG3"@, 5, 0, 0, false),
        constants::LOG4 == 0xA4,
        spec_opcode_info(0xA4) == described("LOG4"@, 6, 0, 0, false),
{
}

/// The system opcodes: creation, calls and halting (`0xF0` to `0xFF`): each named constant has its byte, and the table gives that byte
/// its name, the number of stack items it pops and pushes, its immediate size and
/// whether it halts.
pub proof fn lemma_catalog_system()
    ensures
        constants::CREATE == 0xF0,
        spec_opcode_info(0xF0) == described("CREATE"@, 3, 1, 0, false),
        constants::CALL == 0xF1,
        spec_opcode_info(0xF1) == described("CALL"@, 7, 1, 0, false),
        constants::CALLCODE == 0xF2,
        spec_opcode_info(0xF2) == described("CALLCODE"@, 7, 1, 0, false),
        constants::RETURN == 0xF3,
        spec_opcode_info(0xF3) == described("RETURN"@, 2, 0, 0, true),
        constants::DELEGATECALL == 0xF4,
        spec_opcode_info(0xF4) == described("DELEGATECALL"@, 6, 1, 0, false),
        constants::CREATE2 == 0xF5,
        spec_opcode_info(0xF5) == described("CREATE2"@, 4, 1, 0, false),
        constants::STATICCALL == 0xFA,
        spec_opcode_info(0xFA) == described("STATICCALL"@, 6, 1, 0, false),
        constants::REVERT == 0xFD,
        spec_opcode_info(0xFD) == described("REVERT"@, 2, 0, 0, true),
        constants::INVALID == 0xFE,
        spec_opcode_info(0xFE) == described("INVALID"@, 0, 0, 0, true),
        constants::SELFDESTRUCT == 0xFF,
        spec_opcode_info(0xFF) == described("SELFDESTRUCT"@, 1, 0, 0, true),
{
}

/// The opcodes that may touch memory are exactly the bytes `0x37` (`CALLDATACOPY`),
/// `0x39` (`CODECOPY`), `0x3C` (`EXTCODECOPY`), `0x3E` (`RETURNDATACOPY`), `0x51`
/// (`MLOAD`), `0x52` (`MSTORE`), `0x53` (`MSTORE8`), `0x5E` (`MCOPY`), `0xF1` (`CALL`),
/// `0xF2` (`CALLCODE`), `0xF4` (`DELEGATECALL`) and `0xFA` (`STATICCALL`).
pub proof fn lemma_memory_opcodes(op: u8)
    ensures
        spec_modifies_memory(op) <==> (op == 0x37 || op == 0x39 || op == 0x3C || op == 0x3E
            || op == 0x51 || op == 0x52 || op == 0x53 || op == 0x5E || op == 0xF1 || op == 0xF2
            || op == 0xF4 || op == 0xFA),
{
}

/// The `PUSH` opcodes with immediate data are exactly the bytes `0x60` to `0x7F`.
pub proof fn lemma_push_bytes(op: u8)
    ensures
        is_push_opcode(op) <==> 0x60 <= op <= 0x7F,
{
}

/// The jump opcodes: `JUMP` is `0x56`, `JUMPI` is `0x57` and `JUMPDEST` (also `NOP`) is `0x5B`.
pub proof fn lemma_jump_bytes()
    ensures
        constants::JUMP == 0x56,
        constants::JUMPI == 0x57,
        constants::JUMPDEST == 0x5B,
        constants::NOP == 0x5B,
{
}

} // verus!
