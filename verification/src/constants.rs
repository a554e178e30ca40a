//! The opcode bytes of the EVM, one named constant per opcode.

use vstd::prelude::*;

verus! {

/// The `STOP` opcode, byte `0x00`.
pub const STOP: u8 = 0x00;

/// The `ADD` opcode, byte `0x01`.
pub const ADD: u8 = 0x01;

/// The `MUL` opcode, byte `0x02`.
pub const MUL: u8 = 0x02;

/// The `SUB` opcode, byte `0x03`.
pub const SUB: u8 = 0x03;

/// The `DIV` opcode, byte `0x04`.
pub const DIV: u8 = 0x04;

/// The `SDIV` opcode, byte `0x05`.
pub const SDIV: u8 = 0x05;

/// The `MOD` opcode, byte `0x06`.
pub const MOD: u8 = 0x06;

/// The `SMOD` opcode, byte `0x07`.
pub const SMOD: u8 = 0x07;

/// The `ADDMOD` opcode, byte `0x08`.
pub const ADDMOD: u8 = 0x08;

/// The `MULMOD` opcode, byte `0x09`.
pub const MULMOD: u8 = 0x09;

/// The `EXP` opcode, byte `0x0A`.
pub const EXP: u8 = 0x0A;

/// The `SIGNEXTEND` opcode, byte `0x0B`.
pub const SIGNEXTEND: u8 = 0x0B;

/// The `LT` opcode, byte `0x10`.
pub const LT: u8 = 0x10;

/// The `GT` opcode, byte `0x11`.
pub const GT: u8 = 0x11;

/// The `SLT` opcode, byte `0x12`.
pub const SLT: u8 = 0x12;

/// The `SGT` opcode, byte `0x13`.
pub const SGT: u8 = 0x13;

/// The `EQ` opcode, byte `0x14`.
pub const EQ: u8 = 0x14;

/// The `ISZERO` opcode, byte `0x15`.
pub const ISZERO: u8 = 0x15;

/// The `AND` opcode, byte `0x16`.
pub const AND: u8 = 0x16;

/// The `OR` opcode, byte `0x17`.
pub const OR: u8 = 0x17;

/// The `XOR` opcode, byte `0x18`.
pub const XOR: u8 = 0x18;

/// The `NOT` opcode, byte `0x19`.
pub const NOT: u8 = 0x19;

/// The `BYTE` opcode, byte `0x1A`.
pub const BYTE: u8 = 0x1A;

/// The `SHL` opcode, byte `0x1B`.
pub const SHL: u8 = 0x1B;

/// The `SHR` opcode, byte `0x1C`.
pub const SHR: u8 = 0x1C;

/// The `SAR` opcode, byte `0x1D`.
pub const SAR: u8 = 0x1D;

/// The `CLZ` opcode, byte `0x1E`.
pub const CLZ: u8 = 0x1E;

/// The `KECCAK256` opcode, byte `0x20`.
pub const KECCAK256: u8 = 0x20;

/// The `ADDRESS` opcode, byte `0x30`.
pub const ADDRESS: u8 = 0x30;

/// The `BALANCE` opcode, byte `0x31`.
pub const BALANCE: u8 = 0x31;

/// The `ORIGIN` opcode, byte `0x32`.
pub const ORIGIN: u8 = 0x32;

/// The `CALLER` opcode, byte `0x33`.
pub const CALLER: u8 = 0x33;

/// The `CALLVALUE` opcode, byte `0x34`.
pub const CALLVALUE: u8 = 0x34;

/// The `CALLDATALOAD` opcode, byte `0x35`.
pub const CALLDATALOAD: u8 = 0x35;

/// The `CALLDATASIZE` opcode, byte `0x36`.
pub const CALLDATASIZE: u8 = 0x36;

/// The `CALLDATACOPY` opcode, byte `0x37`.
pub const CALLDATACOPY: u8 = 0x37;

/// The `CODESIZE` opcode, byte `0x38`.
pub const CODESIZE: u8 = 0x38;

/// The `CODECOPY` opcode, byte `0x39`.
pub const CODECOPY: u8 = 0x39;

/// The `GASPRICE` opcode, byte `0x3A`.
pub const GASPRICE: u8 = 0x3A;

/// The `EXTCODESIZE` opcode, byte `0x3B`.
pub const EXTCODESIZE: u8 = 0x3B;

/// The `EXTCODECOPY` opcode, byte `0x3C`.
pub const EXTCODECOPY: u8 = 0x3C;

/// The `RETURNDATASIZE` opcode, byte `0x3D`.
pub const RETURNDATASIZE: u8 = 0x3D;

/// The `RETURNDATACOPY` opcode, byte `0x3E`.
pub const RETURNDATACOPY: u8 = 0x3E;

/// The `EXTCODEHASH` opcode, byte `0x3F`.
pub const EXTCODEHASH: u8 = 0x3F;

/// The `BLOCKHASH` opcode, byte `0x40`.
pub const BLOCKHASH: u8 = 0x40;

/// The `COINBASE` opcode, byte `0x41`.
pub const COINBASE: u8 = 0x41;

/// The `TIMESTAMP` opcode, byte `0x42`.
pub const TIMESTAMP: u8 = 0x42;

/// The `NUMBER` opcode, byte `0x43`.
pub const NUMBER: u8 = 0x43;

/// The `DIFFICULTY` opcode, byte `0x44`.
pub const DIFFICULTY: u8 = 0x44;

/// The `GASLIMIT` opcode, byte `0x45`.
pub const GASLIMIT: u8 = 0x45;

/// The `CHAINID` opcode, byte `0x46`.
pub const CHAINID: u8 = 0x46;

/// The `SELFBALANCE` opcode, byte `0x47`.
pub const SELFBALANCE: u8 = 0x47;

/// The `BASEFEE` opcode, byte `0x48`.
pub const BASEFEE: u8 = 0x48;

/// The `BLOBHASH` opcode, byte `0x49`.
pub const BLOBHASH: u8 = 0x49;

/// The `BLOBBASEFEE` opcode, byte `0x4A`.
pub const BLOBBASEFEE: u8 = 0x4A;

/// The `POP` opcode, byte `0x50`.
pub const POP: u8 = 0x50;

/// The `MLOAD` opcode, byte `0x51`.
pub const MLOAD: u8 = 0x51;

/// The `MSTORE` opcode, byte `0x52`.
pub const MSTORE: u8 = 0x52;

/// The `MSTORE8` opcode, byte `0x53`.
pub const MSTORE8: u8 = 0x53;

/// The `SLOAD` opcode, byte `0x54`.
pub const SLOAD: u8 = 0x54;

/// The `SSTORE` opcode, byte `0x55`.
pub const SSTORE: u8 = 0x55;

/// The `JUMP` opcode, byte `0x56`.
pub const JUMP: u8 = 0x56;

/// The `JUMPI` opcode, byte `0x57`.
pub const JUMPI: u8 = 0x57;

/// The `PC` opcode, byte `0x58`.
pub const PC: u8 = 0x58;

/// The `MSIZE` opcode, byte `0x59`.
pub const MSIZE: u8 = 0x59;

/// The `GAS` opcode, byte `0x5A`.
pub const GAS: u8 = 0x5A;

/// The `JUMPDEST` opcode, byte `0x5B`.
pub const JUMPDEST: u8 = 0x5B;

/// The `TLOAD` opcode, byte `0x5C`.
pub const TLOAD: u8 = 0x5C;

/// The `TSTORE` opcode, byte `0x5D`.
pub const TSTORE: u8 = 0x5D;

/// The `MCOPY` opcode, byte `0x5E`.
pub const MCOPY: u8 = 0x5E;

/// The `PUSH0` opcode, byte `0x5F`.
pub const PUSH0: u8 = 0x5F;

/// The `PUSH1` opcode, byte `0x60`.
pub const PUSH1: u8 = 0x60;

/// The `PUSH2` opcode, byte `0x61`.
pub const PUSH2: u8 = 0x61;

/// The `PUSH3` opcode, byte `0x62`.
pub const PUSH3: u8 = 0x62;

/// The `PUSH4` opcode, byte `0x63`.
pub const PUSH4: u8 = 0x63;

/// The `PUSH5` opcode, byte `0x64`.
pub const PUSH5: u8 = 0x64;

/// The `PUSH6` opcode, byte `0x65`.
pub const PUSH6: u8 = 0x65;

/// The `PUSH7` opcode, byte `0x66`.
pub const PUSH7: u8 = 0x66;

/// The `PUSH8` opcode, byte `0x67`.
pub const PUSH8: u8 = 0x67;

/// The `PUSH9` opcode, byte `0x68`.
pub const PUSH9: u8 = 0x68;

/// The `PUSH10` opcode, byte `0x69`.
pub const PUSH10: u8 = 0x69;

/// The `PUSH11` opcode, byte `0x6A`.
pub const PUSH11: u8 = 0x6A;

/// The `PUSH12` opcode, byte `0x6B`.
pub const PUSH12: u8 = 0x6B;

/// The `PUSH13` opcode, byte `0x6C`.
pub const PUSH13: u8 = 0x6C;

/// The `PUSH14` opcode, byte `0x6D`.
pub const PUSH14: u8 = 0x6D;

/// The `PUSH15` opcode, byte `0x6E`.
pub const PUSH15: u8 = 0x6E;

/// The `PUSH16` opcode, byte `0x6F`.
pub const PUSH16: u8 = 0x6F;

/// The `PUSH17` opcode, byte `0x70`.
pub const PUSH17: u8 = 0x70;

/// The `PUSH18` opcode, byte `0x71`.
pub const PUSH18: u8 = 0x71;

/// The `PUSH19` opcode, byte `0x72`.
pub const PUSH19: u8 = 0x72;

/// The `PUSH20` opcode, byte `0x73`.
pub const PUSH20: u8 = 0x73;

/// The `PUSH21` opcode, byte `0x74`.
pub const PUSH21: u8 = 0x74;

/// The `PUSH22` opcode, byte `0x75`.
pub const PUSH22: u8 = 0x75;

/// The `PUSH23` opcode, byte `0x76`.
pub const PUSH23: u8 = 0x76;

/// The `PUSH24` opcode, byte `0x77`.
pub const PUSH24: u8 = 0x77;

/// The `PUSH25` opcode, byte `0x78`.
pub const PUSH25: u8 = 0x78;

/// The `PUSH26` opcode, byte `0x79`.
pub const PUSH26: u8 = 0x79;

/// The `PUSH27` opcode, byte `0x7A`.
pub const PUSH27: u8 = 0x7A;

/// The `PUSH28` opcode, byte `0x7B`.
pub const PUSH28: u8 = 0x7B;

/// The `PUSH29` opcode, byte `0x7C`.
pub const PUSH29: u8 = 0x7C;

/// The `PUSH30` opcode, byte `0x7D`.
pub const PUSH30: u8 = 0x7D;

/// The `PUSH31` opcode, byte `0x7E`.
pub const PUSH31: u8 = 0x7E;

/// The `PUSH32` opcode, byte `0x7F`.
pub const PUSH32: u8 = 0x7F;

/// The `DUP1` opcode, byte `0x80`.
pub const DUP1: u8 = 0x80;

/// The `DUP2` opcode, byte `0x81`.
pub const DUP2: u8 = 0x81;

/// The `DUP3` opcode, byte `0x82`.
pub const DUP3: u8 = 0x82;

/// The `DUP4` opcode, byte `0x83`.
pub const DUP4: u8 = 0x83;

/// The `DUP5` opcode, byte `0x84`.
pub const DUP5: u8 = 0x84;

/// The `DUP6` opcode, byte `0x85`.
pub const DUP6: u8 = 0x85;

/// The `DUP7` opcode, byte `0x86`.
pub const DUP7: u8 = 0x86;

/// The `DUP8` opcode, byte `0x87`.
pub const DUP8: u8 = 0x87;

/// The `DUP9` opcode, byte `0x88`.
pub const DUP9: u8 = 0x88;

/// The `DUP10` opcode, byte `0x89`.
pub const DUP10: u8 = 0x89;

/// The `DUP11` opcode, byte `0x8A`.
pub const DUP11: u8 = 0x8A;

/// The `DUP12` opcode, byte `0x8B`.
pub const DUP12: u8 = 0x8B;

/// The `DUP13` opcode, byte `0x8C`.
pub const DUP13: u8 = 0x8C;

/// The `DUP14` opcode, byte `0x8D`.
pub const DUP14: u8 = 0x8D;

/// The `DUP15` opcode, byte `0x8E`.
pub const DUP15: u8 = 0x8E;

/// The `DUP16` opcode, byte `0x8F`.
pub const DUP16: u8 = 0x8F;

/// The `SWAP1` opcode, byte `0x90`.
pub const SWAP1: u8 = 0x90;

/// The `SWAP2` opcode, byte `0x91`.
pub const SWAP2: u8 = 0x91;

/// The `SWAP3` opcode, byte `0x92`.
pub const SWAP3: u8 = 0x92;

/// The `SWAP4` opcode, byte `0x93`.
pub const SWAP4: u8 = 0x93;

/// The `SWAP5` opcode, byte `0x94`.
pub const SWAP5: u8 = 0x94;

/// The `SWAP6` opcode, byte `0x95`.
pub const SWAP6: u8 = 0x95;

/// The `SWAP7` opcode, byte `0x96`.
pub const SWAP7: u8 = 0x96;

/// The `SWAP8` opcode, byte `0x97`.
pub const SWAP8: u8 = 0x97;

/// The `SWAP9` opcode, byte `0x98`.
pub const SWAP9: u8 = 0x98;

/// The `SWAP10` opcode, byte `0x99`.
pub const SWAP10: u8 = 0x99;

/// The `SWAP11` opcode, byte `0x9A`.
pub const SWAP11: u8 = 0x9A;

/// The `SWAP12` opcode, byte `0x9B`.
pub const SWAP12: u8 = 0x9B;

/// The `SWAP13` opcode, byte `0x9C`.
pub const SWAP13: u8 = 0x9C;

/// The `SWAP14` opcode, byte `0x9D`.
pub const SWAP14: u8 = 0x9D;

/// The `SWAP15` opcode, byte `0x9E`.
pub const SWAP15: u8 = 0x9E;

/// The `SWAP16` opcode, byte `0x9F`.
pub const SWAP16: u8 = 0x9F;

/// The `LOG0` opcode, byte `0xA0`.
pub const LOG0: u8 = 0xA0;

/// The `LOG1` opcode, byte `0xA1`.
pub const LOG1: u8 = 0xA1;

/// The `LOG2` opcode, byte `0xA2`.
pub const LOG2: u8 = 0xA2;

/// The `LOG3` opcode, byte `0xA3`.
pub const LOG3: u8 = 0xA3;

/// The `LOG4` opcode, byte `0xA4`.
pub const LOG4: u8 = 0xA4;

/// The `CREATE` opcode, byte `0xF0`.
pub const CREATE: u8 = 0xF0;

/// The `CALL` opcode, byte `0xF1`.
pub const CALL: u8 = 0xF1;

/// The `CALLCODE` opcode, byte `0xF2`.
pub const CALLCODE: u8 = 0xF2;

/// The `RETURN` opcode, byte `0xF3`.
pub const RETURN: u8 = 0xF3;

/// The `DELEGATECALL` opcode, byte `0xF4`.
pub const DELEGATECALL: u8 = 0xF4;

/// The `CREATE2` opcode, byte `0xF5`.
pub const CREATE2: u8 = 0xF5;

/// The `STATICCALL` opcode, byte `0xFA`.
pub const STATICCALL: u8 = 0xFA;

/// The `REVERT` opcode, byte `0xFD`.
pub const REVERT: u8 = 0xFD;

/// The `INVALID` opcode, byte `0xFE`.
pub const INVALID: u8 = 0xFE;

/// The `SELFDESTRUCT` opcode, byte `0xFF`.
pub const SELFDESTRUCT: u8 = 0xFF;

/// Alias for the [`JUMPDEST`] opcode.
pub const NOP: u8 = 0x5B;

} // verus!
