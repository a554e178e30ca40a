//! Properties of the opcode table as a whole.

use vstd::prelude::*;
use vstd::utf8::{encode_utf8, is_ascii_chars, is_ascii_chars_encode_utf8};

use crate::opcode::spec_name_or_unknown;
use crate::table::{is_push_opcode, is_valid_opcode, spec_immediate_size, spec_name};

verus! {

/// A key that tells apart the names of the table: a name's length, its first character
/// and its last two characters.
spec fn name_key(name: Seq<char>) -> (int, char, char, char) {
    (name.len() as int, name[0], name[name.len() - 2], name[name.len() - 1])
}

/// What the characters of the names of the table show: each name is short ASCII text,
/// differs from `Unknown`, and belongs to one opcode only, since no two names agree
/// in [`name_key`].
proof fn lemma_name_facts(a: u8)
    requires
        is_valid_opcode(a),
    ensures
        spec_name(a).unwrap().len() <= 14,
        is_ascii_chars(spec_name(a).unwrap()),
        spec_name(a).unwrap() != "Unknown"@,
        forall|b: u8| spec_name(b) == spec_name(a) ==> b == a,
{
    reveal_strlit("ADD");
    reveal_strlit("ADDMOD");
    reveal_strlit("ADDRESS");
    reveal_strlit("AND");
    reveal_strlit("BALANCE");
    reveal_strlit("BASEFEE");
    reveal_strlit("BLOBBASEFEE");
    reveal_strlit("BLOBHASH");
    reveal_strlit("BLOCKHASH");
    reveal_strlit("BYTE");
    reveal_strlit("CALL");
    reveal_strlit("CALLCODE");
    reveal_strlit("CALLDATACOPY");
    reveal_strlit("CALLDATALOAD");
    reveal_strlit("CALLDATASIZE");
    reveal_strlit("CALLER");
    reveal_strlit("CALLVALUE");
    reveal_strlit("CHAINID");
    reveal_strlit("CLZ");
    reveal_strlit("CODECOPY");
    reveal_strlit("CODESIZE");
    reveal_strlit("COINBASE");
    reveal_strlit("CREATE");
    reveal_strlit("CREATE2");
    reveal_strlit("DELEGATECALL");
    reveal_strlit("DIFFICULTY");
    reveal_strlit("DIV");
    reveal_strlit("DUP1");
    reveal_strlit("DUP10");
    reveal_strlit("DUP11");
    reveal_strlit("DUP12");
    reveal_strlit("DUP13");
    reveal_strlit("DUP14");
    reveal_strlit("DUP15");
    reveal_strlit("DUP16");
    reveal_strlit("DUP2");
    reveal_strlit("DUP3");
    reveal_strlit("DUP4");
    reveal_strlit("DUP5");
    reveal_strlit("DUP6");
    reveal_strlit("DUP7");
    reveal_strlit("DUP8");
    reveal_strlit("DUP9");
    reveal_strlit("EQ");
    reveal_strlit("EXP");
    reveal_strlit("EXTCODECOPY");
    reveal_strlit("EXTCODEHASH");
    reveal_strlit("EXTCODESIZE");
    reveal_strlit("GAS");
    reveal_strlit("GASLIMIT");
    reveal_strlit("GASPRICE");
    reveal_strlit("GT");
    reveal_strlit("INVALID");
    reveal_strlit("ISZERO");
    reveal_strlit("JUMP");
    reveal_strlit("JUMPDEST");
    reveal_strlit("JUMPI");
    reveal_strlit("KECCAK256");
    reveal_strlit("LOG0");
    reveal_strlit("LOG1");
    reveal_strlit("LOG2");
    reveal_strlit("LOG3");
    reveal_strlit("LOG4");
    reveal_strlit("LT");
    reveal_strlit("MCOPY");
    reveal_strlit("MLOAD");
    reveal_strlit("MOD");
    reveal_strlit("MSIZE");
    reveal_strlit("MSTORE");
    reveal_strlit("MSTORE8");
    reveal_strlit("MUL");
    reveal_strlit("MULMOD");
    reveal_strlit("NOT");
    reveal_strlit("NUMBER");
    reveal_strlit("OR");
    reveal_strlit("ORIGIN");
    reveal_strlit("PC");
    reveal_strlit("POP");
    reveal_strlit("PUSH0");
    reveal_strlit("PUSH1");
    reveal_strlit("PUSH10");
    reveal_strlit("PUSH11");
    reveal_strlit("PUSH12");
    reveal_strlit("PUSH13");
    reveal_strlit("PUSH14");
    reveal_strlit("PUSH15");
    reveal_strlit("PUSH16");
    reveal_strlit("PUSH17");
    reveal_strlit("PUSH18");
    reveal_strlit("PUSH19");
    reveal_strlit("PUSH2");
    reveal_strlit("PUSH20");
    reveal_strlit("PUSH21");
    reveal_strlit("PUSH22");
    reveal_strlit("PUSH23");
    reveal_strlit("PUSH24");
    reveal_strlit("PUSH25");
    reveal_strlit("PUSH26");
    reveal_strlit("PUSH27");
    reveal_strlit("PUSH28");
    reveal_strlit("PUSH29");
    reveal_strlit("PUSH3");
    reveal_strlit("PUSH30");
    reveal_strlit("PUSH31");
    reveal_strlit("PUSH32");
    reveal_strlit("PUSH4");
    reveal_strlit("PUSH5");
    reveal_strlit("PUSH6");
    reveal_strlit("PUSH7");
    reveal_strlit("PUSH8");
    reveal_strlit("PUSH9");
    reveal_strlit("RETURN");
    reveal_strlit("RETURNDATACOPY");
    reveal_strlit("RETURNDATASIZE");
    reveal_strlit("REVERT");
    reveal_strlit("SAR");
    reveal_strlit("SDIV");
    reveal_strlit("SELFBALANCE");
    reveal_strlit("SELFDESTRUCT");
    reveal_strlit("SGT");
    reveal_strlit("SHL");
    reveal_strlit("SHR");
    reveal_strlit("SIGNEXTEND");
    reveal_strlit("SLOAD");
    reveal_strlit("SLT");
    reveal_strlit("SMOD");
    reveal_strlit("SSTORE");
    reveal_strlit("STATICCALL");
    reveal_strlit("STOP");
    reveal_strlit("SUB");
    reveal_strlit("SWAP1");
    reveal_strlit("SWAP10");
    reveal_strlit("SWAP11");
    reveal_strlit("SWAP12");
    reveal_strlit("SWAP13");
    reveal_strlit("SWAP14");
    reveal_strlit("SWAP15");
    reveal_strlit("SWAP16");
    reveal_strlit("SWAP2");
    reveal_strlit("SWAP3");
    reveal_strlit("SWAP4");
    reveal_strlit("SWAP5");
    reveal_strlit("SWAP6");
    reveal_strlit("SWAP7");
    reveal_strlit("SWAP8");
    reveal_strlit("SWAP9");
    reveal_strlit("TIMESTAMP");
    reveal_strlit("TLOAD");
    reveal_strlit("TSTORE");
    reveal_strlit("Unknown");
    reveal_strlit("XOR");
    let name = spec_name(a).unwrap();
    assert(is_ascii_chars(name));
    assert(name_key(name) != name_key("Unknown"@));
    assert forall|b: u8| spec_name(b) == spec_name(a) implies b == a by {
        assert(name_key(spec_name(b).unwrap()) == name_key(name));
    }
}

/// No two opcodes share a name: the name of an opcode identifies it. So parsing the
/// name of an opcode gives back that opcode.
pub proof fn lemma_names_identify_opcodes(a: u8, b: u8)
    requires
        is_valid_opcode(a),
        spec_name(b) == spec_name(a),
    ensures
        a == b,
{
    lemma_name_facts(a);
}

/// The bytes that are opcodes: `0x00..=0x0B`, `0x10..=0x1E`, `0x20`, `0x30..=0x4A`,
/// `0x50..=0xA4`, `0xF0..=0xF5`, `0xFA` and `0xFD..=0xFF`.
pub open spec fn in_opcode_ranges(op: u8) -> bool {
    ||| op <= 0x0B
    ||| 0x10 <= op <= 0x1E
    ||| op == 0x20
    ||| 0x30 <= op <= 0x4A
    ||| 0x50 <= op <= 0xA4
    ||| 0xF0 <= op <= 0xF5
    ||| op == 0xFA
    ||| 0xFD <= op
}

/// A byte is an opcode exactly when it lies in one of the opcode ranges.
pub proof fn lemma_opcode_ranges(op: u8)
    ensures
        is_valid_opcode(op) <==> in_opcode_ranges(op),
{
}

/// The number of opcodes below `n`.
pub open spec fn count_opcodes_below(n: int) -> nat
    decreases n,
{
    if n <= 0 {
        0
    } else {
        count_opcodes_below(n - 1) + if is_valid_opcode((n - 1) as u8) {
            1nat
        } else {
            0nat
        }
    }
}

/// Over a range of bytes that are all opcodes, or all not, the count grows by the
/// length of the range, or stays.
proof fn lemma_count_over_range(lo: int, hi: int, all_valid: bool)
    requires
        0 <= lo <= hi <= 256,
        forall|op: u8| lo <= op < hi ==> is_valid_opcode(op) == all_valid,
    ensures
        count_opcodes_below(hi) == count_opcodes_below(lo) + if all_valid {
            hi - lo
        } else {
            0
        },
    decreases hi - lo,
{
    if lo < hi {
        lemma_count_over_range(lo, hi - 1, all_valid);
        assert(is_valid_opcode((hi - 1) as u8) == all_valid);
    }
}

/// The table defines 150 opcodes.
pub proof fn lemma_opcode_count()
    ensures
        count_opcodes_below(256) == 150,
{
    lemma_count_over_range(0x00, 0x0C, true);
    lemma_count_over_range(0x0C, 0x10, false);
    lemma_count_over_range(0x10, 0x1F, true);
    lemma_count_over_range(0x1F, 0x20, false);
    lemma_count_over_range(0x20, 0x21, true);
    lemma_count_over_range(0x21, 0x30, false);
    lemma_count_over_range(0x30, 0x4B, true);
    lemma_count_over_range(0x4B, 0x50, false);
    lemma_count_over_range(0x50, 0xA5, true);
    lemma_count_over_range(0xA5, 0xF0, false);
    lemma_count_over_range(0xF0, 0xF6, true);
    lemma_count_over_range(0xF6, 0xFA, false);
    lemma_count_over_range(0xFA, 0xFB, true);
    lemma_count_over_range(0xFB, 0xFD, false);
    lemma_count_over_range(0xFD, 0x100, true);
}

/// `name_by_op` answers `Unknown` exactly for the bytes that are no opcode: no opcode
/// is called `Unknown`.
pub proof fn lemma_unknown_only_for_non_opcodes(op: u8)
    ensures
        spec_name_or_unknown(op) == "Unknown"@ <==> !is_valid_opcode(op),
{
    if is_valid_opcode(op) {
        lemma_name_facts(op);
    }
}

/// Every name of the table is short ASCII text: at most 14 characters, encoded in as
/// many bytes, so well under the 256 bytes that an [`crate::OpCodeInfo`] name may take.
pub proof fn lemma_names_are_short_ascii(op: u8)
    requires
        is_valid_opcode(op),
    ensures
        spec_name(op).unwrap().len() <= 14,
        is_ascii_chars(spec_name(op).unwrap()),
        encode_utf8(spec_name(op).unwrap()).len() < 256,
{
    lemma_name_facts(op);
    is_ascii_chars_encode_utf8(spec_name(op).unwrap());
}

/// Exactly the `PUSH` opcodes that `is_push` recognises carry immediate bytes.
pub proof fn lemma_immediates_only_for_push(op: u8)
    requires
        is_valid_opcode(op),
    ensures
        spec_immediate_size(op) != 0 <==> is_push_opcode(op),
        is_push_opcode(op) ==> 1 <= spec_immediate_size(op) <= 32,
{
}

} // verus!
