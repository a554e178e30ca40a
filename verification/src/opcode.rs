//! The [`OpCode`] type: a byte that is always one of the opcodes of the table.

use vstd::prelude::*;

use crate::constants::{
    CALL,
    CALLCODE,
    CALLDATACOPY,
    CODECOPY,
    DELEGATECALL,
    EXTCODECOPY,
    JUMP,
    JUMPDEST,
    MCOPY,
    MLOAD,
    MSTORE,
    MSTORE8,
    PUSH1,
    PUSH32,
    RETURNDATACOPY,
    STATICCALL,
};
use crate::info::OpCodeInfo;
use crate::laws::lemma_names_identify_opcodes;
use crate::table::{
    is_push_opcode,
    is_valid_opcode,
    opcode_info,
    spec_name,
    spec_opcode_info,
    spec_stack_io,
};

verus! {

/// The opcodes that may touch memory: they read it, write it or grow it.
pub open spec fn spec_modifies_memory(op: u8) -> bool {
    ||| op == EXTCODECOPY
    ||| op == MLOAD
    ||| op == MSTORE
    ||| op == MSTORE8
    ||| op == MCOPY
    ||| op == CODECOPY
    ||| op == CALLDATACOPY
    ||| op == RETURNDATACOPY
    ||| op == CALL
    ||| op == CALLCODE
    ||| op == DELEGATECALL
    ||| op == STATICCALL
}

/// What `name_by_op` gives for a byte: the opcode's name, or `Unknown`.
pub open spec fn spec_name_or_unknown(op: u8) -> Seq<char> {
    match spec_name(op) {
        Some(name) => name,
        None => "Unknown"@,
    }
}

/// An EVM opcode.
///
/// This is always a valid opcode, as declared in the opcode table.
#[derive(Clone, Copy, Debug, PartialEq, Eq, Structural, PartialOrd, Ord, Hash)]
pub struct OpCode(u8);

impl View for OpCode {
    type V = u8;

    closed spec fn view(&self) -> u8 {
        self.0
    }
}

impl Default for OpCode {
    /// The `STOP` opcode, byte zero.
    fn default() -> (r: Self)
        ensures
            r@ == 0,
    {
        OpCode(0)
    }
}

impl PartialEq<u8> for OpCode {
    /// An opcode equals the byte it stands for.
    fn eq(&self, other: &u8) -> (r: bool) {
        self.get() == *other
    }
}

impl vstd::std_specs::cmp::PartialEqSpecImpl<u8> for OpCode {
    open spec fn obeys_eq_spec() -> bool {
        true
    }

    open spec fn eq_spec(&self, other: &u8) -> bool {
        self@ == *other
    }
}

/// Whether the first `len` characters of two strings of that length agree.
fn same_chars(a: &str, b: &str, len: usize) -> (r: bool)
    requires
        a@.len() == len,
        b@.len() == len,
    ensures
        r == (a@ == b@),
{
    let mut i: usize = 0;
    while i < len
        invariant
            a@.len() == len,
            b@.len() == len,
            i <= len,
            forall|j: int| 0 <= j < i ==> a@[j] == b@[j],
        decreases len - i,
    {
        if a.get_char(i) != b.get_char(i) {
            return false;
        }
        i += 1;
    }
    assert(a@ =~= b@);
    true
}

impl OpCode {
    #[verifier::type_invariant]
    spec fn is_valid(self) -> bool {
        is_valid_opcode(self.0)
    }

    /// Instantiates a new opcode from a u8.
    ///
    /// Returns None if the opcode is not valid.
    pub fn new(opcode: u8) -> (r: Option<Self>)
        ensures
            r is Some <==> is_valid_opcode(opcode),
            r matches Some(op) ==> op@ == opcode,
    {
        match opcode_info(opcode) {
            Some(_) => Some(OpCode(opcode)),
            None => None,
        }
    }

    /// Returns true if the opcode is a jump destination.
    pub fn is_jumpdest(&self) -> (r: bool)
        ensures
            r == (self@ == JUMPDEST),
    {
        self.0 == JUMPDEST
    }

    /// Takes a u8 and returns true if it is a jump destination.
    pub fn is_jumpdest_by_op(opcode: u8) -> (r: bool)
        ensures
            r == (is_valid_opcode(opcode) && opcode == JUMPDEST),
            r == (opcode == JUMPDEST),
    {
        if let Some(opcode) = Self::new(opcode) {
            opcode.is_jumpdest()
        } else {
            false
        }
    }

    /// Returns true if the opcode is a legacy jump instruction.
    pub fn is_jump(self) -> (r: bool)
        ensures
            r == (self@ == JUMP),
    {
        self.0 == JUMP
    }

    /// Takes a u8 and returns true if it is a jump instruction.
    pub fn is_jump_by_op(opcode: u8) -> (r: bool)
        ensures
            r == (is_valid_opcode(opcode) && opcode == JUMP),
            r == (opcode == JUMP),
    {
        if let Some(opcode) = Self::new(opcode) {
            opcode.is_jump()
        } else {
            false
        }
    }

    /// Returns true if the opcode is a `PUSH` instruction.
    pub fn is_push(self) -> (r: bool)
        ensures
            r == is_push_opcode(self@),
    {
        self.0 >= PUSH1 && self.0 <= PUSH32
    }

    /// Takes a u8 and returns true if it is a push instruction.
    pub fn is_push_by_op(opcode: u8) -> (r: bool)
        ensures
            r == (is_valid_opcode(opcode) && is_push_opcode(opcode)),
            r == is_push_opcode(opcode),
    {
        if let Some(opcode) = Self::new(opcode) {
            opcode.is_push()
        } else {
            false
        }
    }

    /// Returns the opcode as a string. This is the inverse of [`parse`](Self::parse).
    pub fn as_str(self) -> (r: &'static str)
        ensures
            Some(r@) == spec_name(self@),
    {
        self.info().name()
    }

    /// Returns the opcode name, or `Unknown` for a byte that is no opcode.
    pub fn name_by_op(opcode: u8) -> (r: &'static str)
        ensures
            r@ == spec_name_or_unknown(opcode),
    {
        if let Some(opcode) = Self::new(opcode) {
            opcode.as_str()
        } else {
            "Unknown"
        }
    }

    /// Returns the number of input stack elements.
    pub fn inputs(&self) -> (r: u8)
        ensures
            r == spec_stack_io(self@).0,
    {
        self.info().inputs()
    }

    /// Returns the number of output stack elements.
    pub fn outputs(&self) -> (r: u8)
        ensures
            r == spec_stack_io(self@).1,
    {
        self.info().outputs()
    }

    /// Calculates the difference between the number of input and output stack elements.
    pub fn io_diff(&self) -> (r: i16)
        ensures
            r == spec_stack_io(self@).1 - spec_stack_io(self@).0,
    {
        self.info().io_diff()
    }

    /// Returns the opcode information for the given opcode, `None` for a byte that
    /// is no opcode.
    pub fn info_by_op(opcode: u8) -> (r: Option<OpCodeInfo>)
        ensures
            r is Some <==> is_valid_opcode(opcode),
            r matches Some(info) ==> Some(info@) == spec_opcode_info(opcode),
    {
        if let Some(opcode) = Self::new(opcode) {
            Some(opcode.info())
        } else {
            None
        }
    }

    /// Returns the opcode as a usize.
    pub fn as_usize(&self) -> (r: usize)
        ensures
            r == self@,
    {
        self.0 as usize
    }

    /// Returns the opcode information.
    pub fn info(&self) -> (r: OpCodeInfo)
        ensures
            Some(r@) == spec_opcode_info(self@),
    {
        proof {
            use_type_invariant(self);
        }
        opcode_info(self.0).unwrap()
    }

    /// Returns the number of both input and output stack elements.
    ///
    /// Can be slightly faster that calling `inputs` and `outputs` separately.
    pub fn input_output(&self) -> (r: (u8, u8))
        ensures
            r == spec_stack_io(self@),
    {
        let info = self.info();
        (info.inputs(), info.outputs())
    }

    /// Returns the opcode as a u8.
    pub fn get(self) -> (r: u8)
        ensures
            r == self@,
            is_valid_opcode(r),
    {
        proof {
            use_type_invariant(self);
        }
        self.0
    }

    /// Returns true if the opcode modifies memory.
    ///
    /// <https://bluealloy.github.io/revm/crates/interpreter/memory.html#opcodes>
    ///
    /// <https://github.com/crytic/evm-opcodes>
    pub fn modifies_memory(&self) -> (r: bool)
        ensures
            r == spec_modifies_memory(self@),
    {
        let op = self.0;
        op == EXTCODECOPY || op == MLOAD || op == MSTORE || op == MSTORE8 || op == MCOPY
            || op == CODECOPY || op == CALLDATACOPY || op == RETURNDATACOPY || op == CALL
            || op == CALLCODE || op == DELEGATECALL || op == STATICCALL
    }

    /// Formats the opcode as a string: its name.
    pub fn to_string(&self) -> (r: String)
        ensures
            Some(r@) == spec_name(self@),
    {
        self.as_str().to_owned()
    }

    /// Parses an opcode from its name. This is the inverse of [`as_str`](Self::as_str).
    pub fn parse(s: &str) -> (r: Option<Self>)
        ensures
            r matches Some(op) ==> spec_name(op@) == Some(s@),
            r matches Some(op) ==> forall|other: u8| spec_name(other) == Some(s@) ==> other == op@,
            r is None <==> forall|other: u8| spec_name(other) != Some(s@),
    {
        let s_len = s.unicode_len();
        let mut byte: u16 = 0;
        while byte < 256
            invariant
                byte <= 256,
                s_len == s@.len(),
                forall|other: u8| other < byte ==> spec_name(other) != Some(s@),
            decreases 256 - byte,
        {
            let op = byte as u8;
            if let Some(info) = opcode_info(op) {
                let name = info.name();
                if name.unicode_len() == s_len && same_chars(name, s, s_len) {
                    proof {
                        assert forall|other: u8| spec_name(other) == Some(s@) implies other == op by {
                            lemma_names_identify_opcodes(op, other);
                        }
                    }
                    return Some(OpCode(op));
                }
            }
            byte += 1;
        }
        None
    }
}

} // verus!
