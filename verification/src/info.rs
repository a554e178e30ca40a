//! Information about an opcode: its name, the stack items it pops and pushes, the
//! number of immediate bytes that follow it and whether it halts execution.

use vstd::prelude::*;
use vstd::string::StringSliceAdditionalSpecFns;

verus! {

/// What an [`OpCodeInfo`] holds, as mathematical values.
pub struct OpCodeInfoModel {
    pub name: Seq<char>,
    pub inputs: u8,
    pub outputs: u8,
    pub immediate_size: u8,
    pub terminating: bool,
}

/// Information about opcode, such as name, and stack inputs and outputs.
#[derive(Clone, Copy, Debug, PartialEq, Eq, PartialOrd, Ord, Hash)]
pub struct OpCodeInfo {
    /// The opcode's name, always shorter than 256 bytes.
    name: &'static str,
    /// Stack inputs.
    inputs: u8,
    /// Stack outputs.
    outputs: u8,
    /// If the opcode stops execution, e.g. STOP, RETURN, ..
    terminating: bool,
    /// Number of intermediate bytes.
    ///
    /// RJUMPV is a special case where the bytes len depends on bytecode value,
    /// for RJUMPV size will be set to one byte as it is the minimum immediate size.
    immediate_size: u8,
}

impl View for OpCodeInfo {
    type V = OpCodeInfoModel;

    closed spec fn view(&self) -> OpCodeInfoModel {
        OpCodeInfoModel {
            name: self.name@,
            inputs: self.inputs,
            outputs: self.outputs,
            immediate_size: self.immediate_size,
            terminating: self.terminating,
        }
    }
}

impl OpCodeInfo {
    /// The name of an opcode is always shorter than 256 bytes.
    #[verifier::type_invariant]
    spec fn name_fits(self) -> bool {
        self.name.spec_bytes().len() < 256
    }

    /// Creates a new opcode info with the given name and default values.
    ///
    /// The name must be shorter than 256 bytes.
    pub fn new(name: &'static str) -> (r: Self)
        requires
            name.spec_bytes().len() < 256,
        ensures
            r@ == (OpCodeInfoModel {
                name: name@,
                inputs: 0,
                outputs: 0,
                immediate_size: 0,
                terminating: false,
            }),
    {
        OpCodeInfo { name, inputs: 0, outputs: 0, immediate_size: 0, terminating: false }
    }

    /// An entry of the opcode table.
    pub(crate) fn entry(
        name: &'static str,
        inputs: u8,
        outputs: u8,
        immediate_size: u8,
        terminating: bool,
    ) -> (r: Self)
        requires
            name.spec_bytes().len() < 256,
        ensures
            r@ == (OpCodeInfoModel { name: name@, inputs, outputs, immediate_size, terminating }),
    {
        OpCodeInfo { name, inputs, outputs, immediate_size, terminating }
    }

    /// Returns the opcode name.
    pub fn name(&self) -> (r: &'static str)
        ensures
            r@ == self@.name,
            r.spec_bytes().len() < 256,
    {
        proof {
            use_type_invariant(self);
        }
        self.name
    }

    /// Calculates the difference between the number of input and output stack elements.
    pub fn io_diff(&self) -> (r: i16)
        ensures
            r == self@.outputs - self@.inputs,
    {
        self.outputs as i16 - self.inputs as i16
    }

    /// Returns the number of input stack elements.
    pub fn inputs(&self) -> (r: u8)
        ensures
            r == self@.inputs,
    {
        self.inputs
    }

    /// Returns the number of output stack elements.
    pub fn outputs(&self) -> (r: u8)
        ensures
            r == self@.outputs,
    {
        self.outputs
    }

    /// Returns whether this opcode terminates execution, e.g. `STOP`, `RETURN`, etc.
    pub fn is_terminating(&self) -> (r: bool)
        ensures
            r == self@.terminating,
    {
        self.terminating
    }

    /// Returns the size of the immediate value in bytes.
    pub fn immediate_size(&self) -> (r: u8)
        ensures
            r == self@.immediate_size,
    {
        self.immediate_size
    }
}

/// Sets the immediate bytes number in the [`OpCodeInfo`].
///
/// RJUMPV is special case where the bytes len is depending on bytecode value,
/// for RJUMPV size will be set to one byte while minimum is two.
pub fn immediate_size(op: OpCodeInfo, n: u8) -> (r: OpCodeInfo)
    ensures
        r@ == (OpCodeInfoModel { immediate_size: n, ..op@ }),
{
    let mut op = op;
    proof {
        use_type_invariant(&op);
    }
    op.immediate_size = n;
    op
}

/// Sets the terminating flag to true in the [`OpCodeInfo`].
pub fn terminating(op: OpCodeInfo) -> (r: OpCodeInfo)
    ensures
        r@ == (OpCodeInfoModel { terminating: true, ..op@ }),
{
    let mut op = op;
    proof {
        use_type_invariant(&op);
    }
    op.terminating = true;
    op
}

/// Sets the number of stack inputs and outputs in the [`OpCodeInfo`].
pub fn stack_io(op: OpCodeInfo, inputs: u8, outputs: u8) -> (r: OpCodeInfo)
    ensures
        r@ == (OpCodeInfoModel { inputs, outputs, ..op@ }),
{
    let mut op = op;
    proof {
        use_type_invariant(&op);
    }
    op.inputs = inputs;
    op.outputs = outputs;
    op
}

} // verus!
