//! The decoded instruction stream the reflector consumes: opcodes, typed
//! operands and the three instruction sections of a module. An external
//! binary decoder produces this; the reflector never parses raw bytes.

use vstd::prelude::*;

verus! {

/// The opcodes the reflector reads. Every other opcode decodes to `Other`
/// and is passed over.
#[derive(Clone, Copy, Debug, PartialEq, Eq, Structural)]
pub enum Op {
    Constant,
    TypeInt,
    TypeFloat,
    TypeBool,
    TypeVector,
    TypeMatrix,
    TypeArray,
    TypeImage,
    TypeSampledImage,
    TypePointer,
    Variable,
    Name,
    Decorate,
    Other,
}

/// Where a module variable lives. Only uniform-constant variables carry
/// uniforms; the rest are out of scope and ignored.
#[derive(Clone, Copy, Debug, PartialEq, Eq, Structural)]
pub enum StorageClass {
    UniformConstant,
    Input,
    Output,
    Uniform,
    PushConstant,
    Function,
    Other,
}

/// The decoration tags the reflector reads.
#[derive(Clone, Copy, Debug, PartialEq, Eq, Structural)]
pub enum Decoration {
    Location,
    Binding,
    Other,
}

/// One typed operand of a decoded instruction.
#[derive(Debug)]
pub enum Operand {
    LiteralInt32(u32),
    IdRef(u32),
    LiteralString(String),
    StorageClass(StorageClass),
    Decoration(Decoration),
}

/// One decoded instruction.
#[derive(Debug)]
pub struct Instruction {
    pub opcode: Op,
    pub result_id: Option<u32>,
    pub result_type: Option<u32>,
    pub operands: Vec<Operand>,
}

/// The sections of a decoded module the reflector walks: type, constant and
/// global-variable instructions; debug-name instructions; annotation
/// instructions.
#[derive(Debug)]
pub struct SpirvModule {
    pub types_global_values: Vec<Instruction>,
    pub debugs: Vec<Instruction>,
    pub annotations: Vec<Instruction>,
}

impl Instruction {
    /// The result id, or 0 when the instruction carries none.
    pub open spec fn spec_rid(self) -> u32 {
        match self.result_id {
            Some(x) => x,
            None => 0,
        }
    }

    /// Operand `n` as a literal integer, if it exists and is one.
    pub open spec fn spec_lit_at(self, n: int) -> Option<u32> {
        if 0 <= n < self.operands@.len() {
            match self.operands@[n] {
                Operand::LiteralInt32(v) => Some(v),
                _ => None,
            }
        } else {
            None
        }
    }

    /// Operand `n` as an id reference, if it exists and is one.
    pub open spec fn spec_id_at(self, n: int) -> Option<u32> {
        if 0 <= n < self.operands@.len() {
            match self.operands@[n] {
                Operand::IdRef(v) => Some(v),
                _ => None,
            }
        } else {
            None
        }
    }

    /// Operand `n` as a string literal, if it exists and is one.
    pub open spec fn spec_str_at(self, n: int) -> Option<Seq<char>> {
        if 0 <= n < self.operands@.len() {
            match self.operands@[n] {
                Operand::LiteralString(v) => Some(v@),
                _ => None,
            }
        } else {
            None
        }
    }

    /// Operand `n` as a storage class, if it exists and is one.
    pub open spec fn spec_storage_at(self, n: int) -> Option<StorageClass> {
        if 0 <= n < self.operands@.len() {
            match self.operands@[n] {
                Operand::StorageClass(v) => Some(v),
                _ => None,
            }
        } else {
            None
        }
    }

    /// Operand `n` as a decoration tag, if it exists and is one.
    pub open spec fn spec_decoration_at(self, n: int) -> Option<Decoration> {
        if 0 <= n < self.operands@.len() {
            match self.operands@[n] {
                Operand::Decoration(v) => Some(v),
                _ => None,
            }
        } else {
            None
        }
    }

    /// The result id, or 0 when the instruction carries none.
    pub fn rid(&self) -> (r: u32)
        ensures
            r == self.spec_rid(),
    {
        match self.result_id {
            Some(x) => x,
            None => 0,
        }
    }

    /// Operand `n` as a literal integer, if it exists and is one.
    pub fn lit_at(&self, n: usize) -> (r: Option<u32>)
        ensures
            r == self.spec_lit_at(n as int),
    {
        if n < self.operands.len() {
            match &self.operands[n] {
                Operand::LiteralInt32(v) => Some(*v),
                _ => None,
            }
        } else {
            None
        }
    }

    /// Operand `n` as an id reference, if it exists and is one.
    pub fn id_at(&self, n: usize) -> (r: Option<u32>)
        ensures
            r == self.spec_id_at(n as int),
    {
        if n < self.operands.len() {
            match &self.operands[n] {
                Operand::IdRef(v) => Some(*v),
                _ => None,
            }
        } else {
            None
        }
    }

    /// Operand `n` as a string literal, if it exists and is one.
    pub fn str_at(&self, n: usize) -> (r: Option<&String>)
        ensures
            r matches Some(v) ==> self.spec_str_at(n as int) == Some(v@),
            r is None ==> self.spec_str_at(n as int) is None,
    {
        if n < self.operands.len() {
            match &self.operands[n] {
                Operand::LiteralString(v) => Some(v),
                _ => None,
            }
        } else {
            None
        }
    }

    /// Operand `n` as a storage class, if it exists and is one.
    pub fn storage_at(&self, n: usize) -> (r: Option<StorageClass>)
        ensures
            r == self.spec_storage_at(n as int),
    {
        if n < self.operands.len() {
            match &self.operands[n] {
                Operand::StorageClass(v) => Some(*v),
                _ => None,
            }
        } else {
            None
        }
    }

    /// Operand `n` as a decoration tag, if it exists and is one.
    pub fn decoration_at(&self, n: usize) -> (r: Option<Decoration>)
        ensures
            r == self.spec_decoration_at(n as int),
    {
        if n < self.operands.len() {
            match &self.operands[n] {
                Operand::Decoration(v) => Some(*v),
                _ => None,
            }
        } else {
            None
        }
    }
}

} // verus!
