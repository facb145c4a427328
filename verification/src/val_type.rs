//! The closed set of value kinds and the codes that stand for them on the wire.

use vstd::prelude::*;

verus! {

/// The kind of a value that can cross the boundary.
#[derive(Clone, Copy, Debug, PartialEq, Eq, Structural)]
pub enum ValType {
    /// 32-bit integer, signed or unsigned as each operation reads it.
    I32,
    /// 64-bit integer, signed or unsigned as each operation reads it.
    I64,
    /// 32-bit IEEE 754 floating-point number.
    F32,
    /// 64-bit IEEE 754 floating-point number.
    F64,
    /// 128-bit vector of packed data.
    V128,
    /// Reference to a function.
    FuncRef,
    /// Reference to an object of the embedding.
    ExternRef,
}

/// Wire code of [`ValType::I32`].
pub const CODE_I32: u32 = 0x7F;

/// Wire code of [`ValType::I64`].
pub const CODE_I64: u32 = 0x7E;

/// Wire code of [`ValType::F32`].
pub const CODE_F32: u32 = 0x7D;

/// Wire code of [`ValType::F64`].
pub const CODE_F64: u32 = 0x7C;

/// Wire code of [`ValType::V128`].
pub const CODE_V128: u32 = 0x7B;

/// Wire code of [`ValType::FuncRef`].
pub const CODE_FUNC_REF: u32 = 0x70;

/// Wire code of [`ValType::ExternRef`].
pub const CODE_EXTERN_REF: u32 = 0x6F;

impl ValType {
    /// The wire code of a kind.
    pub open spec fn code_of(self) -> u32 {
        match self {
            ValType::I32 => CODE_I32,
            ValType::I64 => CODE_I64,
            ValType::F32 => CODE_F32,
            ValType::F64 => CODE_F64,
            ValType::V128 => CODE_V128,
            ValType::FuncRef => CODE_FUNC_REF,
            ValType::ExternRef => CODE_EXTERN_REF,
        }
    }

    /// The kind that a wire code stands for, if it stands for one.
    pub open spec fn of_code(code: u32) -> Option<ValType> {
        if code == CODE_I32 {
            Some(ValType::I32)
        } else if code == CODE_I64 {
            Some(ValType::I64)
        } else if code == CODE_F32 {
            Some(ValType::F32)
        } else if code == CODE_F64 {
            Some(ValType::F64)
        } else if code == CODE_V128 {
            Some(ValType::V128)
        } else if code == CODE_FUNC_REF {
            Some(ValType::FuncRef)
        } else if code == CODE_EXTERN_REF {
            Some(ValType::ExternRef)
        } else {
            None
        }
    }

    /// Returns the wire code of this kind.
    pub fn code(self) -> (code: u32)
        ensures
            code == self.code_of(),
    {
        match self {
            ValType::I32 => CODE_I32,
            ValType::I64 => CODE_I64,
            ValType::F32 => CODE_F32,
            ValType::F64 => CODE_F64,
            ValType::V128 => CODE_V128,
            ValType::FuncRef => CODE_FUNC_REF,
            ValType::ExternRef => CODE_EXTERN_REF,
        }
    }

    /// Returns the kind that `code` stands for, or `None` when `code` is not
    /// the code of any kind.
    pub fn from_code(code: u32) -> (kind: Option<ValType>)
        ensures
            kind == ValType::of_code(code),
    {
        if code == CODE_I32 {
            Some(ValType::I32)
        } else if code == CODE_I64 {
            Some(ValType::I64)
        } else if code == CODE_F32 {
            Some(ValType::F32)
        } else if code == CODE_F64 {
            Some(ValType::F64)
        } else if code == CODE_V128 {
            Some(ValType::V128)
        } else if code == CODE_FUNC_REF {
            Some(ValType::FuncRef)
        } else if code == CODE_EXTERN_REF {
            Some(ValType::ExternRef)
        } else {
            None
        }
    }
}

/// Every kind is found again from its code, and a code that stands for a kind
/// is the code of that kind: the two tables are inverse to each other.
pub proof fn lemma_code_round_trip(kind: ValType, code: u32)
    ensures
        ValType::of_code(kind.code_of()) == Some(kind),
        ValType::of_code(code) == Some(kind) ==> kind.code_of() == code,
{
}

} // verus!
