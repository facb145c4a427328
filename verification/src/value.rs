//! Typed values and the form in which they cross the boundary.

use vstd::prelude::*;
use crate::val_type::ValType;

verus! {

/// A value as the runtime hands it over: 128 payload bits and the wire code of
/// its kind.
#[derive(Clone, Copy, Debug, PartialEq, Eq, Structural)]
pub struct RawValue {
    /// The payload. A kind narrower than 128 bits occupies the low bits.
    pub value: u128,
    /// The wire code of the kind.
    pub kind: u32,
}

/// A value together with its kind.
#[derive(Clone, Copy, Debug, PartialEq, Eq, Structural)]
pub struct WasmValue {
    /// The payload. A kind narrower than 128 bits occupies the low bits.
    pub bits: u128,
    /// The kind of the value.
    pub ty: ValType,
}

/// Two to the power 32.
pub const POW32: u128 = 0x1_0000_0000;

/// Two to the power 64.
pub const POW64: u128 = 0x1_0000_0000_0000_0000;

/// Two to the power 127: the first payload that reads as a negative vector.
pub const POW127: u128 = 0x8000_0000_0000_0000_0000_0000_0000_0000;

/// The payload of a 32-bit integer: its two's complement, zero-extended.
pub open spec fn bits_of_i32(val: i32) -> u128 {
    if val >= 0 {
        val as u128
    } else {
        (val + POW32) as u128
    }
}

/// The 32-bit integer in the low 32 bits of a payload.
pub open spec fn i32_of_bits(bits: u128) -> i32 {
    let low = bits % POW32;
    if low < 0x8000_0000 {
        low as i32
    } else {
        (low - POW32) as i32
    }
}

/// The payload of a 64-bit integer: its two's complement, zero-extended.
pub open spec fn bits_of_i64(val: i64) -> u128 {
    if val >= 0 {
        val as u128
    } else {
        (val + POW64) as u128
    }
}

/// The 64-bit integer in the low 64 bits of a payload.
pub open spec fn i64_of_bits(bits: u128) -> i64 {
    let low = bits % POW64;
    if low < 0x8000_0000_0000_0000 {
        low as i64
    } else {
        (low - POW64) as i64
    }
}

/// The payload of a 128-bit vector given as a signed integer: its two's
/// complement.
pub open spec fn bits_of_i128(val: i128) -> u128 {
    if val >= 0 {
        val as u128
    } else {
        (val + u128::MAX + 1) as u128
    }
}

/// The signed integer that a 128-bit payload is the two's complement of.
pub open spec fn i128_of_bits(bits: u128) -> i128 {
    if bits < POW127 {
        bits as i128
    } else {
        (bits - u128::MAX - 1) as i128
    }
}

impl WasmValue {
    /// Makes a value of kind [`ValType::I32`].
    pub fn from_i32(val: i32) -> (v: WasmValue)
        ensures
            v == (WasmValue { bits: bits_of_i32(val), ty: ValType::I32 }),
    {
        let bits: u128 = if val >= 0 {
            val as u128
        } else {
            (val as i64 + 0x1_0000_0000) as u128
        };
        WasmValue { bits, ty: ValType::I32 }
    }

    /// Reads the low 32 bits of the payload as a 32-bit integer.
    pub fn to_i32(&self) -> (val: i32)
        ensures
            val == i32_of_bits(self.bits),
    {
        let low: u128 = self.bits % POW32;
        if low < 0x8000_0000 {
            low as i32
        } else {
            (low as i64 - 0x1_0000_0000) as i32
        }
    }

    /// Makes a value of kind [`ValType::I64`].
    pub fn from_i64(val: i64) -> (v: WasmValue)
        ensures
            v == (WasmValue { bits: bits_of_i64(val), ty: ValType::I64 }),
    {
        let bits: u128 = if val >= 0 {
            val as u128
        } else {
            (val as i128 + 0x1_0000_0000_0000_0000) as u128
        };
        WasmValue { bits, ty: ValType::I64 }
    }

    /// Reads the low 64 bits of the payload as a 64-bit integer.
    pub fn to_i64(&self) -> (val: i64)
        ensures
            val == i64_of_bits(self.bits),
    {
        let low: u128 = self.bits % POW64;
        if low < 0x8000_0000_0000_0000 {
            low as i64
        } else {
            (low as i128 - 0x1_0000_0000_0000_0000) as i64
        }
    }

    /// Makes a value of kind [`ValType::F32`] from the IEEE 754 bit pattern of
    /// the number.
    pub fn from_f32_bits(pattern: u32) -> (v: WasmValue)
        ensures
            v == (WasmValue { bits: pattern as u128, ty: ValType::F32 }),
    {
        WasmValue { bits: pattern as u128, ty: ValType::F32 }
    }

    /// Reads the low 32 bits of the payload as an IEEE 754 bit pattern.
    pub fn to_f32_bits(&self) -> (pattern: u32)
        ensures
            pattern == self.bits % POW32,
    {
        (self.bits % POW32) as u32
    }

    /// Makes a value of kind [`ValType::F64`] from the IEEE 754 bit pattern of
    /// the number.
    pub fn from_f64_bits(pattern: u64) -> (v: WasmValue)
        ensures
            v == (WasmValue { bits: pattern as u128, ty: ValType::F64 }),
    {
        WasmValue { bits: pattern as u128, ty: ValType::F64 }
    }

    /// Reads the low 64 bits of the payload as an IEEE 754 bit pattern.
    pub fn to_f64_bits(&self) -> (pattern: u64)
        ensures
            pattern == self.bits % POW64,
    {
        (self.bits % POW64) as u64
    }

    /// Makes a value of kind [`ValType::V128`].
    pub fn from_v128(val: i128) -> (v: WasmValue)
        ensures
            v == (WasmValue { bits: bits_of_i128(val), ty: ValType::V128 }),
    {
        let bits: u128 = if val >= 0 {
            val as u128
        } else {
            u128::MAX - ((-(val + 1)) as u128)
        };
        WasmValue { bits, ty: ValType::V128 }
    }

    /// Reads the payload as a signed 128-bit integer.
    pub fn to_v128(&self) -> (val: i128)
        ensures
            val == i128_of_bits(self.bits),
    {
        if self.bits < POW127 {
            self.bits as i128
        } else {
            -((u128::MAX - self.bits) as i128) - 1
        }
    }

    /// Makes a value of kind [`ValType::FuncRef`] that refers to the function
    /// object at `handle`.
    pub fn from_func_ref(handle: u64) -> (v: WasmValue)
        ensures
            v == (WasmValue { bits: handle as u128, ty: ValType::FuncRef }),
    {
        WasmValue { bits: handle as u128, ty: ValType::FuncRef }
    }

    /// Makes a value of kind [`ValType::ExternRef`] that refers to the object
    /// at `handle`.
    pub fn from_extern_ref(handle: u64) -> (v: WasmValue)
        ensures
            v == (WasmValue { bits: handle as u128, ty: ValType::ExternRef }),
    {
        WasmValue { bits: handle as u128, ty: ValType::ExternRef }
    }

    /// Reads the low 64 bits of the payload as the handle of a reference.
    pub fn to_ref(&self) -> (handle: u64)
        ensures
            handle == self.bits % POW64,
    {
        (self.bits % POW64) as u64
    }

    /// Returns the kind of the value.
    pub fn ty(&self) -> (ty: ValType)
        ensures
            ty == self.ty,
    {
        self.ty
    }

    /// The wire form of a value: its payload, untouched, and the code of its
    /// kind.
    pub open spec fn raw_of(self) -> RawValue {
        RawValue { value: self.bits, kind: self.ty.code_of() }
    }

    /// The value that a wire form stands for, if its code is that of a kind.
    pub open spec fn of_raw(raw: RawValue) -> Option<WasmValue> {
        match ValType::of_code(raw.kind) {
            Some(ty) => Some(WasmValue { bits: raw.value, ty }),
            None => None,
        }
    }

    /// Returns the wire form of the value.
    pub fn as_raw(&self) -> (raw: RawValue)
        ensures
            raw == self.raw_of(),
    {
        RawValue { value: self.bits, kind: self.ty.code() }
    }

    /// Returns the value that `raw` stands for, or `None` when the code of
    /// `raw` is not that of any kind.
    pub fn from_raw(raw: RawValue) -> (v: Option<WasmValue>)
        ensures
            v == WasmValue::of_raw(raw),
    {
        match ValType::from_code(raw.kind) {
            Some(ty) => Some(WasmValue { bits: raw.value, ty }),
            None => None,
        }
    }
}

/// The integer constructors lose nothing: what was put in is read back.
pub proof fn lemma_integers_round_trip(a: i32, b: i64, c: i128)
    ensures
        i32_of_bits(bits_of_i32(a)) == a,
        i64_of_bits(bits_of_i64(b)) == b,
        i128_of_bits(bits_of_i128(c)) == c,
{
}

/// The wire form loses nothing in either direction: a value is found again
/// from its wire form, and a wire form that stands for a value is the wire
/// form of that value.
pub proof fn lemma_raw_round_trip(v: WasmValue, raw: RawValue)
    ensures
        WasmValue::of_raw(v.raw_of()) == Some(v),
        WasmValue::of_raw(raw) == Some(v) ==> v.raw_of() == raw,
{
}

} // verus!
