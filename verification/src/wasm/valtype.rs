use vstd::prelude::*;

verus! {

/// The type of a parameter or of a result in a function type. `Void` stands
/// for "no result".
#[derive(Debug, Clone, Copy, PartialEq, Eq, Structural)]
pub enum ValType {
    I32,
    F32,
    Void,
}

/// The byte that stands for a value type in the binary format.
pub open spec fn val_type_byte(ty: ValType) -> u8 {
    match ty {
        ValType::I32 => 0x7f,
        ValType::F32 => 0x7d,
        ValType::Void => 0x00,
    }
}

/// The value type that a byte stands for, where it stands for one.
pub open spec fn val_type_of_byte(byte: u8) -> Option<ValType> {
    if byte == 0x7f {
        Some(ValType::I32)
    } else if byte == 0x7d {
        Some(ValType::F32)
    } else if byte == 0x00 {
        Some(ValType::Void)
    } else {
        None
    }
}

/// The bytes of a list of value types, one byte each.
pub open spec fn val_type_bytes(tys: Seq<ValType>) -> Seq<u8> {
    tys.map_values(|ty: ValType| val_type_byte(ty))
}

impl From<ValType> for u8 {
    fn from(ty: ValType) -> (byte: u8) {
        match ty {
            ValType::I32 => 0x7fu8,
            ValType::F32 => 0x7du8,
            ValType::Void => 0x00u8,
        }
    }
}

impl vstd::std_specs::convert::FromSpecImpl<ValType> for u8 {
    open spec fn obeys_from_spec() -> bool {
        true
    }

    open spec fn from_spec(ty: ValType) -> u8 {
        val_type_byte(ty)
    }
}

impl From<&ValType> for u8 {
    fn from(ty: &ValType) -> (byte: u8) {
        match ty {
            ValType::I32 => 0x7fu8,
            ValType::F32 => 0x7du8,
            ValType::Void => 0x00u8,
        }
    }
}

impl vstd::std_specs::convert::FromSpecImpl<&ValType> for u8 {
    open spec fn obeys_from_spec() -> bool {
        true
    }

    open spec fn from_spec(ty: &ValType) -> u8 {
        val_type_byte(*ty)
    }
}

impl ValType {
    /// The byte of this value type.
    pub fn byte(self) -> (byte: u8)
        ensures
            byte == val_type_byte(self),
    {
        u8::from(self)
    }

    /// Reads a value type back from its byte; `None` for every other byte.
    pub fn from_byte(byte: u8) -> (ty: Option<ValType>)
        ensures
            ty == val_type_of_byte(byte),
    {
        if byte == 0x7f {
            Some(ValType::I32)
        } else if byte == 0x7d {
            Some(ValType::F32)
        } else if byte == 0x00 {
            Some(ValType::Void)
        } else {
            None
        }
    }
}

/// Encoding and decoding of value types are inverse to each other: a value
/// type is read back from its byte, and a byte that decodes is the byte of
/// what it decodes to.
pub proof fn lemma_val_type_round_trip(ty: ValType, byte: u8)
    ensures
        val_type_of_byte(val_type_byte(ty)) == Some(ty),
        val_type_of_byte(byte) matches Some(decoded) ==> val_type_byte(decoded) == byte,
        val_type_of_byte(byte) is Some <==> (byte == 0x7f || byte == 0x7d || byte == 0x00),
{
}

} // verus!
