//! Operands of the switch and `newarray` instructions.

use crate::attribute::kind::str_eq;
use vstd::prelude::*;

verus! {

/// Operand data for the `lookupswitch` instruction.
///
/// https://docs.oracle.com/javase/specs/jvms/se25/html/jvms-6.html#jvms-6.5.lookupswitch
#[derive(Debug, Clone, PartialEq, Eq)]
pub struct LookupSwitchData {
    pub padding: u8,
    pub default_offset: i32,
    pub pairs: Vec<(i32, i32)>,
}

/// Operand data for the `tableswitch` instruction.
///
/// https://docs.oracle.com/javase/specs/jvms/se21/html/jvms-6.html#jvms-6.5.tableswitch
#[derive(Debug, Clone, PartialEq, Eq)]
pub struct TableSwitchData {
    pub padding: u8,
    pub default_offset: i32,
    pub low: i32,
    pub high: i32,
    pub offsets: Vec<i32>,
}

/// Mathematical counterpart of [`LookupSwitchData`].
pub struct SpecLookupSwitch {
    pub padding: u8,
    pub default_offset: i32,
    pub pairs: Seq<(i32, i32)>,
}

/// Mathematical counterpart of [`TableSwitchData`].
pub struct SpecTableSwitch {
    pub padding: u8,
    pub default_offset: i32,
    pub low: i32,
    pub high: i32,
    pub offsets: Seq<i32>,
}

impl View for LookupSwitchData {
    type V = SpecLookupSwitch;

    open spec fn view(&self) -> SpecLookupSwitch {
        SpecLookupSwitch { padding: self.padding, default_offset: self.default_offset, pairs: self.pairs@ }
    }
}

impl View for TableSwitchData {
    type V = SpecTableSwitch;

    open spec fn view(&self) -> SpecTableSwitch {
        SpecTableSwitch {
            padding: self.padding,
            default_offset: self.default_offset,
            low: self.low,
            high: self.high,
            offsets: self.offsets@,
        }
    }
}

/// Array element type codes for the `newarray` instruction.
///
/// https://docs.oracle.com/javase/specs/jvms/se25/html/jvms-6.html#jvms-6.5.newarray
/// Table 6.5-A. Newarray type codes
#[derive(Debug, Clone, Copy, PartialEq, Eq, Structural)]
pub enum ArrayType {
    Boolean,
    Char,
    Float,
    Double,
    Byte,
    Short,
    Int,
    Long,
}

/// The byte that encodes each [`ArrayType`].
pub open spec fn spec_array_type_tag(k: ArrayType) -> u8 {
    match k {
        ArrayType::Boolean => 4,
        ArrayType::Char => 5,
        ArrayType::Float => 6,
        ArrayType::Double => 7,
        ArrayType::Byte => 8,
        ArrayType::Short => 9,
        ArrayType::Int => 10,
        ArrayType::Long => 11,
    }
}

/// The [`ArrayType`] that a byte encodes, if any.
pub open spec fn spec_array_type_from_tag(b: u8) -> Option<ArrayType> {
    match b {
        4 => Some(ArrayType::Boolean),
        5 => Some(ArrayType::Char),
        6 => Some(ArrayType::Float),
        7 => Some(ArrayType::Double),
        8 => Some(ArrayType::Byte),
        9 => Some(ArrayType::Short),
        10 => Some(ArrayType::Int),
        11 => Some(ArrayType::Long),
        _ => None,
    }
}

pub open spec fn spec_array_type_name(k: ArrayType) -> Seq<char> {
    match k {
        ArrayType::Boolean => "boolean"@,
        ArrayType::Char => "char"@,
        ArrayType::Float => "float"@,
        ArrayType::Double => "double"@,
        ArrayType::Byte => "byte"@,
        ArrayType::Short => "short"@,
        ArrayType::Int => "int"@,
        ArrayType::Long => "long"@,
    }
}

impl ArrayType {
    /// The byte that encodes this value.
    pub fn tag(&self) -> (b: u8)
        ensures
            b == spec_array_type_tag(*self),
    {
        match self {
            ArrayType::Boolean => 4,
            ArrayType::Char => 5,
            ArrayType::Float => 6,
            ArrayType::Double => 7,
            ArrayType::Byte => 8,
            ArrayType::Short => 9,
            ArrayType::Int => 10,
            ArrayType::Long => 11,
        }
    }

    /// The value that `b` encodes, or `None` for a byte that encodes none.
    pub fn from_tag(b: u8) -> (k: Option<ArrayType>)
        ensures
            k == spec_array_type_from_tag(b),
    {
        match b {
            4 => Some(ArrayType::Boolean),
            5 => Some(ArrayType::Char),
            6 => Some(ArrayType::Float),
            7 => Some(ArrayType::Double),
            8 => Some(ArrayType::Byte),
            9 => Some(ArrayType::Short),
            10 => Some(ArrayType::Int),
            11 => Some(ArrayType::Long),
            _ => None,
        }
    }

    pub fn as_str(&self) -> (s: &'static str)
        ensures
            s@ == spec_array_type_name(*self),
    {
        match self {
            ArrayType::Boolean => "boolean",
            ArrayType::Char => "char",
            ArrayType::Float => "float",
            ArrayType::Double => "double",
            ArrayType::Byte => "byte",
            ArrayType::Short => "short",
            ArrayType::Int => "int",
            ArrayType::Long => "long",
        }
    }
}

/// Encoding a [`ArrayType`] as its byte and decoding the byte gives it back,
/// and every byte that decodes to a value is that value's encoding.
pub proof fn lemma_array_type_tag_roundtrip(k: ArrayType, b: u8)
    ensures
        spec_array_type_from_tag(spec_array_type_tag(k)) == Some(k),
        spec_array_type_from_tag(b) == Some(k) ==> spec_array_type_tag(k) == b,
{
}

/// The descriptor of an array of each element type.
pub open spec fn spec_array_descriptor(t: ArrayType) -> Seq<char> {
    match t {
        ArrayType::Boolean => "[Z"@,
        ArrayType::Char => "[C"@,
        ArrayType::Float => "[F"@,
        ArrayType::Double => "[D"@,
        ArrayType::Byte => "[B"@,
        ArrayType::Short => "[S"@,
        ArrayType::Int => "[I"@,
        ArrayType::Long => "[J"@,
    }
}

/// The element type whose array has descriptor `s`, if any.
pub open spec fn spec_array_type_of_descriptor(s: Seq<char>) -> Option<ArrayType> {
    if s == "[Z"@ {
        Some(ArrayType::Boolean)
    } else if s == "[C"@ {
        Some(ArrayType::Char)
    } else if s == "[F"@ {
        Some(ArrayType::Float)
    } else if s == "[D"@ {
        Some(ArrayType::Double)
    } else if s == "[B"@ {
        Some(ArrayType::Byte)
    } else if s == "[S"@ {
        Some(ArrayType::Short)
    } else if s == "[I"@ {
        Some(ArrayType::Int)
    } else if s == "[J"@ {
        Some(ArrayType::Long)
    } else {
        None
    }
}

/// The size in bytes of one element of each type.
pub open spec fn spec_array_element_size(t: ArrayType) -> u8 {
    match t {
        ArrayType::Boolean => 1,
        ArrayType::Char => 2,
        ArrayType::Float => 4,
        ArrayType::Double => 8,
        ArrayType::Byte => 1,
        ArrayType::Short => 2,
        ArrayType::Int => 4,
        ArrayType::Long => 8,
    }
}

impl ArrayType {
    /// The size in bytes of one element.
    pub fn get_byte_size(&self) -> (n: u8)
        ensures
            n == spec_array_element_size(*self),
    {
        match self {
            ArrayType::Boolean | ArrayType::Byte => 1,
            ArrayType::Char | ArrayType::Short => 2,
            ArrayType::Int | ArrayType::Float => 4,
            ArrayType::Long | ArrayType::Double => 8,
        }
    }

    /// The descriptor of an array of this element type, such as `[I`.
    pub fn descriptor(&self) -> (s: &'static str)
        ensures
            s@ == spec_array_descriptor(*self),
    {
        match self {
            ArrayType::Boolean => "[Z",
            ArrayType::Char => "[C",
            ArrayType::Float => "[F",
            ArrayType::Double => "[D",
            ArrayType::Byte => "[B",
            ArrayType::Short => "[S",
            ArrayType::Int => "[I",
            ArrayType::Long => "[J",
        }
    }

    /// The element type whose array descriptor is `value`; `Err(())` for any other string.
    pub fn try_from(value: &str) -> (r: Result<ArrayType, ()>)
        ensures
            match spec_array_type_of_descriptor(value@) {
                Some(t) => r == Ok::<ArrayType, ()>(t),
                None => r == Err::<ArrayType, ()>(()),
            },
    {
        if str_eq(value, "[Z") {
            Ok(ArrayType::Boolean)
        } else if str_eq(value, "[C") {
            Ok(ArrayType::Char)
        } else if str_eq(value, "[F") {
            Ok(ArrayType::Float)
        } else if str_eq(value, "[D") {
            Ok(ArrayType::Double)
        } else if str_eq(value, "[B") {
            Ok(ArrayType::Byte)
        } else if str_eq(value, "[S") {
            Ok(ArrayType::Short)
        } else if str_eq(value, "[I") {
            Ok(ArrayType::Int)
        } else if str_eq(value, "[J") {
            Ok(ArrayType::Long)
        } else {
            Err(())
        }
    }
}

/// Each element type is the one its descriptor names.
pub proof fn lemma_array_descriptor_roundtrip(t: ArrayType)
    ensures
        spec_array_type_of_descriptor(spec_array_descriptor(t)) == Some(t),
{
    reveal_strlit("[Z");
    reveal_strlit("[C");
    reveal_strlit("[F");
    reveal_strlit("[D");
    reveal_strlit("[B");
    reveal_strlit("[S");
    reveal_strlit("[I");
    reveal_strlit("[J");
    assert(spec_array_type_of_descriptor(spec_array_descriptor(t)) == Some(t)) by {
        match t {
            ArrayType::Boolean => {
            },
            ArrayType::Char => {
                assert(spec_array_descriptor(t)[1] != "[Z"@[1]);
            },
            ArrayType::Float => {
                assert(spec_array_descriptor(t)[1] != "[Z"@[1]);
                assert(spec_array_descriptor(t)[1] != "[C"@[1]);
            },
            ArrayType::Double => {
                assert(spec_array_descriptor(t)[1] != "[Z"@[1]);
                assert(spec_array_descriptor(t)[1] != "[C"@[1]);
                assert(spec_array_descriptor(t)[1] != "[F"@[1]);
            },
            ArrayType::Byte => {
                assert(spec_array_descriptor(t)[1] != "[Z"@[1]);
                assert(spec_array_descriptor(t)[1] != "[C"@[1]);
                assert(spec_array_descriptor(t)[1] != "[F"@[1]);
                assert(spec_array_descriptor(t)[1] != "[D"@[1]);
            },
            ArrayType::Short => {
                assert(spec_array_descriptor(t)[1] != "[Z"@[1]);
                assert(spec_array_descriptor(t)[1] != "[C"@[1]);
                assert(spec_array_descriptor(t)[1] != "[F"@[1]);
                assert(spec_array_descriptor(t)[1] != "[D"@[1]);
                assert(spec_array_descriptor(t)[1] != "[B"@[1]);
            },
            ArrayType::Int => {
                assert(spec_array_descriptor(t)[1] != "[Z"@[1]);
                assert(spec_array_descriptor(t)[1] != "[C"@[1]);
                assert(spec_array_descriptor(t)[1] != "[F"@[1]);
                assert(spec_array_descriptor(t)[1] != "[D"@[1]);
                assert(spec_array_descriptor(t)[1] != "[B"@[1]);
                assert(spec_array_descriptor(t)[1] != "[S"@[1]);
            },
            ArrayType::Long => {
                assert(spec_array_descriptor(t)[1] != "[Z"@[1]);
                assert(spec_array_descriptor(t)[1] != "[C"@[1]);
                assert(spec_array_descriptor(t)[1] != "[F"@[1]);
                assert(spec_array_descriptor(t)[1] != "[D"@[1]);
                assert(spec_array_descriptor(t)[1] != "[B"@[1]);
                assert(spec_array_descriptor(t)[1] != "[S"@[1]);
                assert(spec_array_descriptor(t)[1] != "[I"@[1]);
            },
        }
    }
}

} // verus!