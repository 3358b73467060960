//! The record shapes that cross the guest boundary.
//!
//! Each record is a plain value aggregate. The two floating-point fields of a
//! record are held as their IEEE 754 bit patterns, so that a record compares
//! and copies exactly, whatever number the bits stand for.

use std::collections::HashMap;
use vstd::prelude::*;
use vstd::string::*;

verus! {

/// A nested object with one text field.
#[derive(Debug, PartialEq, Default, Clone)]
pub struct Thing {
    pub value: String,
}

/// One value of every primitive type, each of them present.
#[derive(Debug, PartialEq, Default, Clone)]
pub struct Required {
    pub bool_value: bool,
    pub u8_value: u8,
    pub u16_value: u16,
    pub u32_value: u32,
    pub u64_value: u64,
    pub s8_value: i8,
    pub s16_value: i16,
    pub s32_value: i32,
    pub s64_value: i64,
    /// Bit pattern of the 32-bit float.
    pub f32_value: u32,
    /// Bit pattern of the 64-bit float.
    pub f64_value: u64,
    pub string_value: String,
    pub bytes_value: Vec<u8>,
    pub object_value: Thing,
}

/// The shape of `Required` with every field present or absent.
#[derive(Debug, PartialEq, Default, Clone)]
pub struct Optional {
    pub bool_value: Option<bool>,
    pub u8_value: Option<u8>,
    pub u16_value: Option<u16>,
    pub u32_value: Option<u32>,
    pub u64_value: Option<u64>,
    pub s8_value: Option<i8>,
    pub s16_value: Option<i16>,
    pub s32_value: Option<i32>,
    pub s64_value: Option<i64>,
    /// Bit pattern of the 32-bit float, where there is one.
    pub f32_value: Option<u32>,
    /// Bit pattern of the 64-bit float, where there is one.
    pub f64_value: Option<u64>,
    pub string_value: Option<String>,
    pub bytes_value: Option<Vec<u8>>,
    pub object_value: Option<Thing>,
}

/// Two mappings keyed by 32-bit unsigned integers.
#[derive(Debug, PartialEq, Default, Clone)]
pub struct Maps {
    pub map_string_primative: HashMap<u32, String>,
    pub map_u64_primative: HashMap<u32, u64>,
}

/// Four ordered sequences.
#[derive(Debug, PartialEq, Default, Clone)]
pub struct Lists {
    pub list_strings: Vec<String>,
    pub list_u64s: Vec<u64>,
    pub list_objects: Vec<Thing>,
    pub list_objects_optional: Vec<Option<Thing>>,
}

/// The four arguments of the `testFunction` operation.
#[derive(Debug, PartialEq, Default, Clone)]
pub struct TestFunctionArgs {
    pub required: Required,
    pub optional: Optional,
    pub maps: Maps,
    pub lists: Lists,
}

/// A bundle of one record of each shape.
#[derive(Debug, PartialEq, Default, Clone)]
pub struct Tests {
    pub required: Required,
    pub optional: Optional,
    pub maps: Maps,
    pub lists: Lists,
}

/// The two floats of a required record, each written out in scientific
/// notation by whoever holds the numbers behind the bit patterns.
#[derive(Debug, PartialEq, Default, Clone)]
pub struct FloatText {
    pub f32_value: String,
    pub f64_value: String,
}

/// Why a call did not produce a reply.
#[derive(Debug, PartialEq, Clone)]
pub enum CallError {
    /// No handler is registered under the operation's name.
    OperationNotFound,
    /// A value could not be written in the wire encoding.
    Encode,
    /// The bytes are not the expected value in the wire encoding; the text
    /// is the codec's account of the cause.
    Decode(String),
    /// A handler gave up; the text is its own account of the cause.
    Handler(String),
}

impl CallError {
    /// The words that open the message of every decoding failure.
    pub open spec fn decode_prefix() -> Seq<char> {
        "Failed to de-serialize: "@
    }

    /// What the error says to a reader.
    pub open spec fn message(self) -> Seq<char> {
        match self {
            CallError::OperationNotFound => "operation not found"@,
            CallError::Encode => "Failed to serialize"@,
            CallError::Decode(message) => message@,
            CallError::Handler(message) => message@,
        }
    }

    /// The decoding failure with the given cause: its message is the fixed
    /// prefix, then the cause.
    pub fn decode_failure(cause: &str) -> (e: CallError)
        ensures
            e.message() == Self::decode_prefix() + cause@,
            e is Decode,
    {
        let mut message = String::from_str("Failed to de-serialize: ");
        message.append(cause);
        CallError::Decode(message)
    }

    /// What the error says to a reader.
    pub fn describe(&self) -> (r: String)
        ensures
            r@ == self.message(),
    {
        match self {
            CallError::OperationNotFound => String::from_str("operation not found"),
            CallError::Encode => String::from_str("Failed to serialize"),
            CallError::Decode(message) => message.clone(),
            CallError::Handler(message) => message.clone(),
        }
    }
}

/// What a handler returns.
pub type HandlerResult<T> = Result<T, CallError>;

} // verus!
