use vstd::prelude::*;
use crate::value::{push_bytes, type_name_text, TypeName, Value};

verus! {

/// Why a call failed.
#[derive(Debug, PartialEq, Eq)]
pub enum Error {
    /// A value raised by script code; it travels unchanged.
    RuntimeError(Value),
    /// A host function was handed a value of the wrong kind.
    TypeError { expected: TypeName, found: TypeName },
    /// A host side effect failed; the payload is the host's message.
    IOError(Vec<u8>),
}

/// `type error, expected `
pub open spec fn type_error_prefix() -> Seq<u8> {
    seq![116u8, 121, 112, 101, 32, 101, 114, 114, 111, 114, 44, 32, 101, 120, 112, 101, 99, 116, 101, 100, 32]
}

/// `, found `
pub open spec fn found_infix() -> Seq<u8> {
    seq![44u8, 32, 102, 111, 117, 110, 100, 32]
}

/// `io error: `
pub open spec fn io_error_prefix() -> Seq<u8> {
    seq![105u8, 111, 32, 101, 114, 114, 111, 114, 58, 32]
}

pub open spec fn type_error_text(expected: TypeName, found: TypeName) -> Seq<u8> {
    type_error_prefix() + type_name_text(expected) + found_infix() + type_name_text(found)
}

pub open spec fn io_error_text(message: Seq<u8>) -> Seq<u8> {
    io_error_prefix() + message
}

impl Error {
    /// Whether `v` is the value that script code sees for this error: the payload
    /// itself for a runtime error, a string describing it for the other kinds.
    pub open spec fn renders_as(self, v: Value) -> bool {
        match self {
            Error::RuntimeError(payload) => v == payload,
            Error::TypeError { expected, found } => match v {
                Value::String(s) => s@ == type_error_text(expected, found),
                _ => false,
            },
            Error::IOError(message) => match v {
                Value::String(s) => s@ == io_error_text(message@),
                _ => false,
            },
        }
    }

    /// The value that script code sees for this error.
    pub fn to_value(self) -> (r: Value)
        ensures
            self.renders_as(r),
    {
        match self {
            Error::RuntimeError(payload) => payload,
            Error::TypeError { expected, found } => {
                let mut s: Vec<u8> = vec![116u8, 121, 112, 101, 32, 101, 114, 114, 111, 114, 44, 32, 101, 120, 112, 101, 99, 116, 101, 100, 32];
                let e = expected.text();
                push_bytes(&mut s, e.as_slice());
                push_bytes(&mut s, vec![44u8, 32, 102, 111, 117, 110, 100, 32].as_slice());
                let f = found.text();
                push_bytes(&mut s, f.as_slice());
                Value::String(s)
            },
            Error::IOError(message) => {
                let mut s: Vec<u8> = vec![105u8, 111, 32, 101, 114, 114, 111, 114, 58, 32];
                push_bytes(&mut s, message.as_slice());
                Value::String(s)
            },
        }
    }
}

} // verus!
