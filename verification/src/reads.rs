use vstd::prelude::*;

verus! {

/// A point in the game world, as the game stores it: three 32-bit floats.
/// The library never looks inside one; it only carries it from a read into
/// the record that keeps it.
#[verifier::external_type_specification]
#[verifier::external_body]
pub struct ExVec3(glam::Vec3);

/// One read of the game's memory that a decision procedure of this library
/// asks its caller to perform.
#[derive(Clone, Copy, Debug, PartialEq, Eq)]
pub enum ReadRequest {
    /// A pointer-sized value at the address.
    Pointer(usize),
    /// A 32-bit signed integer at the address.
    Int32(usize),
    /// A one-byte boolean at the address.
    Flag(usize),
    /// At most `max_len` bytes at the address, decoded as a NUL-terminated
    /// UTF-8 string.
    Text(usize, usize),
    /// Three consecutive 32-bit floats at the address, the address plus 4
    /// and the address plus 8.
    Point(usize),
}

/// The outcome of a [`ReadRequest`]; `None` when the read failed.
#[derive(Clone, Debug, PartialEq)]
pub enum ReadReply {
    Pointer(Option<usize>),
    Int32(Option<i32>),
    Flag(Option<bool>),
    Text(Option<String>),
    Point(Option<glam::Vec3>),
}

impl ReadRequest {
    /// Every address that the request touches exists: a point read reaches
    /// eight bytes past its address.
    pub open spec fn well_formed(self) -> bool {
        match self {
            ReadRequest::Point(a) => a + 8 <= usize::MAX,
            _ => true,
        }
    }
}

impl ReadReply {
    /// The reply is of the kind that the request asked for.
    pub open spec fn answers(self, request: ReadRequest) -> bool {
        match request {
            ReadRequest::Pointer(_) => self is Pointer,
            ReadRequest::Int32(_) => self is Int32,
            ReadRequest::Flag(_) => self is Flag,
            ReadRequest::Text(_, _) => self is Text,
            ReadRequest::Point(_) => self is Point,
        }
    }
}

}
