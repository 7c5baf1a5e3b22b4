use vstd::prelude::*;

verus! {

/// Why a delivery could not be processed.
#[derive(Debug, Clone, Copy, PartialEq, Eq, Structural)]
pub enum ParseError {
    /// The key has no file name, or not two or three dot-separated parts.
    FilenameParse,
    /// A type extension or compression suffix that names no known variant.
    UnknownVariant,
    /// A required nested field is absent from the payload.
    MissingField,
    /// The payload is no valid protobuf message.
    ProtobufDecode,
    /// The payload could not be run through its codec.
    Decompress,
}

} // verus!
