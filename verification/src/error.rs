//! Error values.

use vstd::prelude::*;

verus! {

/// Why a wire record could not be turned into a message.
#[derive(Clone, Copy, Debug, PartialEq, Eq, Structural)]
pub enum DecodeError {
    /// The outer selector of a request or response carries no value.
    MissingPayload,
    /// A nested record that the message requires is absent.
    MissingNestedField,
    /// An enumerated field holds an integer that names no variant.
    UnknownEnumValue(i32),
    /// A nested field holds a value outside the range of its type.
    Malformed,
}

/// The outcome of decoding a message from the outcome of decoding its
/// payload: the payload inside its variant, or the error of the payload.
pub open spec fn in_variant<P, M>(
    payload: Result<P, DecodeError>,
    variant: spec_fn(P) -> M,
) -> Result<M, DecodeError> {
    match payload {
        Ok(payload) => Ok(variant(payload)),
        Err(error) => Err(error),
    }
}

/// A message was narrowed to a kind it does not belong to.
///
/// This is a routing signal, not a fault: the caller hands the message to
/// another pipeline.
#[derive(Clone, Copy, Debug, PartialEq, Eq, Structural)]
pub struct WrongCategory;

} // verus!
