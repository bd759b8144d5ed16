//! Block heights.

use vstd::prelude::*;
use vstd::std_specs::convert::{FromSpecImpl, TryFromSpecImpl};
use crate::error::DecodeError;

verus! {

/// A block height: a number of blocks, counted from the start of the chain.
///
/// On the wire a height travels as a signed 64-bit integer, so a height is
/// at most `i64::MAX`.
#[derive(Clone, Copy, Debug, PartialEq, Eq, PartialOrd, Ord, Hash)]
pub struct Height {
    number: u64,
}

impl Height {
    #[verifier::type_invariant]
    spec fn in_range(self) -> bool {
        self.number <= i64::MAX
    }

    /// The number of blocks.
    pub closed spec fn spec_value(&self) -> u64 {
        self.number
    }

    /// The height of so many blocks.
    pub closed spec fn of(number: u64) -> Height {
        Height { number }
    }

    /// Whether the height lies in the range that the wire can carry. Every
    /// height that `new` or `try_from` returned does.
    pub open spec fn is_valid(self) -> bool {
        self.spec_value() <= i64::MAX
    }

    /// The height as it travels on the wire.
    pub open spec fn encoded(self) -> i64 {
        self.spec_value() as i64
    }

    /// The height that a wire integer stands for: none for a negative one.
    pub open spec fn decoded(number: i64) -> Result<Height, DecodeError> {
        if number >= 0 {
            Ok(Height::of(number as u64))
        } else {
            Err(DecodeError::Malformed)
        }
    }

    /// The height of a number has that number of blocks.
    pub proof fn lemma_value_of(number: u64)
        ensures
            Height::of(number).spec_value() == number,
    {
    }

    /// A height is its number of blocks and nothing more: it is the height
    /// of its number.
    pub proof fn lemma_of_value(self)
        ensures
            Height::of(self.spec_value()) == self,
    {
    }

    /// The height of `number` blocks, if the wire can carry it.
    pub fn new(number: u64) -> (height: Option<Height>)
        ensures
            height == if number <= i64::MAX {
                Some(Height::of(number))
            } else {
                None
            },
    {
        if number <= i64::MAX as u64 {
            Some(Height { number })
        } else {
            None
        }
    }

    /// The number of blocks.
    #[verifier::when_used_as_spec(spec_value)]
    pub fn value(&self) -> (number: u64)
        ensures
            number == self.spec_value(),
            number <= i64::MAX,
    {
        proof {
            use_type_invariant(self);
        }
        self.number
    }
}

impl From<Height> for i64 {
    /// Encodes: the integer that travels on the wire.
    fn from(height: Height) -> (number: i64)
        ensures
            number == height.encoded(),
            number >= 0,
            height.is_valid(),
            Height::decoded(number) == Ok::<Height, DecodeError>(height),
    {
        proof {
            use_type_invariant(&height);
        }
        height.number as i64
    }
}

impl FromSpecImpl<Height> for i64 {
    open spec fn obeys_from_spec() -> bool {
        true
    }

    open spec fn from_spec(height: Height) -> i64 {
        height.encoded()
    }
}

impl TryFrom<i64> for Height {
    type Error = DecodeError;

    /// Decodes: the value that a wire integer stands for, if any.
    fn try_from(number: i64) -> (height: Result<Height, DecodeError>)
        ensures
            height == Height::decoded(number),
            height is Ok <==> number >= 0,
    {
        if number >= 0 {
            Ok(Height { number: number as u64 })
        } else {
            Err(DecodeError::Malformed)
        }
    }
}

impl TryFromSpecImpl<i64> for Height {
    open spec fn obeys_try_from_spec() -> bool {
        true
    }

    open spec fn try_from_spec(number: i64) -> Result<Height, DecodeError> {
        Height::decoded(number)
    }
}

/// A wire integer stands for a height exactly when it is not negative, and
/// then for the valid height of that many blocks, whose encoding it is.
pub proof fn lemma_height_decoded(number: i64)
    ensures
        Height::decoded(number) is Ok <==> number >= 0,
        Height::decoded(number) matches Ok(height) ==> height.spec_value() == number
            && height.is_valid() && height.encoded() == number,
{
    Height::lemma_value_of(number as u64);
}

/// A valid height survives the wire: decoding its encoding gives it back.
pub proof fn lemma_height_round_trip(height: Height)
    requires
        height.is_valid(),
    ensures
        Height::decoded(height.encoded()) == Ok::<Height, DecodeError>(height),
{
    height.lemma_of_value();
}

} // verus!
