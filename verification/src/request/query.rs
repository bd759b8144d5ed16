//! The query request.

use vstd::prelude::*;
use vstd::std_specs::convert::{FromSpecImpl, TryFromSpecImpl};
use bytes::Bytes;
use crate::block::Height;
use crate::error::DecodeError;
use crate::wire;

verus! {

/// Queries for data from the application at current or past height.
#[derive(Clone, Debug, PartialEq, Eq)]
pub struct Query {
    /// Raw query bytes. Their meaning depends on the path.
    pub data: Bytes,
    /// The path of the query, in the manner of a URI.
    pub path: String,
    /// The block height to answer for. Zero asks for the latest
    /// committed block.
    pub height: Height,
    /// Whether to return a Merkle proof with the answer.
    pub prove: bool,
}

impl Query {
    /// Whether every height in the message is one that the wire can carry.
    pub open spec fn is_valid(self) -> bool {
        self.height.is_valid()
    }

    /// The wire record of the message.
    pub open spec fn encoded(self) -> wire::RequestQuery {
        wire::RequestQuery {
            data: self.data,
            path: self.path,
            height: self.height.encoded(),
            prove: self.prove,
        }
    }

    /// The message that a wire record stands for. A record with a negative
    /// height is malformed.
    pub open spec fn decoded(record: wire::RequestQuery) -> Result<Query, DecodeError> {
        if let Err(error) = Height::decoded(record.height) {
            Err(error)
        } else {
            Ok(Query {
                data: record.data,
                path: record.path,
                height: Height::decoded(record.height).unwrap(),
                prove: record.prove,
            })
        }
    }

    /// A message with valid heights survives the wire: decoding its record gives
    /// the message back.
    pub proof fn lemma_round_trip(self)
        requires
            self.is_valid(),
        ensures
            Query::decoded(self.encoded()) == Ok::<Query, DecodeError>(self),
    {
        crate::block::height::lemma_height_round_trip(self.height);
    }
}

impl From<Query> for wire::RequestQuery {
    /// Encodes: the wire record of the message.
    fn from(query: Query) -> (record: Self)
        ensures
            record == query.encoded(),
            Query::decoded(record) == Ok::<Query, DecodeError>(query),
    {
        wire::RequestQuery {
            data: query.data,
            path: query.path,
            height: i64::from(query.height),
            prove: query.prove,
        }
    }
}

impl FromSpecImpl<Query> for wire::RequestQuery {
    open spec fn obeys_from_spec() -> bool {
        true
    }

    open spec fn from_spec(query: Query) -> Self {
        query.encoded()
    }
}

impl TryFrom<wire::RequestQuery> for Query {
    type Error = DecodeError;

    /// Decodes: the message that the record stands for, or the first
    /// reason why it stands for none.
    fn try_from(record: wire::RequestQuery) -> (decoded: Result<Self, DecodeError>)
        ensures
            decoded == Query::decoded(record),
            decoded is Ok <==> record.height >= 0,
    {
        let height = match Height::try_from(record.height) {
            Ok(height) => height,
            Err(error) => return Err(error),
        };
        Ok(Query { data: record.data, path: record.path, height, prove: record.prove })
    }
}

impl TryFromSpecImpl<wire::RequestQuery> for Query {
    open spec fn obeys_try_from_spec() -> bool {
        true
    }

    open spec fn try_from_spec(record: wire::RequestQuery) -> Result<Self, DecodeError> {
        Query::decoded(record)
    }
}

} // verus!
