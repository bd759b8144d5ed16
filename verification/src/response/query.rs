//! The query response.

use vstd::prelude::*;
use vstd::std_specs::convert::{FromSpecImpl, TryFromSpecImpl};
use bytes::Bytes;
use crate::block::Height;
use crate::error::DecodeError;
use crate::types::ProofOps;
use crate::wire;

verus! {

/// Returns data queried from the application.
#[derive(Clone, Debug, PartialEq, Eq)]
pub struct Query {
    /// The response code for the query. Zero means success.
    pub code: u32,
    /// The output of the application's logger. May be non-deterministic.
    pub log: String,
    /// Additional information. May be non-deterministic.
    pub info: String,
    /// The index of the key in the tree.
    pub index: i64,
    /// The key of the matching data.
    pub key: Bytes,
    /// The value of the matching data.
    pub value: Bytes,
    /// Serialized proof for the value data, if requested, to be verified
    /// against the app hash for the given `height`.
    pub proof: Option<ProofOps>,
    /// The block height from which data was derived.
    pub height: Height,
    /// The namespace for the `code`.
    pub codespace: String,
}

impl Query {
    /// Whether every height in the message is one that the wire can carry.
    pub open spec fn is_valid(self) -> bool {
        self.height.is_valid()
    }

    /// The wire record of the message.
    pub open spec fn encoded(self) -> wire::ResponseQuery {
        wire::ResponseQuery {
            code: self.code,
            log: self.log,
            info: self.info,
            index: self.index,
            key: self.key,
            value: self.value,
            proof_ops: self.proof,
            height: self.height.encoded(),
            codespace: self.codespace,
        }
    }

    /// The message that a wire record stands for. A record with a negative
    /// height is malformed.
    pub open spec fn decoded(record: wire::ResponseQuery) -> Result<Query, DecodeError> {
        if let Err(error) = Height::decoded(record.height) {
            Err(error)
        } else {
            Ok(Query {
                code: record.code,
                log: record.log,
                info: record.info,
                index: record.index,
                key: record.key,
                value: record.value,
                proof: record.proof_ops,
                height: Height::decoded(record.height).unwrap(),
                codespace: record.codespace,
            })
        }
    }

    /// A message with valid heights survives the wire: decoding its record gives
    /// the message back.
    pub proof fn lemma_round_trip(self)
        requires
            self.is_valid(),
        ensures
            Query::decoded(self.encoded()) == Ok::<Query, DecodeError>(self),
    {
        crate::block::height::lemma_height_round_trip(self.height);
    }
}

impl From<Query> for wire::ResponseQuery {
    /// Encodes: the wire record of the message.
    fn from(query: Query) -> (record: Self)
        ensures
            record == query.encoded(),
            Query::decoded(record) == Ok::<Query, DecodeError>(query),
    {
        wire::ResponseQuery {
            code: query.code,
            log: query.log,
            info: query.info,
            index: query.index,
            key: query.key,
            value: query.value,
            proof_ops: query.proof,
            height: i64::from(query.height),
            codespace: query.codespace,
        }
    }
}

impl FromSpecImpl<Query> for wire::ResponseQuery {
    open spec fn obeys_from_spec() -> bool {
        true
    }

    open spec fn from_spec(query: Query) -> Self {
        query.encoded()
    }
}

impl TryFrom<wire::ResponseQuery> for Query {
    type Error = DecodeError;

    /// Decodes: the message that the record stands for, or the first
    /// reason why it stands for none.
    fn try_from(record: wire::ResponseQuery) -> (decoded: Result<Self, DecodeError>)
        ensures
            decoded == Query::decoded(record),
            decoded is Ok <==> record.height >= 0,
    {
        let height = match Height::try_from(record.height) {
            Ok(height) => height,
            Err(error) => return Err(error),
        };
        Ok(Query {
            code: record.code,
            log: record.log,
            info: record.info,
            index: record.index,
            key: record.key,
            value: record.value,
            proof: record.proof_ops,
            height,
            codespace: record.codespace,
        })
    }
}

impl TryFromSpecImpl<wire::ResponseQuery> for Query {
    open spec fn obeys_try_from_spec() -> bool {
        true
    }

    open spec fn try_from_spec(record: wire::ResponseQuery) -> Result<Self, DecodeError> {
        Query::decoded(record)
    }
}

} // verus!
