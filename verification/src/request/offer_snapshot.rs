//! The snapshot offer request.

use vstd::prelude::*;
use vstd::std_specs::convert::{FromSpecImpl, TryFromSpecImpl};
use bytes::Bytes;
use crate::error::DecodeError;
use crate::types::Snapshot;
use crate::wire;

verus! {

/// Offers a snapshot to the application.
///
/// The engine offers a snapshot when a node restores its state by state
/// sync. The application accepts or rejects it. After an acceptance the
/// engine fetches the chunks of the snapshot and has each applied; the
/// application may still reject the snapshot in the answer to a chunk, and
/// must then be ready for another offer.
///
/// Only `app_hash` can be trusted: a light client verified it. A peer may
/// have made up everything in the snapshot descriptor.
#[derive(Clone, Debug, PartialEq, Eq)]
pub struct OfferSnapshot {
    /// The snapshot offered for restoration.
    pub snapshot: Snapshot,
    /// The light client verified app hash for the height of the snapshot.
    pub app_hash: Bytes,
}

impl OfferSnapshot {
    /// The wire record of the message.
    pub open spec fn encoded(self) -> wire::RequestOfferSnapshot {
        wire::RequestOfferSnapshot {
            snapshot: Some(self.snapshot),
            app_hash: self.app_hash,
        }
    }

    /// The message that a wire record stands for. A record without a snapshot
    /// descriptor lacks a nested field.
    pub open spec fn decoded(record: wire::RequestOfferSnapshot) -> Result<
        OfferSnapshot,
        DecodeError,
    > {
        if record.snapshot is None {
            Err(DecodeError::MissingNestedField)
        } else {
            Ok(OfferSnapshot { snapshot: record.snapshot.unwrap(), app_hash: record.app_hash })
        }
    }

    /// A message survives the wire: decoding the record of a message gives the
    /// message back.
    pub proof fn lemma_round_trip(self)
        ensures
            OfferSnapshot::decoded(self.encoded()) == Ok::<OfferSnapshot, DecodeError>(self),
    {
    }
}

impl From<OfferSnapshot> for wire::RequestOfferSnapshot {
    /// Encodes: the wire record of the message.
    fn from(offer_snapshot: OfferSnapshot) -> (record: Self)
        ensures
            record == offer_snapshot.encoded(),
            OfferSnapshot::decoded(record) == Ok::<OfferSnapshot, DecodeError>(offer_snapshot),
    {
        wire::RequestOfferSnapshot {
            snapshot: Some(offer_snapshot.snapshot),
            app_hash: offer_snapshot.app_hash,
        }
    }
}

impl FromSpecImpl<OfferSnapshot> for wire::RequestOfferSnapshot {
    open spec fn obeys_from_spec() -> bool {
        true
    }

    open spec fn from_spec(offer_snapshot: OfferSnapshot) -> Self {
        offer_snapshot.encoded()
    }
}

impl TryFrom<wire::RequestOfferSnapshot> for OfferSnapshot {
    type Error = DecodeError;

    /// Decodes: the message that the record stands for, or the first
    /// reason why it stands for none.
    fn try_from(record: wire::RequestOfferSnapshot) -> (decoded: Result<Self, DecodeError>)
        ensures
            decoded == OfferSnapshot::decoded(record),
            decoded is Ok <==> record.snapshot is Some,
    {
        let snapshot = match record.snapshot {
            Some(snapshot) => snapshot,
            None => return Err(DecodeError::MissingNestedField),
        };
        Ok(OfferSnapshot { snapshot, app_hash: record.app_hash })
    }
}

impl TryFromSpecImpl<wire::RequestOfferSnapshot> for OfferSnapshot {
    open spec fn obeys_try_from_spec() -> bool {
        true
    }

    open spec fn try_from_spec(record: wire::RequestOfferSnapshot) -> Result<Self, DecodeError> {
        OfferSnapshot::decoded(record)
    }
}

} // verus!
