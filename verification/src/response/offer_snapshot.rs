//! The snapshot offer response.

use vstd::prelude::*;
use vstd::std_specs::convert::{FromSpecImpl, TryFromSpecImpl};
use crate::error::DecodeError;
use crate::wire;

verus! {

/// Returns the application's response to a snapshot offer.
///
/// The integers that stand for the answers on the wire are part of the
/// protocol and never change.
#[derive(Clone, Copy, Debug, PartialEq, Eq, Hash, Structural)]
pub enum OfferSnapshot {
    /// Unknown result, abort all snapshot restoration.
    Unknown,
    /// Snapshot accepted, apply chunks.
    Accept,
    /// Abort all snapshot restoration.
    Abort,
    /// Reject this specific snapshot, try others.
    Reject,
    /// Reject all snapshots of this format, try others.
    RejectFormat,
    /// Reject all snapshots from the sender(s), try others.
    RejectSender,
}

impl OfferSnapshot {
    /// The wire record of the answer.
    pub open spec fn encoded(self) -> wire::ResponseOfferSnapshot {
        wire::ResponseOfferSnapshot {
            result: match self {
                OfferSnapshot::Unknown => 0,
                OfferSnapshot::Accept => 1,
                OfferSnapshot::Abort => 2,
                OfferSnapshot::Reject => 3,
                OfferSnapshot::RejectFormat => 4,
                OfferSnapshot::RejectSender => 5,
            },
        }
    }

    /// The answer that a wire record stands for. A record whose result lies
    /// outside 0 to 5 holds an unknown enumeration value.
    pub open spec fn decoded(record: wire::ResponseOfferSnapshot) -> Result<
        OfferSnapshot,
        DecodeError,
    > {
        if record.result == 0 {
            Ok(OfferSnapshot::Unknown)
        } else if record.result == 1 {
            Ok(OfferSnapshot::Accept)
        } else if record.result == 2 {
            Ok(OfferSnapshot::Abort)
        } else if record.result == 3 {
            Ok(OfferSnapshot::Reject)
        } else if record.result == 4 {
            Ok(OfferSnapshot::RejectFormat)
        } else if record.result == 5 {
            Ok(OfferSnapshot::RejectSender)
        } else {
            Err(DecodeError::UnknownEnumValue(record.result))
        }
    }

    /// An answer survives the wire: decoding the record of an answer gives
    /// the answer back.
    pub proof fn lemma_round_trip(self)
        ensures
            OfferSnapshot::decoded(self.encoded()) == Ok::<OfferSnapshot, DecodeError>(self),
    {
    }
}

impl From<OfferSnapshot> for wire::ResponseOfferSnapshot {
    /// Encodes: the wire record of the message.
    fn from(offer_snapshot: OfferSnapshot) -> (record: Self)
        ensures
            record == offer_snapshot.encoded(),
            OfferSnapshot::decoded(record) == Ok::<OfferSnapshot, DecodeError>(offer_snapshot),
    {
        let result: i32 = match offer_snapshot {
            OfferSnapshot::Unknown => 0,
            OfferSnapshot::Accept => 1,
            OfferSnapshot::Abort => 2,
            OfferSnapshot::Reject => 3,
            OfferSnapshot::RejectFormat => 4,
            OfferSnapshot::RejectSender => 5,
        };
        wire::ResponseOfferSnapshot { result }
    }
}

impl FromSpecImpl<OfferSnapshot> for wire::ResponseOfferSnapshot {
    open spec fn obeys_from_spec() -> bool {
        true
    }

    open spec fn from_spec(offer_snapshot: OfferSnapshot) -> Self {
        offer_snapshot.encoded()
    }
}

impl TryFrom<wire::ResponseOfferSnapshot> for OfferSnapshot {
    type Error = DecodeError;

    /// Decodes: the message that the record stands for, or the first
    /// reason why it stands for none.
    fn try_from(record: wire::ResponseOfferSnapshot) -> (decoded: Result<Self, DecodeError>)
        ensures
            decoded == OfferSnapshot::decoded(record),
            decoded is Ok <==> 0 <= record.result <= 5,
    {
        match record.result {
            0 => Ok(OfferSnapshot::Unknown),
            1 => Ok(OfferSnapshot::Accept),
            2 => Ok(OfferSnapshot::Abort),
            3 => Ok(OfferSnapshot::Reject),
            4 => Ok(OfferSnapshot::RejectFormat),
            5 => Ok(OfferSnapshot::RejectSender),
            code => Err(DecodeError::UnknownEnumValue(code)),
        }
    }
}

impl TryFromSpecImpl<wire::ResponseOfferSnapshot> for OfferSnapshot {
    open spec fn obeys_try_from_spec() -> bool {
        true
    }

    open spec fn try_from_spec(record: wire::ResponseOfferSnapshot) -> Result<Self, DecodeError> {
        OfferSnapshot::decoded(record)
    }
}

} // verus!
