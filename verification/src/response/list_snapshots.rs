//! The snapshot list response.

use vstd::prelude::*;
use vstd::std_specs::convert::{FromSpecImpl, TryFromSpecImpl};
use crate::error::DecodeError;
use crate::types::Snapshot;
use crate::wire;

verus! {

/// Returns a list of local state snapshots.
#[derive(Clone, Debug, PartialEq, Eq)]
pub struct ListSnapshots {
    /// The snapshots that the application holds.
    pub snapshots: Vec<Snapshot>,
}

impl ListSnapshots {
    /// The wire record of the message.
    pub open spec fn encoded(self) -> wire::ResponseListSnapshots {
        wire::ResponseListSnapshots { snapshots: self.snapshots }
    }

    /// The message that a wire record stands for. Every record stands for one.
    pub open spec fn decoded(record: wire::ResponseListSnapshots) -> Result<
        ListSnapshots,
        DecodeError,
    > {
        Ok(ListSnapshots { snapshots: record.snapshots })
    }

    /// A message survives the wire: decoding the record of a message gives the
    /// message back.
    pub proof fn lemma_round_trip(self)
        ensures
            ListSnapshots::decoded(self.encoded()) == Ok::<ListSnapshots, DecodeError>(self),
    {
    }
}

impl From<ListSnapshots> for wire::ResponseListSnapshots {
    /// Encodes: the wire record of the message.
    fn from(list_snapshots: ListSnapshots) -> (record: Self)
        ensures
            record == list_snapshots.encoded(),
            ListSnapshots::decoded(record) == Ok::<ListSnapshots, DecodeError>(list_snapshots),
    {
        wire::ResponseListSnapshots { snapshots: list_snapshots.snapshots }
    }
}

impl FromSpecImpl<ListSnapshots> for wire::ResponseListSnapshots {
    open spec fn obeys_from_spec() -> bool {
        true
    }

    open spec fn from_spec(list_snapshots: ListSnapshots) -> Self {
        list_snapshots.encoded()
    }
}

impl TryFrom<wire::ResponseListSnapshots> for ListSnapshots {
    type Error = DecodeError;

    /// Decodes: the message that the record stands for, or the first
    /// reason why it stands for none.
    fn try_from(record: wire::ResponseListSnapshots) -> (decoded: Result<Self, DecodeError>)
        ensures
            decoded == ListSnapshots::decoded(record),
            decoded is Ok,
    {
        Ok(ListSnapshots { snapshots: record.snapshots })
    }
}

impl TryFromSpecImpl<wire::ResponseListSnapshots> for ListSnapshots {
    open spec fn obeys_try_from_spec() -> bool {
        true
    }

    open spec fn try_from_spec(record: wire::ResponseListSnapshots) -> Result<Self, DecodeError> {
        ListSnapshots::decoded(record)
    }
}

} // verus!
