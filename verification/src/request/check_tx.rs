//! The transaction check request.

use vstd::prelude::*;
use vstd::std_specs::convert::{FromSpecImpl, TryFromSpecImpl};
use bytes::Bytes;
use crate::error::DecodeError;
use crate::wire;

verus! {

/// The kind of a transaction check.
#[derive(Clone, Copy, Debug, PartialEq, Eq, Hash, Structural)]
pub enum CheckTxKind {
    /// A full check of a transaction that the node has not seen before.
    New,
    /// A check of a transaction that is already in the mempool, made again
    /// after a block was committed.
    Recheck,
}

impl CheckTxKind {
    /// The integer that stands for the kind on the wire.
    pub open spec fn encoded(self) -> i32 {
        match self {
            CheckTxKind::New => 0,
            CheckTxKind::Recheck => 1,
        }
    }

    /// The kind that a wire integer stands for: none outside 0 and 1.
    pub open spec fn decoded(code: i32) -> Result<CheckTxKind, DecodeError> {
        if code == 0 {
            Ok(CheckTxKind::New)
        } else if code == 1 {
            Ok(CheckTxKind::Recheck)
        } else {
            Err(DecodeError::UnknownEnumValue(code))
        }
    }

    /// The integers of the kinds are fixed, and decoding inverts encoding.
    pub proof fn lemma_codes(self)
        ensures
            CheckTxKind::New.encoded() == 0,
            CheckTxKind::Recheck.encoded() == 1,
            CheckTxKind::decoded(self.encoded()) == Ok::<CheckTxKind, DecodeError>(self),
    {
    }
}

impl From<CheckTxKind> for i32 {
    /// Encodes: the integer that travels on the wire.
    fn from(kind: CheckTxKind) -> (code: i32)
        ensures
            code == kind.encoded(),
    {
        match kind {
            CheckTxKind::New => 0,
            CheckTxKind::Recheck => 1,
        }
    }
}

impl FromSpecImpl<CheckTxKind> for i32 {
    open spec fn obeys_from_spec() -> bool {
        true
    }

    open spec fn from_spec(kind: CheckTxKind) -> i32 {
        kind.encoded()
    }
}

impl TryFrom<i32> for CheckTxKind {
    type Error = DecodeError;

    /// Decodes: the value that a wire integer stands for, if any.
    fn try_from(code: i32) -> (decoded: Result<Self, DecodeError>)
        ensures
            decoded == CheckTxKind::decoded(code),
            decoded is Ok <==> 0 <= code <= 1,
    {
        match code {
            0 => Ok(CheckTxKind::New),
            1 => Ok(CheckTxKind::Recheck),
            _ => Err(DecodeError::UnknownEnumValue(code)),
        }
    }
}

impl TryFromSpecImpl<i32> for CheckTxKind {
    open spec fn obeys_try_from_spec() -> bool {
        true
    }

    open spec fn try_from_spec(code: i32) -> Result<Self, DecodeError> {
        CheckTxKind::decoded(code)
    }
}

/// Check whether a transaction should be included in the mempool.
///
/// A check decides about the mempool only, not about blocks. It need not
/// execute the transaction in full.
#[derive(Clone, Debug, PartialEq, Eq)]
pub struct CheckTx {
    /// The transaction bytes.
    pub tx: Bytes,
    /// The kind of check to perform.
    pub kind: CheckTxKind,
}

impl CheckTx {
    /// The wire record of the message.
    pub open spec fn encoded(self) -> wire::RequestCheckTx {
        wire::RequestCheckTx { tx: self.tx, kind: self.kind.encoded() }
    }

    /// The message that a wire record stands for. A record whose kind is
    /// neither 0 nor 1 holds an unknown enumeration value.
    pub open spec fn decoded(record: wire::RequestCheckTx) -> Result<CheckTx, DecodeError> {
        if let Err(error) = CheckTxKind::decoded(record.kind) {
            Err(error)
        } else {
            Ok(CheckTx { tx: record.tx, kind: CheckTxKind::decoded(record.kind).unwrap() })
        }
    }

    /// A message survives the wire: decoding the record of a message gives the
    /// message back.
    pub proof fn lemma_round_trip(self)
        ensures
            CheckTx::decoded(self.encoded()) == Ok::<CheckTx, DecodeError>(self),
    {
    }
}

impl From<CheckTx> for wire::RequestCheckTx {
    /// Encodes: the wire record of the message.
    fn from(check_tx: CheckTx) -> (record: Self)
        ensures
            record == check_tx.encoded(),
            CheckTx::decoded(record) == Ok::<CheckTx, DecodeError>(check_tx),
    {
        wire::RequestCheckTx { tx: check_tx.tx, kind: i32::from(check_tx.kind) }
    }
}

impl FromSpecImpl<CheckTx> for wire::RequestCheckTx {
    open spec fn obeys_from_spec() -> bool {
        true
    }

    open spec fn from_spec(check_tx: CheckTx) -> Self {
        check_tx.encoded()
    }
}

impl TryFrom<wire::RequestCheckTx> for CheckTx {
    type Error = DecodeError;

    /// Decodes: the message that the record stands for, or the first
    /// reason why it stands for none.
    fn try_from(record: wire::RequestCheckTx) -> (decoded: Result<Self, DecodeError>)
        ensures
            decoded == CheckTx::decoded(record),
            decoded is Ok <==> 0 <= record.kind <= 1,
    {
        let kind = match CheckTxKind::try_from(record.kind) {
            Ok(kind) => kind,
            Err(error) => return Err(error),
        };
        Ok(CheckTx { tx: record.tx, kind })
    }
}

impl TryFromSpecImpl<wire::RequestCheckTx> for CheckTx {
    open spec fn obeys_try_from_spec() -> bool {
        true
    }

    open spec fn try_from_spec(record: wire::RequestCheckTx) -> Result<Self, DecodeError> {
        CheckTx::decoded(record)
    }
}

} // verus!
