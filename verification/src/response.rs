//! Responses and response data.
//!
//! [`Response`] lists every response of the interface. A response that
//! carries data holds it in a struct of its own. Each method kind but the
//! flush has an enum that holds exactly the responses of that kind; the
//! exception belongs to none of them.

use vstd::prelude::*;
use vstd::std_specs::convert::{FromSpecImpl, TryFromSpecImpl};
use crate::error::{in_variant, DecodeError, WrongCategory};
use crate::kind::MethodKind;
use crate::wire::{self, ResponseValue};

pub mod apply_snapshot_chunk;
pub mod begin_block;
pub mod check_tx;
pub mod commit;
pub mod deliver_tx;
pub mod echo;
pub mod end_block;
pub mod exception;
pub mod info;
pub mod init_chain;
pub mod list_snapshots;
pub mod load_snapshot_chunk;
pub mod offer_snapshot;
pub mod query;

pub use apply_snapshot_chunk::{ApplySnapshotChunk, ApplySnapshotChunkResult};
pub use begin_block::BeginBlock;
pub use check_tx::CheckTx;
pub use commit::Commit;
pub use deliver_tx::DeliverTx;
pub use echo::Echo;
pub use end_block::EndBlock;
pub use exception::Exception;
pub use info::Info;
pub use init_chain::InitChain;
pub use list_snapshots::ListSnapshots;
pub use load_snapshot_chunk::LoadSnapshotChunk;
pub use offer_snapshot::OfferSnapshot;
pub use query::Query;

verus! {

/// All possible ABCI responses.
#[derive(Clone, Debug, PartialEq, Eq)]
pub enum Response {
    /// Reports a fault of the application. It belongs to no kind.
    Exception(Exception),
    /// Echoes a string to test an ABCI implementation.
    Echo(Echo),
    /// Indicates that all pending requests have been completed with their
    /// responses flushed.
    Flush,
    /// Returns information about the application state.
    Info(Info),
    /// Returned on genesis after initializing chain state.
    InitChain(InitChain),
    /// Returns data queried from the application.
    Query(Query),
    /// Returns events that occurred when beginning a new block.
    BeginBlock(BeginBlock),
    /// Returns the result of checking a transaction for mempool inclusion.
    CheckTx(CheckTx),
    /// Returns events that occurred while executing a transaction against the
    /// application state.
    DeliverTx(DeliverTx),
    /// Returns validator updates that occur after the end of a block.
    EndBlock(EndBlock),
    /// Returns the result of persisting the application state.
    Commit(Commit),
    /// Returns a list of local state snapshots.
    ListSnapshots(ListSnapshots),
    /// Returns the application's response to a snapshot offer.
    OfferSnapshot(OfferSnapshot),
    /// Returns a snapshot chunk from the application.
    LoadSnapshotChunk(LoadSnapshotChunk),
    /// Returns the result of applying a snapshot chunk and associated data.
    ApplySnapshotChunk(ApplySnapshotChunk),
}

impl Response {
    /// The method kind of a response: that of the request it answers. The
    /// exception answers no request in particular and has none.
    pub open spec fn spec_kind(&self) -> Option<MethodKind> {
        match self {
            Response::Exception(_) => None,
            Response::Flush => Some(MethodKind::Flush),
            Response::InitChain(_)
            | Response::BeginBlock(_)
            | Response::DeliverTx(_)
            | Response::EndBlock(_)
            | Response::Commit(_) => Some(MethodKind::Consensus),
            Response::CheckTx(_) => Some(MethodKind::Mempool),
            Response::ListSnapshots(_)
            | Response::OfferSnapshot(_)
            | Response::LoadSnapshotChunk(_)
            | Response::ApplySnapshotChunk(_) => Some(MethodKind::Snapshot),
            Response::Info(_) | Response::Query(_) | Response::Echo(_) => Some(MethodKind::Info),
        }
    }
}

impl Response {
    /// Whether every height in the message is one that the wire can carry.
    pub open spec fn is_valid(self) -> bool {
        match self {
            Response::Info(x) => x.is_valid(),
            Response::Query(x) => x.is_valid(),
            Response::Commit(x) => x.is_valid(),
            _ => true,
        }
    }

    /// The wire record of the message: its selector holds the record of the
    /// payload, under the name of the variant.
    pub open spec fn encoded(self) -> wire::Response {
        wire::Response {
            value: Some(
                match self {
                    Response::Exception(x) => ResponseValue::Exception(x.encoded()),
                    Response::Echo(x) => ResponseValue::Echo(x.encoded()),
                    Response::Flush => ResponseValue::Flush,
                    Response::Info(x) => ResponseValue::Info(x.encoded()),
                    Response::InitChain(x) => ResponseValue::InitChain(x.encoded()),
                    Response::Query(x) => ResponseValue::Query(x.encoded()),
                    Response::BeginBlock(x) => ResponseValue::BeginBlock(x.encoded()),
                    Response::CheckTx(x) => ResponseValue::CheckTx(x.encoded()),
                    Response::DeliverTx(x) => ResponseValue::DeliverTx(x.encoded()),
                    Response::EndBlock(x) => ResponseValue::EndBlock(x.encoded()),
                    Response::Commit(x) => ResponseValue::Commit(x.encoded()),
                    Response::ListSnapshots(x) => ResponseValue::ListSnapshots(x.encoded()),
                    Response::OfferSnapshot(x) => ResponseValue::OfferSnapshot(x.encoded()),
                    Response::LoadSnapshotChunk(x) => ResponseValue::LoadSnapshotChunk(x.encoded()),
                    Response::ApplySnapshotChunk(x) => ResponseValue::ApplySnapshotChunk(
                        x.encoded(),
                    ),
                },
            ),
        }
    }

    /// The message that a wire record stands for. A record with an empty
    /// selector has no payload. Otherwise the payload decides: the record
    /// stands for the message of the same name around the decoded payload, or
    /// fails with the error of the payload.
    pub open spec fn decoded(record: wire::Response) -> Result<Response, DecodeError> {
        match record.value {
            None => Err(DecodeError::MissingPayload),
            Some(ResponseValue::Exception(x)) => in_variant(
                Exception::decoded(x),
                |payload: Exception| Response::Exception(payload),
            ),
            Some(ResponseValue::Echo(x)) => in_variant(
                Echo::decoded(x),
                |payload: Echo| Response::Echo(payload),
            ),
            Some(ResponseValue::Flush) => Ok(Response::Flush),
            Some(ResponseValue::Info(x)) => in_variant(
                Info::decoded(x),
                |payload: Info| Response::Info(payload),
            ),
            Some(ResponseValue::InitChain(x)) => in_variant(
                InitChain::decoded(x),
                |payload: InitChain| Response::InitChain(payload),
            ),
            Some(ResponseValue::Query(x)) => in_variant(
                Query::decoded(x),
                |payload: Query| Response::Query(payload),
            ),
            Some(ResponseValue::BeginBlock(x)) => in_variant(
                BeginBlock::decoded(x),
                |payload: BeginBlock| Response::BeginBlock(payload),
            ),
            Some(ResponseValue::CheckTx(x)) => in_variant(
                CheckTx::decoded(x),
                |payload: CheckTx| Response::CheckTx(payload),
            ),
            Some(ResponseValue::DeliverTx(x)) => in_variant(
                DeliverTx::decoded(x),
                |payload: DeliverTx| Response::DeliverTx(payload),
            ),
            Some(ResponseValue::EndBlock(x)) => in_variant(
                EndBlock::decoded(x),
                |payload: EndBlock| Response::EndBlock(payload),
            ),
            Some(ResponseValue::Commit(x)) => in_variant(
                Commit::decoded(x),
                |payload: Commit| Response::Commit(payload),
            ),
            Some(ResponseValue::ListSnapshots(x)) => in_variant(
                ListSnapshots::decoded(x),
                |payload: ListSnapshots| Response::ListSnapshots(payload),
            ),
            Some(ResponseValue::OfferSnapshot(x)) => in_variant(
                OfferSnapshot::decoded(x),
                |payload: OfferSnapshot| Response::OfferSnapshot(payload),
            ),
            Some(ResponseValue::LoadSnapshotChunk(x)) => in_variant(
                LoadSnapshotChunk::decoded(x),
                |payload: LoadSnapshotChunk| Response::LoadSnapshotChunk(payload),
            ),
            Some(ResponseValue::ApplySnapshotChunk(x)) => in_variant(
                ApplySnapshotChunk::decoded(x),
                |payload: ApplySnapshotChunk| Response::ApplySnapshotChunk(payload),
            ),
        }
    }
}

impl From<Response> for wire::Response {
    /// Encodes: the wire record of the message.
    fn from(response: Response) -> (record: Self)
        ensures
            record == response.encoded(),
            Response::decoded(record) == Ok::<Response, DecodeError>(response),
    {
        let value = match response {
            Response::Exception(x) => ResponseValue::Exception(x.into()),
            Response::Echo(x) => ResponseValue::Echo(x.into()),
            Response::Flush => ResponseValue::Flush,
            Response::Info(x) => ResponseValue::Info(x.into()),
            Response::InitChain(x) => ResponseValue::InitChain(x.into()),
            Response::Query(x) => ResponseValue::Query(x.into()),
            Response::BeginBlock(x) => ResponseValue::BeginBlock(x.into()),
            Response::CheckTx(x) => ResponseValue::CheckTx(x.into()),
            Response::DeliverTx(x) => ResponseValue::DeliverTx(x.into()),
            Response::EndBlock(x) => ResponseValue::EndBlock(x.into()),
            Response::Commit(x) => ResponseValue::Commit(x.into()),
            Response::ListSnapshots(x) => ResponseValue::ListSnapshots(x.into()),
            Response::OfferSnapshot(x) => ResponseValue::OfferSnapshot(x.into()),
            Response::LoadSnapshotChunk(x) => ResponseValue::LoadSnapshotChunk(x.into()),
            Response::ApplySnapshotChunk(x) => ResponseValue::ApplySnapshotChunk(x.into()),
        };
        wire::Response { value: Some(value) }
    }
}

impl FromSpecImpl<Response> for wire::Response {
    open spec fn obeys_from_spec() -> bool {
        true
    }

    open spec fn from_spec(response: Response) -> Self {
        response.encoded()
    }
}

impl TryFrom<wire::Response> for Response {
    type Error = DecodeError;

    /// Decodes: the message that the record stands for, or the first
    /// reason why it stands for none.
    fn try_from(record: wire::Response) -> (decoded: Result<Self, DecodeError>)
        ensures
            decoded == Response::decoded(record),
    {
        match record.value {
            Some(ResponseValue::Exception(x)) => match Exception::try_from(x) {
                Ok(payload) => Ok(Response::Exception(payload)),
                Err(error) => Err(error),
            },
            Some(ResponseValue::Echo(x)) => match Echo::try_from(x) {
                Ok(payload) => Ok(Response::Echo(payload)),
                Err(error) => Err(error),
            },
            Some(ResponseValue::Flush) => Ok(Response::Flush),
            Some(ResponseValue::Info(x)) => match Info::try_from(x) {
                Ok(payload) => Ok(Response::Info(payload)),
                Err(error) => Err(error),
            },
            Some(ResponseValue::InitChain(x)) => match InitChain::try_from(x) {
                Ok(payload) => Ok(Response::InitChain(payload)),
                Err(error) => Err(error),
            },
            Some(ResponseValue::Query(x)) => match Query::try_from(x) {
                Ok(payload) => Ok(Response::Query(payload)),
                Err(error) => Err(error),
            },
            Some(ResponseValue::BeginBlock(x)) => match BeginBlock::try_from(x) {
                Ok(payload) => Ok(Response::BeginBlock(payload)),
                Err(error) => Err(error),
            },
            Some(ResponseValue::CheckTx(x)) => match CheckTx::try_from(x) {
                Ok(payload) => Ok(Response::CheckTx(payload)),
                Err(error) => Err(error),
            },
            Some(ResponseValue::DeliverTx(x)) => match DeliverTx::try_from(x) {
                Ok(payload) => Ok(Response::DeliverTx(payload)),
                Err(error) => Err(error),
            },
            Some(ResponseValue::EndBlock(x)) => match EndBlock::try_from(x) {
                Ok(payload) => Ok(Response::EndBlock(payload)),
                Err(error) => Err(error),
            },
            Some(ResponseValue::Commit(x)) => match Commit::try_from(x) {
                Ok(payload) => Ok(Response::Commit(payload)),
                Err(error) => Err(error),
            },
            Some(ResponseValue::ListSnapshots(x)) => match ListSnapshots::try_from(x) {
                Ok(payload) => Ok(Response::ListSnapshots(payload)),
                Err(error) => Err(error),
            },
            Some(ResponseValue::OfferSnapshot(x)) => match OfferSnapshot::try_from(x) {
                Ok(payload) => Ok(Response::OfferSnapshot(payload)),
                Err(error) => Err(error),
            },
            Some(ResponseValue::LoadSnapshotChunk(x)) => match LoadSnapshotChunk::try_from(x) {
                Ok(payload) => Ok(Response::LoadSnapshotChunk(payload)),
                Err(error) => Err(error),
            },
            Some(ResponseValue::ApplySnapshotChunk(x)) => match ApplySnapshotChunk::try_from(x) {
                Ok(payload) => Ok(Response::ApplySnapshotChunk(payload)),
                Err(error) => Err(error),
            },
            None => Err(DecodeError::MissingPayload),
        }
    }
}

impl TryFromSpecImpl<wire::Response> for Response {
    open spec fn obeys_try_from_spec() -> bool {
        true
    }

    open spec fn try_from_spec(record: wire::Response) -> Result<Self, DecodeError> {
        Response::decoded(record)
    }
}

/// The consensus category of ABCI responses.
#[derive(Clone, Debug, PartialEq, Eq)]
pub enum ConsensusResponse {
    /// Returned on genesis after initializing chain state.
    InitChain(InitChain),
    /// Returns events that occurred when beginning a new block.
    BeginBlock(BeginBlock),
    /// Returns events that occurred while executing a transaction against the
    /// application state.
    DeliverTx(DeliverTx),
    /// Returns validator updates that occur after the end of a block.
    EndBlock(EndBlock),
    /// Returns the result of persisting the application state.
    Commit(Commit),
}

impl ConsensusResponse {
    /// The response that a consensus response is: the same variant around the same
    /// payload.
    pub open spec fn widened(self) -> Response {
        match self {
            ConsensusResponse::InitChain(x) => Response::InitChain(x),
            ConsensusResponse::BeginBlock(x) => Response::BeginBlock(x),
            ConsensusResponse::DeliverTx(x) => Response::DeliverTx(x),
            ConsensusResponse::EndBlock(x) => Response::EndBlock(x),
            ConsensusResponse::Commit(x) => Response::Commit(x),
        }
    }

    /// The consensus response that a response is, if it is one.
    pub open spec fn narrowed(response: Response) -> Result<ConsensusResponse, WrongCategory> {
        match response {
            Response::InitChain(x) => Ok(ConsensusResponse::InitChain(x)),
            Response::BeginBlock(x) => Ok(ConsensusResponse::BeginBlock(x)),
            Response::DeliverTx(x) => Ok(ConsensusResponse::DeliverTx(x)),
            Response::EndBlock(x) => Ok(ConsensusResponse::EndBlock(x)),
            Response::Commit(x) => Ok(ConsensusResponse::Commit(x)),
            _ => Err(WrongCategory),
        }
    }
}

impl From<ConsensusResponse> for Response {
    /// Widens: the same variant and payload, as a response of any kind.
    fn from(response: ConsensusResponse) -> (widened: Self)
        ensures
            widened == response.widened(),
            widened.spec_kind() == Some(MethodKind::Consensus),
    {
        match response {
            ConsensusResponse::InitChain(x) => Response::InitChain(x),
            ConsensusResponse::BeginBlock(x) => Response::BeginBlock(x),
            ConsensusResponse::DeliverTx(x) => Response::DeliverTx(x),
            ConsensusResponse::EndBlock(x) => Response::EndBlock(x),
            ConsensusResponse::Commit(x) => Response::Commit(x),
        }
    }
}

impl FromSpecImpl<ConsensusResponse> for Response {
    open spec fn obeys_from_spec() -> bool {
        true
    }

    open spec fn from_spec(response: ConsensusResponse) -> Self {
        response.widened()
    }
}

impl TryFrom<Response> for ConsensusResponse {
    type Error = WrongCategory;

    /// Narrows: the same variant and payload, if the response is of this kind.
    fn try_from(response: Response) -> (narrowed: Result<Self, WrongCategory>)
        ensures
            narrowed == ConsensusResponse::narrowed(response),
            narrowed is Ok <==> response.spec_kind() == Some(MethodKind::Consensus),
    {
        match response {
            Response::InitChain(x) => Ok(ConsensusResponse::InitChain(x)),
            Response::BeginBlock(x) => Ok(ConsensusResponse::BeginBlock(x)),
            Response::DeliverTx(x) => Ok(ConsensusResponse::DeliverTx(x)),
            Response::EndBlock(x) => Ok(ConsensusResponse::EndBlock(x)),
            Response::Commit(x) => Ok(ConsensusResponse::Commit(x)),
            _ => Err(WrongCategory),
        }
    }
}

impl TryFromSpecImpl<Response> for ConsensusResponse {
    open spec fn obeys_try_from_spec() -> bool {
        true
    }

    open spec fn try_from_spec(response: Response) -> Result<Self, WrongCategory> {
        ConsensusResponse::narrowed(response)
    }
}

/// The mempool category of ABCI responses.
#[derive(Clone, Debug, PartialEq, Eq)]
pub enum MempoolResponse {
    /// Returns the result of checking a transaction for mempool inclusion.
    CheckTx(CheckTx),
}

impl MempoolResponse {
    /// The response that a mempool response is: the same variant around the same
    /// payload.
    pub open spec fn widened(self) -> Response {
        match self {
            MempoolResponse::CheckTx(x) => Response::CheckTx(x),
        }
    }

    /// The mempool response that a response is, if it is one.
    pub open spec fn narrowed(response: Response) -> Result<MempoolResponse, WrongCategory> {
        match response {
            Response::CheckTx(x) => Ok(MempoolResponse::CheckTx(x)),
            _ => Err(WrongCategory),
        }
    }
}

impl From<MempoolResponse> for Response {
    /// Widens: the same variant and payload, as a response of any kind.
    fn from(response: MempoolResponse) -> (widened: Self)
        ensures
            widened == response.widened(),
            widened.spec_kind() == Some(MethodKind::Mempool),
    {
        match response {
            MempoolResponse::CheckTx(x) => Response::CheckTx(x),
        }
    }
}

impl FromSpecImpl<MempoolResponse> for Response {
    open spec fn obeys_from_spec() -> bool {
        true
    }

    open spec fn from_spec(response: MempoolResponse) -> Self {
        response.widened()
    }
}

impl TryFrom<Response> for MempoolResponse {
    type Error = WrongCategory;

    /// Narrows: the same variant and payload, if the response is of this kind.
    fn try_from(response: Response) -> (narrowed: Result<Self, WrongCategory>)
        ensures
            narrowed == MempoolResponse::narrowed(response),
            narrowed is Ok <==> response.spec_kind() == Some(MethodKind::Mempool),
    {
        match response {
            Response::CheckTx(x) => Ok(MempoolResponse::CheckTx(x)),
            _ => Err(WrongCategory),
        }
    }
}

impl TryFromSpecImpl<Response> for MempoolResponse {
    open spec fn obeys_try_from_spec() -> bool {
        true
    }

    open spec fn try_from_spec(response: Response) -> Result<Self, WrongCategory> {
        MempoolResponse::narrowed(response)
    }
}

/// The info category of ABCI responses.
#[derive(Clone, Debug, PartialEq, Eq)]
pub enum InfoResponse {
    /// Echoes a string to test an ABCI implementation.
    Echo(Echo),
    /// Returns information about the application state.
    Info(Info),
    /// Returns data queried from the application.
    Query(Query),
}

impl InfoResponse {
    /// The response that a info response is: the same variant around the same
    /// payload.
    pub open spec fn widened(self) -> Response {
        match self {
            InfoResponse::Echo(x) => Response::Echo(x),
            InfoResponse::Info(x) => Response::Info(x),
            InfoResponse::Query(x) => Response::Query(x),
        }
    }

    /// The info response that a response is, if it is one.
    pub open spec fn narrowed(response: Response) -> Result<InfoResponse, WrongCategory> {
        match response {
            Response::Echo(x) => Ok(InfoResponse::Echo(x)),
            Response::Info(x) => Ok(InfoResponse::Info(x)),
            Response::Query(x) => Ok(InfoResponse::Query(x)),
            _ => Err(WrongCategory),
        }
    }
}

impl From<InfoResponse> for Response {
    /// Widens: the same variant and payload, as a response of any kind.
    fn from(response: InfoResponse) -> (widened: Self)
        ensures
            widened == response.widened(),
            widened.spec_kind() == Some(MethodKind::Info),
    {
        match response {
            InfoResponse::Echo(x) => Response::Echo(x),
            InfoResponse::Info(x) => Response::Info(x),
            InfoResponse::Query(x) => Response::Query(x),
        }
    }
}

impl FromSpecImpl<InfoResponse> for Response {
    open spec fn obeys_from_spec() -> bool {
        true
    }

    open spec fn from_spec(response: InfoResponse) -> Self {
        response.widened()
    }
}

impl TryFrom<Response> for InfoResponse {
    type Error = WrongCategory;

    /// Narrows: the same variant and payload, if the response is of this kind.
    fn try_from(response: Response) -> (narrowed: Result<Self, WrongCategory>)
        ensures
            narrowed == InfoResponse::narrowed(response),
            narrowed is Ok <==> response.spec_kind() == Some(MethodKind::Info),
    {
        match response {
            Response::Echo(x) => Ok(InfoResponse::Echo(x)),
            Response::Info(x) => Ok(InfoResponse::Info(x)),
            Response::Query(x) => Ok(InfoResponse::Query(x)),
            _ => Err(WrongCategory),
        }
    }
}

impl TryFromSpecImpl<Response> for InfoResponse {
    open spec fn obeys_try_from_spec() -> bool {
        true
    }

    open spec fn try_from_spec(response: Response) -> Result<Self, WrongCategory> {
        InfoResponse::narrowed(response)
    }
}

/// The snapshot category of ABCI responses.
#[derive(Clone, Debug, PartialEq, Eq)]
pub enum SnapshotResponse {
    /// Returns a list of local state snapshots.
    ListSnapshots(ListSnapshots),
    /// Returns the application's response to a snapshot offer.
    OfferSnapshot(OfferSnapshot),
    /// Returns a snapshot chunk from the application.
    LoadSnapshotChunk(LoadSnapshotChunk),
    /// Returns the result of applying a snapshot chunk and associated data.
    ApplySnapshotChunk(ApplySnapshotChunk),
}

impl SnapshotResponse {
    /// The response that a snapshot response is: the same variant around the same
    /// payload.
    pub open spec fn widened(self) -> Response {
        match self {
            SnapshotResponse::ListSnapshots(x) => Response::ListSnapshots(x),
            SnapshotResponse::OfferSnapshot(x) => Response::OfferSnapshot(x),
            SnapshotResponse::LoadSnapshotChunk(x) => Response::LoadSnapshotChunk(x),
            SnapshotResponse::ApplySnapshotChunk(x) => Response::ApplySnapshotChunk(x),
        }
    }

    /// The snapshot response that a response is, if it is one.
    pub open spec fn narrowed(response: Response) -> Result<SnapshotResponse, WrongCategory> {
        match response {
            Response::ListSnapshots(x) => Ok(SnapshotResponse::ListSnapshots(x)),
            Response::OfferSnapshot(x) => Ok(SnapshotResponse::OfferSnapshot(x)),
            Response::LoadSnapshotChunk(x) => Ok(SnapshotResponse::LoadSnapshotChunk(x)),
            Response::ApplySnapshotChunk(x) => Ok(SnapshotResponse::ApplySnapshotChunk(x)),
            _ => Err(WrongCategory),
        }
    }
}

impl From<SnapshotResponse> for Response {
    /// Widens: the same variant and payload, as a response of any kind.
    fn from(response: SnapshotResponse) -> (widened: Self)
        ensures
            widened == response.widened(),
            widened.spec_kind() == Some(MethodKind::Snapshot),
    {
        match response {
            SnapshotResponse::ListSnapshots(x) => Response::ListSnapshots(x),
            SnapshotResponse::OfferSnapshot(x) => Response::OfferSnapshot(x),
            SnapshotResponse::LoadSnapshotChunk(x) => Response::LoadSnapshotChunk(x),
            SnapshotResponse::ApplySnapshotChunk(x) => Response::ApplySnapshotChunk(x),
        }
    }
}

impl FromSpecImpl<SnapshotResponse> for Response {
    open spec fn obeys_from_spec() -> bool {
        true
    }

    open spec fn from_spec(response: SnapshotResponse) -> Self {
        response.widened()
    }
}

impl TryFrom<Response> for SnapshotResponse {
    type Error = WrongCategory;

    /// Narrows: the same variant and payload, if the response is of this kind.
    fn try_from(response: Response) -> (narrowed: Result<Self, WrongCategory>)
        ensures
            narrowed == SnapshotResponse::narrowed(response),
            narrowed is Ok <==> response.spec_kind() == Some(MethodKind::Snapshot),
    {
        match response {
            Response::ListSnapshots(x) => Ok(SnapshotResponse::ListSnapshots(x)),
            Response::OfferSnapshot(x) => Ok(SnapshotResponse::OfferSnapshot(x)),
            Response::LoadSnapshotChunk(x) => Ok(SnapshotResponse::LoadSnapshotChunk(x)),
            Response::ApplySnapshotChunk(x) => Ok(SnapshotResponse::ApplySnapshotChunk(x)),
            _ => Err(WrongCategory),
        }
    }
}

impl TryFromSpecImpl<Response> for SnapshotResponse {
    open spec fn obeys_try_from_spec() -> bool {
        true
    }

    open spec fn try_from_spec(response: Response) -> Result<Self, WrongCategory> {
        SnapshotResponse::narrowed(response)
    }
}

impl Response {
    /// A response with valid heights survives the wire: decoding its record
    /// gives the response back.
    pub proof fn lemma_round_trip(self)
        requires
            self.is_valid(),
        ensures
            Response::decoded(self.encoded()) == Ok::<Response, DecodeError>(self),
    {
        match self {
            Response::Exception(x) => x.lemma_round_trip(),
            Response::Echo(x) => x.lemma_round_trip(),
            Response::Flush => {},
            Response::Info(x) => x.lemma_round_trip(),
            Response::InitChain(x) => x.lemma_round_trip(),
            Response::Query(x) => x.lemma_round_trip(),
            Response::BeginBlock(x) => x.lemma_round_trip(),
            Response::CheckTx(x) => x.lemma_round_trip(),
            Response::DeliverTx(x) => x.lemma_round_trip(),
            Response::EndBlock(x) => x.lemma_round_trip(),
            Response::Commit(x) => x.lemma_round_trip(),
            Response::ListSnapshots(x) => x.lemma_round_trip(),
            Response::OfferSnapshot(x) => x.lemma_round_trip(),
            Response::LoadSnapshotChunk(x) => x.lemma_round_trip(),
            Response::ApplySnapshotChunk(x) => x.lemma_round_trip(),
        }
    }

    /// A record fails for want of a payload exactly when its selector is
    /// empty: no payload reports that error of its own.
    pub proof fn lemma_missing_payload(record: wire::Response)
        ensures
            Response::decoded(record) == Err::<Response, DecodeError>(DecodeError::MissingPayload)
                <==> record.value is None,
    {
    }

    /// The kinds partition the responses that have one. A response narrows to
    /// the enum of a kind exactly when it is of that kind, and widening what
    /// came out gives the response back; narrowing to the enum of any other
    /// kind fails. A flush and an exception belong to no enum.
    pub proof fn lemma_kind_partition(self)
        ensures
            self.spec_kind() == Some(MethodKind::Consensus)
                <==> ConsensusResponse::narrowed(self) is Ok,
            self.spec_kind() == Some(MethodKind::Mempool)
                <==> MempoolResponse::narrowed(self) is Ok,
            self.spec_kind() == Some(MethodKind::Info) <==> InfoResponse::narrowed(self) is Ok,
            self.spec_kind() == Some(MethodKind::Snapshot)
                <==> SnapshotResponse::narrowed(self) is Ok,
            ConsensusResponse::narrowed(self) matches Ok(narrow) ==> narrow.widened() == self,
            MempoolResponse::narrowed(self) matches Ok(narrow) ==> narrow.widened() == self,
            InfoResponse::narrowed(self) matches Ok(narrow) ==> narrow.widened() == self,
            SnapshotResponse::narrowed(self) matches Ok(narrow) ==> narrow.widened() == self,
            self.spec_kind() != Some(MethodKind::Consensus)
                ==> ConsensusResponse::narrowed(self) is Err,
            self.spec_kind() != Some(MethodKind::Mempool)
                ==> MempoolResponse::narrowed(self) is Err,
            self.spec_kind() != Some(MethodKind::Info) ==> InfoResponse::narrowed(self) is Err,
            self.spec_kind() != Some(MethodKind::Snapshot)
                ==> SnapshotResponse::narrowed(self) is Err,
    {
    }
}

impl ConsensusResponse {
    /// Widening loses nothing: a consensus response widens to a response of the
    /// consensus kind, which narrows back to it.
    pub proof fn lemma_widen_narrow(self)
        ensures
            self.widened().spec_kind() == Some(MethodKind::Consensus),
            ConsensusResponse::narrowed(self.widened()) == Ok::<ConsensusResponse, WrongCategory>(
                self,
            ),
    {
    }
}

impl MempoolResponse {
    /// Widening loses nothing: a mempool response widens to a response of the
    /// mempool kind, which narrows back to it.
    pub proof fn lemma_widen_narrow(self)
        ensures
            self.widened().spec_kind() == Some(MethodKind::Mempool),
            MempoolResponse::narrowed(self.widened()) == Ok::<MempoolResponse, WrongCategory>(self),
    {
    }
}

impl InfoResponse {
    /// Widening loses nothing: an info response widens to a response of the
    /// info kind, which narrows back to it.
    pub proof fn lemma_widen_narrow(self)
        ensures
            self.widened().spec_kind() == Some(MethodKind::Info),
            InfoResponse::narrowed(self.widened()) == Ok::<InfoResponse, WrongCategory>(self),
    {
    }
}

impl SnapshotResponse {
    /// Widening loses nothing: a snapshot response widens to a response of the
    /// snapshot kind, which narrows back to it.
    pub proof fn lemma_widen_narrow(self)
        ensures
            self.widened().spec_kind() == Some(MethodKind::Snapshot),
            SnapshotResponse::narrowed(self.widened()) == Ok::<SnapshotResponse, WrongCategory>(
                self,
            ),
    {
    }
}

} // verus!
