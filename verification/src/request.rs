//! Requests and request data.
//!
//! [`Request`] lists every request of the interface. A request that carries
//! data holds it in a struct of its own. Each method kind but the flush has
//! an enum that holds exactly the requests of that kind.

use vstd::prelude::*;
use vstd::std_specs::convert::{FromSpecImpl, TryFromSpecImpl};
use crate::error::{in_variant, DecodeError, WrongCategory};
use crate::kind::MethodKind;
use crate::wire::{self, RequestValue};

pub mod apply_snapshot_chunk;
pub mod begin_block;
pub mod check_tx;
pub mod deliver_tx;
pub mod echo;
pub mod end_block;
pub mod info;
pub mod init_chain;
pub mod load_snapshot_chunk;
pub mod offer_snapshot;
pub mod query;

pub use apply_snapshot_chunk::ApplySnapshotChunk;
pub use begin_block::BeginBlock;
pub use check_tx::{CheckTx, CheckTxKind};
pub use deliver_tx::DeliverTx;
pub use echo::Echo;
pub use end_block::EndBlock;
pub use info::Info;
pub use init_chain::InitChain;
pub use load_snapshot_chunk::LoadSnapshotChunk;
pub use offer_snapshot::OfferSnapshot;
pub use query::Query;

verus! {

/// All possible ABCI requests.
#[derive(Clone, Debug, PartialEq, Eq)]
pub enum Request {
    /// Echoes a string to test an ABCI implementation.
    Echo(Echo),
    /// Indicates that any pending requests should be completed and their
    /// responses flushed.
    Flush,
    /// Requests information about the application state.
    Info(Info),
    /// Called on genesis to initialize chain state.
    InitChain(InitChain),
    /// Queries for data from the application at current or past height.
    Query(Query),
    /// Signals the beginning of a new block.
    BeginBlock(BeginBlock),
    /// Check whether a transaction should be included in the mempool.
    CheckTx(CheckTx),
    /// Execute a transaction against the application state.
    DeliverTx(DeliverTx),
    /// Signals the end of a block.
    EndBlock(EndBlock),
    /// Signals the application that it can write the queued state
    /// transitions from the block to its state.
    Commit,
    /// Asks the application for a list of snapshots.
    ListSnapshots,
    /// Offers a snapshot to the application.
    OfferSnapshot(OfferSnapshot),
    /// Used during state sync to retrieve snapshot chunks from peers.
    LoadSnapshotChunk(LoadSnapshotChunk),
    /// Applies a snapshot chunk.
    ApplySnapshotChunk(ApplySnapshotChunk),
}

impl Request {
    /// The method kind of a request: the table that assigns every request
    /// to exactly one kind.
    pub open spec fn spec_kind(&self) -> MethodKind {
        match self {
            Request::Flush => MethodKind::Flush,
            Request::InitChain(_)
            | Request::BeginBlock(_)
            | Request::DeliverTx(_)
            | Request::EndBlock(_)
            | Request::Commit => MethodKind::Consensus,
            Request::CheckTx(_) => MethodKind::Mempool,
            Request::ListSnapshots
            | Request::OfferSnapshot(_)
            | Request::LoadSnapshotChunk(_)
            | Request::ApplySnapshotChunk(_) => MethodKind::Snapshot,
            Request::Info(_) | Request::Query(_) | Request::Echo(_) => MethodKind::Info,
        }
    }

    /// Get the method kind for this request.
    #[verifier::when_used_as_spec(spec_kind)]
    pub fn kind(&self) -> (kind: MethodKind)
        ensures
            kind == self.spec_kind(),
    {
        match self {
            Request::Flush => MethodKind::Flush,
            Request::InitChain(_) => MethodKind::Consensus,
            Request::BeginBlock(_) => MethodKind::Consensus,
            Request::DeliverTx(_) => MethodKind::Consensus,
            Request::EndBlock(_) => MethodKind::Consensus,
            Request::Commit => MethodKind::Consensus,
            Request::CheckTx(_) => MethodKind::Mempool,
            Request::ListSnapshots => MethodKind::Snapshot,
            Request::OfferSnapshot(_) => MethodKind::Snapshot,
            Request::LoadSnapshotChunk(_) => MethodKind::Snapshot,
            Request::ApplySnapshotChunk(_) => MethodKind::Snapshot,
            Request::Info(_) => MethodKind::Info,
            Request::Query(_) => MethodKind::Info,
            Request::Echo(_) => MethodKind::Info,
        }
    }
}

impl Request {
    /// Whether every height in the message is one that the wire can carry.
    pub open spec fn is_valid(self) -> bool {
        match self {
            Request::InitChain(x) => x.is_valid(),
            Request::Query(x) => x.is_valid(),
            _ => true,
        }
    }

    /// The wire record of the message: its selector holds the record of the
    /// payload, under the name of the variant.
    pub open spec fn encoded(self) -> wire::Request {
        wire::Request {
            value: Some(
                match self {
                    Request::Echo(x) => RequestValue::Echo(x.encoded()),
                    Request::Flush => RequestValue::Flush,
                    Request::Info(x) => RequestValue::Info(x.encoded()),
                    Request::InitChain(x) => RequestValue::InitChain(x.encoded()),
                    Request::Query(x) => RequestValue::Query(x.encoded()),
                    Request::BeginBlock(x) => RequestValue::BeginBlock(x.encoded()),
                    Request::CheckTx(x) => RequestValue::CheckTx(x.encoded()),
                    Request::DeliverTx(x) => RequestValue::DeliverTx(x.encoded()),
                    Request::EndBlock(x) => RequestValue::EndBlock(x.encoded()),
                    Request::Commit => RequestValue::Commit,
                    Request::ListSnapshots => RequestValue::ListSnapshots,
                    Request::OfferSnapshot(x) => RequestValue::OfferSnapshot(x.encoded()),
                    Request::LoadSnapshotChunk(x) => RequestValue::LoadSnapshotChunk(x.encoded()),
                    Request::ApplySnapshotChunk(x) => RequestValue::ApplySnapshotChunk(x.encoded()),
                },
            ),
        }
    }

    /// The message that a wire record stands for. A record with an empty
    /// selector has no payload. Otherwise the payload decides: the record
    /// stands for the message of the same name around the decoded payload, or
    /// fails with the error of the payload.
    pub open spec fn decoded(record: wire::Request) -> Result<Request, DecodeError> {
        match record.value {
            None => Err(DecodeError::MissingPayload),
            Some(RequestValue::Echo(x)) => in_variant(
                Echo::decoded(x),
                |payload: Echo| Request::Echo(payload),
            ),
            Some(RequestValue::Flush) => Ok(Request::Flush),
            Some(RequestValue::Info(x)) => in_variant(
                Info::decoded(x),
                |payload: Info| Request::Info(payload),
            ),
            Some(RequestValue::InitChain(x)) => in_variant(
                InitChain::decoded(x),
                |payload: InitChain| Request::InitChain(payload),
            ),
            Some(RequestValue::Query(x)) => in_variant(
                Query::decoded(x),
                |payload: Query| Request::Query(payload),
            ),
            Some(RequestValue::BeginBlock(x)) => in_variant(
                BeginBlock::decoded(x),
                |payload: BeginBlock| Request::BeginBlock(payload),
            ),
            Some(RequestValue::CheckTx(x)) => in_variant(
                CheckTx::decoded(x),
                |payload: CheckTx| Request::CheckTx(payload),
            ),
            Some(RequestValue::DeliverTx(x)) => in_variant(
                DeliverTx::decoded(x),
                |payload: DeliverTx| Request::DeliverTx(payload),
            ),
            Some(RequestValue::EndBlock(x)) => in_variant(
                EndBlock::decoded(x),
                |payload: EndBlock| Request::EndBlock(payload),
            ),
            Some(RequestValue::Commit) => Ok(Request::Commit),
            Some(RequestValue::ListSnapshots) => Ok(Request::ListSnapshots),
            Some(RequestValue::OfferSnapshot(x)) => in_variant(
                OfferSnapshot::decoded(x),
                |payload: OfferSnapshot| Request::OfferSnapshot(payload),
            ),
            Some(RequestValue::LoadSnapshotChunk(x)) => in_variant(
                LoadSnapshotChunk::decoded(x),
                |payload: LoadSnapshotChunk| Request::LoadSnapshotChunk(payload),
            ),
            Some(RequestValue::ApplySnapshotChunk(x)) => in_variant(
                ApplySnapshotChunk::decoded(x),
                |payload: ApplySnapshotChunk| Request::ApplySnapshotChunk(payload),
            ),
        }
    }
}

impl From<Request> for wire::Request {
    /// Encodes: the wire record of the message.
    fn from(request: Request) -> (record: Self)
        ensures
            record == request.encoded(),
            Request::decoded(record) == Ok::<Request, DecodeError>(request),
    {
        let value = match request {
            Request::Echo(x) => RequestValue::Echo(x.into()),
            Request::Flush => RequestValue::Flush,
            Request::Info(x) => RequestValue::Info(x.into()),
            Request::InitChain(x) => RequestValue::InitChain(x.into()),
            Request::Query(x) => RequestValue::Query(x.into()),
            Request::BeginBlock(x) => RequestValue::BeginBlock(x.into()),
            Request::CheckTx(x) => RequestValue::CheckTx(x.into()),
            Request::DeliverTx(x) => RequestValue::DeliverTx(x.into()),
            Request::EndBlock(x) => RequestValue::EndBlock(x.into()),
            Request::Commit => RequestValue::Commit,
            Request::ListSnapshots => RequestValue::ListSnapshots,
            Request::OfferSnapshot(x) => RequestValue::OfferSnapshot(x.into()),
            Request::LoadSnapshotChunk(x) => RequestValue::LoadSnapshotChunk(x.into()),
            Request::ApplySnapshotChunk(x) => RequestValue::ApplySnapshotChunk(x.into()),
        };
        wire::Request { value: Some(value) }
    }
}

impl FromSpecImpl<Request> for wire::Request {
    open spec fn obeys_from_spec() -> bool {
        true
    }

    open spec fn from_spec(request: Request) -> Self {
        request.encoded()
    }
}

impl TryFrom<wire::Request> for Request {
    type Error = DecodeError;

    /// Decodes: the message that the record stands for, or the first
    /// reason why it stands for none.
    fn try_from(record: wire::Request) -> (decoded: Result<Self, DecodeError>)
        ensures
            decoded == Request::decoded(record),
    {
        match record.value {
            Some(RequestValue::Echo(x)) => match Echo::try_from(x) {
                Ok(payload) => Ok(Request::Echo(payload)),
                Err(error) => Err(error),
            },
            Some(RequestValue::Flush) => Ok(Request::Flush),
            Some(RequestValue::Info(x)) => match Info::try_from(x) {
                Ok(payload) => Ok(Request::Info(payload)),
                Err(error) => Err(error),
            },
            Some(RequestValue::InitChain(x)) => match InitChain::try_from(x) {
                Ok(payload) => Ok(Request::InitChain(payload)),
                Err(error) => Err(error),
            },
            Some(RequestValue::Query(x)) => match Query::try_from(x) {
                Ok(payload) => Ok(Request::Query(payload)),
                Err(error) => Err(error),
            },
            Some(RequestValue::BeginBlock(x)) => match BeginBlock::try_from(x) {
                Ok(payload) => Ok(Request::BeginBlock(payload)),
                Err(error) => Err(error),
            },
            Some(RequestValue::CheckTx(x)) => match CheckTx::try_from(x) {
                Ok(payload) => Ok(Request::CheckTx(payload)),
                Err(error) => Err(error),
            },
            Some(RequestValue::DeliverTx(x)) => match DeliverTx::try_from(x) {
                Ok(payload) => Ok(Request::DeliverTx(payload)),
                Err(error) => Err(error),
            },
            Some(RequestValue::EndBlock(x)) => match EndBlock::try_from(x) {
                Ok(payload) => Ok(Request::EndBlock(payload)),
                Err(error) => Err(error),
            },
            Some(RequestValue::Commit) => Ok(Request::Commit),
            Some(RequestValue::ListSnapshots) => Ok(Request::ListSnapshots),
            Some(RequestValue::OfferSnapshot(x)) => match OfferSnapshot::try_from(x) {
                Ok(payload) => Ok(Request::OfferSnapshot(payload)),
                Err(error) => Err(error),
            },
            Some(RequestValue::LoadSnapshotChunk(x)) => match LoadSnapshotChunk::try_from(x) {
                Ok(payload) => Ok(Request::LoadSnapshotChunk(payload)),
                Err(error) => Err(error),
            },
            Some(RequestValue::ApplySnapshotChunk(x)) => match ApplySnapshotChunk::try_from(x) {
                Ok(payload) => Ok(Request::ApplySnapshotChunk(payload)),
                Err(error) => Err(error),
            },
            None => Err(DecodeError::MissingPayload),
        }
    }
}

impl TryFromSpecImpl<wire::Request> for Request {
    open spec fn obeys_try_from_spec() -> bool {
        true
    }

    open spec fn try_from_spec(record: wire::Request) -> Result<Self, DecodeError> {
        Request::decoded(record)
    }
}

/// The consensus category of ABCI requests.
#[derive(Clone, Debug, PartialEq, Eq)]
pub enum ConsensusRequest {
    /// Called on genesis to initialize chain state.
    InitChain(InitChain),
    /// Signals the beginning of a new block.
    BeginBlock(BeginBlock),
    /// Execute a transaction against the application state.
    DeliverTx(DeliverTx),
    /// Signals the end of a block.
    EndBlock(EndBlock),
    /// Signals the application that it can write the queued state
    /// transitions from the block to its state.
    Commit,
}

impl ConsensusRequest {
    /// The request that a consensus request is: the same variant around the same
    /// payload.
    pub open spec fn widened(self) -> Request {
        match self {
            ConsensusRequest::InitChain(x) => Request::InitChain(x),
            ConsensusRequest::BeginBlock(x) => Request::BeginBlock(x),
            ConsensusRequest::DeliverTx(x) => Request::DeliverTx(x),
            ConsensusRequest::EndBlock(x) => Request::EndBlock(x),
            ConsensusRequest::Commit => Request::Commit,
        }
    }

    /// The consensus request that a request is, if it is one.
    pub open spec fn narrowed(request: Request) -> Result<ConsensusRequest, WrongCategory> {
        match request {
            Request::InitChain(x) => Ok(ConsensusRequest::InitChain(x)),
            Request::BeginBlock(x) => Ok(ConsensusRequest::BeginBlock(x)),
            Request::DeliverTx(x) => Ok(ConsensusRequest::DeliverTx(x)),
            Request::EndBlock(x) => Ok(ConsensusRequest::EndBlock(x)),
            Request::Commit => Ok(ConsensusRequest::Commit),
            _ => Err(WrongCategory),
        }
    }
}

impl From<ConsensusRequest> for Request {
    /// Widens: the same variant and payload, as a request of any kind.
    fn from(request: ConsensusRequest) -> (widened: Self)
        ensures
            widened == request.widened(),
            widened.spec_kind() == MethodKind::Consensus,
    {
        match request {
            ConsensusRequest::InitChain(x) => Request::InitChain(x),
            ConsensusRequest::BeginBlock(x) => Request::BeginBlock(x),
            ConsensusRequest::DeliverTx(x) => Request::DeliverTx(x),
            ConsensusRequest::EndBlock(x) => Request::EndBlock(x),
            ConsensusRequest::Commit => Request::Commit,
        }
    }
}

impl FromSpecImpl<ConsensusRequest> for Request {
    open spec fn obeys_from_spec() -> bool {
        true
    }

    open spec fn from_spec(request: ConsensusRequest) -> Self {
        request.widened()
    }
}

impl TryFrom<Request> for ConsensusRequest {
    type Error = WrongCategory;

    /// Narrows: the same variant and payload, if the request is of this kind.
    fn try_from(request: Request) -> (narrowed: Result<Self, WrongCategory>)
        ensures
            narrowed == ConsensusRequest::narrowed(request),
            narrowed is Ok <==> request.spec_kind() == MethodKind::Consensus,
    {
        match request {
            Request::InitChain(x) => Ok(ConsensusRequest::InitChain(x)),
            Request::BeginBlock(x) => Ok(ConsensusRequest::BeginBlock(x)),
            Request::DeliverTx(x) => Ok(ConsensusRequest::DeliverTx(x)),
            Request::EndBlock(x) => Ok(ConsensusRequest::EndBlock(x)),
            Request::Commit => Ok(ConsensusRequest::Commit),
            _ => Err(WrongCategory),
        }
    }
}

impl TryFromSpecImpl<Request> for ConsensusRequest {
    open spec fn obeys_try_from_spec() -> bool {
        true
    }

    open spec fn try_from_spec(request: Request) -> Result<Self, WrongCategory> {
        ConsensusRequest::narrowed(request)
    }
}

/// The mempool category of ABCI requests.
#[derive(Clone, Debug, PartialEq, Eq)]
pub enum MempoolRequest {
    /// Check whether a transaction should be included in the mempool.
    CheckTx(CheckTx),
}

impl MempoolRequest {
    /// The request that a mempool request is: the same variant around the same
    /// payload.
    pub open spec fn widened(self) -> Request {
        match self {
            MempoolRequest::CheckTx(x) => Request::CheckTx(x),
        }
    }

    /// The mempool request that a request is, if it is one.
    pub open spec fn narrowed(request: Request) -> Result<MempoolRequest, WrongCategory> {
        match request {
            Request::CheckTx(x) => Ok(MempoolRequest::CheckTx(x)),
            _ => Err(WrongCategory),
        }
    }
}

impl From<MempoolRequest> for Request {
    /// Widens: the same variant and payload, as a request of any kind.
    fn from(request: MempoolRequest) -> (widened: Self)
        ensures
            widened == request.widened(),
            widened.spec_kind() == MethodKind::Mempool,
    {
        match request {
            MempoolRequest::CheckTx(x) => Request::CheckTx(x),
        }
    }
}

impl FromSpecImpl<MempoolRequest> for Request {
    open spec fn obeys_from_spec() -> bool {
        true
    }

    open spec fn from_spec(request: MempoolRequest) -> Self {
        request.widened()
    }
}

impl TryFrom<Request> for MempoolRequest {
    type Error = WrongCategory;

    /// Narrows: the same variant and payload, if the request is of this kind.
    fn try_from(request: Request) -> (narrowed: Result<Self, WrongCategory>)
        ensures
            narrowed == MempoolRequest::narrowed(request),
            narrowed is Ok <==> request.spec_kind() == MethodKind::Mempool,
    {
        match request {
            Request::CheckTx(x) => Ok(MempoolRequest::CheckTx(x)),
            _ => Err(WrongCategory),
        }
    }
}

impl TryFromSpecImpl<Request> for MempoolRequest {
    open spec fn obeys_try_from_spec() -> bool {
        true
    }

    open spec fn try_from_spec(request: Request) -> Result<Self, WrongCategory> {
        MempoolRequest::narrowed(request)
    }
}

/// The info category of ABCI requests.
#[derive(Clone, Debug, PartialEq, Eq)]
pub enum InfoRequest {
    /// Requests information about the application state.
    Info(Info),
    /// Queries for data from the application at current or past height.
    Query(Query),
    /// Echoes a string to test an ABCI implementation.
    Echo(Echo),
}

impl InfoRequest {
    /// The request that a info request is: the same variant around the same
    /// payload.
    pub open spec fn widened(self) -> Request {
        match self {
            InfoRequest::Info(x) => Request::Info(x),
            InfoRequest::Query(x) => Request::Query(x),
            InfoRequest::Echo(x) => Request::Echo(x),
        }
    }

    /// The info request that a request is, if it is one.
    pub open spec fn narrowed(request: Request) -> Result<InfoRequest, WrongCategory> {
        match request {
            Request::Info(x) => Ok(InfoRequest::Info(x)),
            Request::Query(x) => Ok(InfoRequest::Query(x)),
            Request::Echo(x) => Ok(InfoRequest::Echo(x)),
            _ => Err(WrongCategory),
        }
    }
}

impl From<InfoRequest> for Request {
    /// Widens: the same variant and payload, as a request of any kind.
    fn from(request: InfoRequest) -> (widened: Self)
        ensures
            widened == request.widened(),
            widened.spec_kind() == MethodKind::Info,
    {
        match request {
            InfoRequest::Info(x) => Request::Info(x),
            InfoRequest::Query(x) => Request::Query(x),
            InfoRequest::Echo(x) => Request::Echo(x),
        }
    }
}

impl FromSpecImpl<InfoRequest> for Request {
    open spec fn obeys_from_spec() -> bool {
        true
    }

    open spec fn from_spec(request: InfoRequest) -> Self {
        request.widened()
    }
}

impl TryFrom<Request> for InfoRequest {
    type Error = WrongCategory;

    /// Narrows: the same variant and payload, if the request is of this kind.
    fn try_from(request: Request) -> (narrowed: Result<Self, WrongCategory>)
        ensures
            narrowed == InfoRequest::narrowed(request),
            narrowed is Ok <==> request.spec_kind() == MethodKind::Info,
    {
        match request {
            Request::Info(x) => Ok(InfoRequest::Info(x)),
            Request::Query(x) => Ok(InfoRequest::Query(x)),
            Request::Echo(x) => Ok(InfoRequest::Echo(x)),
            _ => Err(WrongCategory),
        }
    }
}

impl TryFromSpecImpl<Request> for InfoRequest {
    open spec fn obeys_try_from_spec() -> bool {
        true
    }

    open spec fn try_from_spec(request: Request) -> Result<Self, WrongCategory> {
        InfoRequest::narrowed(request)
    }
}

/// The snapshot category of ABCI requests.
#[derive(Clone, Debug, PartialEq, Eq)]
pub enum SnapshotRequest {
    /// Asks the application for a list of snapshots.
    ListSnapshots,
    /// Offers a snapshot to the application.
    OfferSnapshot(OfferSnapshot),
    /// Used during state sync to retrieve snapshot chunks from peers.
    LoadSnapshotChunk(LoadSnapshotChunk),
    /// Applies a snapshot chunk.
    ApplySnapshotChunk(ApplySnapshotChunk),
}

impl SnapshotRequest {
    /// The request that a snapshot request is: the same variant around the same
    /// payload.
    pub open spec fn widened(self) -> Request {
        match self {
            SnapshotRequest::ListSnapshots => Request::ListSnapshots,
            SnapshotRequest::OfferSnapshot(x) => Request::OfferSnapshot(x),
            SnapshotRequest::LoadSnapshotChunk(x) => Request::LoadSnapshotChunk(x),
            SnapshotRequest::ApplySnapshotChunk(x) => Request::ApplySnapshotChunk(x),
        }
    }

    /// The snapshot request that a request is, if it is one.
    pub open spec fn narrowed(request: Request) -> Result<SnapshotRequest, WrongCategory> {
        match request {
            Request::ListSnapshots => Ok(SnapshotRequest::ListSnapshots),
            Request::OfferSnapshot(x) => Ok(SnapshotRequest::OfferSnapshot(x)),
            Request::LoadSnapshotChunk(x) => Ok(SnapshotRequest::LoadSnapshotChunk(x)),
            Request::ApplySnapshotChunk(x) => Ok(SnapshotRequest::ApplySnapshotChunk(x)),
            _ => Err(WrongCategory),
        }
    }
}

impl From<SnapshotRequest> for Request {
    /// Widens: the same variant and payload, as a request of any kind.
    fn from(request: SnapshotRequest) -> (widened: Self)
        ensures
            widened == request.widened(),
            widened.spec_kind() == MethodKind::Snapshot,
    {
        match request {
            SnapshotRequest::ListSnapshots => Request::ListSnapshots,
            SnapshotRequest::OfferSnapshot(x) => Request::OfferSnapshot(x),
            SnapshotRequest::LoadSnapshotChunk(x) => Request::LoadSnapshotChunk(x),
            SnapshotRequest::ApplySnapshotChunk(x) => Request::ApplySnapshotChunk(x),
        }
    }
}

impl FromSpecImpl<SnapshotRequest> for Request {
    open spec fn obeys_from_spec() -> bool {
        true
    }

    open spec fn from_spec(request: SnapshotRequest) -> Self {
        request.widened()
    }
}

impl TryFrom<Request> for SnapshotRequest {
    type Error = WrongCategory;

    /// Narrows: the same variant and payload, if the request is of this kind.
    fn try_from(request: Request) -> (narrowed: Result<Self, WrongCategory>)
        ensures
            narrowed == SnapshotRequest::narrowed(request),
            narrowed is Ok <==> request.spec_kind() == MethodKind::Snapshot,
    {
        match request {
            Request::ListSnapshots => Ok(SnapshotRequest::ListSnapshots),
            Request::OfferSnapshot(x) => Ok(SnapshotRequest::OfferSnapshot(x)),
            Request::LoadSnapshotChunk(x) => Ok(SnapshotRequest::LoadSnapshotChunk(x)),
            Request::ApplySnapshotChunk(x) => Ok(SnapshotRequest::ApplySnapshotChunk(x)),
            _ => Err(WrongCategory),
        }
    }
}

impl TryFromSpecImpl<Request> for SnapshotRequest {
    open spec fn obeys_try_from_spec() -> bool {
        true
    }

    open spec fn try_from_spec(request: Request) -> Result<Self, WrongCategory> {
        SnapshotRequest::narrowed(request)
    }
}

impl Request {
    /// A request with valid heights survives the wire: decoding its record
    /// gives the request back.
    pub proof fn lemma_round_trip(self)
        requires
            self.is_valid(),
        ensures
            Request::decoded(self.encoded()) == Ok::<Request, DecodeError>(self),
    {
        match self {
            Request::Echo(x) => x.lemma_round_trip(),
            Request::Flush => {},
            Request::Info(x) => x.lemma_round_trip(),
            Request::InitChain(x) => x.lemma_round_trip(),
            Request::Query(x) => x.lemma_round_trip(),
            Request::BeginBlock(x) => x.lemma_round_trip(),
            Request::CheckTx(x) => x.lemma_round_trip(),
            Request::DeliverTx(x) => x.lemma_round_trip(),
            Request::EndBlock(x) => x.lemma_round_trip(),
            Request::Commit => {},
            Request::ListSnapshots => {},
            Request::OfferSnapshot(x) => x.lemma_round_trip(),
            Request::LoadSnapshotChunk(x) => x.lemma_round_trip(),
            Request::ApplySnapshotChunk(x) => x.lemma_round_trip(),
        }
    }

    /// A record fails for want of a payload exactly when its selector is
    /// empty: no payload reports that error of its own.
    pub proof fn lemma_missing_payload(record: wire::Request)
        ensures
            Request::decoded(record) == Err::<Request, DecodeError>(DecodeError::MissingPayload)
                <==> record.value is None,
    {
    }

    /// The kinds partition the requests. A request narrows to the enum of a
    /// kind exactly when it is of that kind, and widening what came out gives
    /// the request back; narrowing to the enum of any other kind fails. A
    /// flush belongs to no enum.
    pub proof fn lemma_kind_partition(self)
        ensures
            self.spec_kind() == MethodKind::Consensus <==> ConsensusRequest::narrowed(self) is Ok,
            self.spec_kind() == MethodKind::Mempool <==> MempoolRequest::narrowed(self) is Ok,
            self.spec_kind() == MethodKind::Info <==> InfoRequest::narrowed(self) is Ok,
            self.spec_kind() == MethodKind::Snapshot <==> SnapshotRequest::narrowed(self) is Ok,
            ConsensusRequest::narrowed(self) matches Ok(narrow) ==> narrow.widened() == self,
            MempoolRequest::narrowed(self) matches Ok(narrow) ==> narrow.widened() == self,
            InfoRequest::narrowed(self) matches Ok(narrow) ==> narrow.widened() == self,
            SnapshotRequest::narrowed(self) matches Ok(narrow) ==> narrow.widened() == self,
            self.spec_kind() != MethodKind::Consensus ==> ConsensusRequest::narrowed(self) is Err,
            self.spec_kind() != MethodKind::Mempool ==> MempoolRequest::narrowed(self) is Err,
            self.spec_kind() != MethodKind::Info ==> InfoRequest::narrowed(self) is Err,
            self.spec_kind() != MethodKind::Snapshot ==> SnapshotRequest::narrowed(self) is Err,
    {
    }
}

impl ConsensusRequest {
    /// Widening loses nothing: a consensus request widens to a request of the
    /// consensus kind, which narrows back to it.
    pub proof fn lemma_widen_narrow(self)
        ensures
            self.widened().spec_kind() == MethodKind::Consensus,
            ConsensusRequest::narrowed(self.widened()) == Ok::<ConsensusRequest, WrongCategory>(
                self,
            ),
    {
    }
}

impl MempoolRequest {
    /// Widening loses nothing: a mempool request widens to a request of the
    /// mempool kind, which narrows back to it.
    pub proof fn lemma_widen_narrow(self)
        ensures
            self.widened().spec_kind() == MethodKind::Mempool,
            MempoolRequest::narrowed(self.widened()) == Ok::<MempoolRequest, WrongCategory>(self),
    {
    }
}

impl InfoRequest {
    /// Widening loses nothing: an info request widens to a request of the
    /// info kind, which narrows back to it.
    pub proof fn lemma_widen_narrow(self)
        ensures
            self.widened().spec_kind() == MethodKind::Info,
            InfoRequest::narrowed(self.widened()) == Ok::<InfoRequest, WrongCategory>(self),
    {
    }
}

impl SnapshotRequest {
    /// Widening loses nothing: a snapshot request widens to a request of the
    /// snapshot kind, which narrows back to it.
    pub proof fn lemma_widen_narrow(self)
        ensures
            self.widened().spec_kind() == MethodKind::Snapshot,
            SnapshotRequest::narrowed(self.widened()) == Ok::<SnapshotRequest, WrongCategory>(self),
    {
    }
}

} // verus!
