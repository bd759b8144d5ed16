//! Snapshot restoration during state sync.
//!
//! A node that joins a chain may restore the application from a snapshot
//! instead of replaying every block. The engine offers a snapshot, the
//! application accepts it, and the engine has the chunks of the snapshot
//! applied one by one. The answers of the application steer the work: they
//! accept a chunk, ask for it again, ask for other chunks to be fetched
//! again, ban peers, restart the snapshot or give it up.
//!
//! The engine owns a restoration and does the work: it talks to peers and to
//! the application. This module holds the rules. A [`Restoration`] is a
//! value; [`Restoration::step`] takes what happened and returns the
//! restoration that follows, or refuses what cannot happen in the phase at
//! hand.

use vstd::prelude::*;
use bytes::Bytes;
use crate::block::Height;
use crate::buffer::{contents, same_bytes};
use crate::response::{ApplySnapshotChunk, ApplySnapshotChunkResult, Info, OfferSnapshot};

verus! {

/// Where a restoration stands.
#[derive(Clone, Copy, Debug, PartialEq, Eq, Hash, Structural)]
pub enum Phase {
    /// No snapshot was offered yet.
    NoSnapshot,
    /// A snapshot is on offer and the application has not answered.
    Offered,
    /// The application accepted the snapshot; chunks are being applied.
    Applying,
    /// Every chunk was accepted. What is left is to ask the application for
    /// its state and to compare it with the verified header.
    Completed,
    /// The application aborted. No other snapshot is offered.
    Aborted,
    /// The snapshot was given up; another one may be offered.
    AwaitingNewOffer,
}

/// What happened to a restoration.
#[derive(Clone, Debug, PartialEq, Eq)]
pub enum Input {
    /// The engine chose a snapshot of so many chunks and offered it.
    Offer { chunks: u32 },
    /// The application answered the offer.
    OfferAnswered(OfferSnapshot),
    /// The application answered the chunk that was due.
    ChunkAnswered(ApplySnapshotChunk),
    /// No suitable peer supplied the chunk that was due in time.
    ChunkTimedOut,
}

/// The state of a restoration, as a mathematical value.
pub struct RestorationView {
    /// The phase.
    pub phase: Phase,
    /// The number of chunks of the snapshot at hand.
    pub chunks: u32,
    /// The chunks below this index were accepted in the snapshot's own order.
    pub next: u32,
    /// The chunks to fetch again and reapply, in this order, before the
    /// chunk at `next` has its turn.
    pub refetch: Seq<u32>,
    /// The senders that were rejected so far, in the order of rejection.
    pub banned: Seq<Seq<char>>,
}

impl RestorationView {
    /// The state before anything happened.
    pub open spec fn initial() -> RestorationView {
        RestorationView {
            phase: Phase::NoSnapshot,
            chunks: 0,
            next: 0,
            refetch: Seq::empty(),
            banned: Seq::empty(),
        }
    }

    /// What holds of every state that a restoration reaches: no more chunks
    /// are accepted than the snapshot has; while chunks are applied, one is
    /// due; and the restoration is complete only with every chunk accepted
    /// and none left to reapply.
    pub open spec fn is_consistent(self) -> bool {
        &&& self.next <= self.chunks
        &&& self.phase == Phase::Applying ==> self.refetch.len() > 0 || self.next < self.chunks
        &&& self.phase == Phase::Completed ==> self.refetch.len() == 0 && self.next == self.chunks
    }

    /// The chunk that is due: while chunks are applied, the first of those to
    /// reapply, or else the next one in the snapshot's own order.
    pub open spec fn due(self) -> Option<u32> {
        if self.phase != Phase::Applying {
            None
        } else if self.refetch.len() > 0 {
            Some(self.refetch[0])
        } else {
            Some(self.next)
        }
    }

    /// The chunks that are applied if the application accepts each of them
    /// and asks for nothing more: the chunks to reapply in their order, then
    /// the rest of the snapshot in its own order. Empty unless chunks are
    /// applied.
    pub open spec fn schedule(self) -> Seq<u32> {
        if self.phase == Phase::Applying {
            self.refetch + Seq::new(
                (self.chunks - self.next) as nat,
                |offset: int| (self.next + offset) as u32,
            )
        } else {
            Seq::empty()
        }
    }

    /// Whether the input can happen in this state. A snapshot is offered when
    /// none is at hand, an offer is answered while it stands, and a chunk is
    /// answered or times out while chunks are applied. Nothing happens to a
    /// restoration that is complete or aborted.
    pub open spec fn accepts(self, input: Input) -> bool {
        match input {
            Input::Offer { .. } => {
                self.phase == Phase::NoSnapshot || self.phase == Phase::AwaitingNewOffer
            },
            Input::OfferAnswered(_) => self.phase == Phase::Offered,
            Input::ChunkAnswered(_) | Input::ChunkTimedOut => self.phase == Phase::Applying,
        }
    }

    /// The state without a snapshot at hand, in the given phase. The banned
    /// senders stay banned.
    pub open spec fn without_snapshot(self, phase: Phase) -> RestorationView {
        RestorationView { phase, chunks: 0, next: 0, refetch: Seq::empty(), banned: self.banned }
    }

    /// The state in which chunks are applied, or the complete one if no chunk
    /// is due any more.
    pub open spec fn applying(self) -> RestorationView {
        RestorationView {
            phase: if self.refetch.len() == 0 && self.next == self.chunks {
                Phase::Completed
            } else {
                Phase::Applying
            },
            ..self
        }
    }

    /// The state after a snapshot of so many chunks was offered.
    pub open spec fn after_offer(self, chunks: u32) -> RestorationView {
        RestorationView { phase: Phase::Offered, chunks, ..self.without_snapshot(Phase::Offered) }
    }

    /// The state after the application answered the offer. An acceptance
    /// starts the chunks; an abort, or an unknown answer, ends the
    /// restoration; any rejection gives the snapshot up.
    pub open spec fn after_offer_answer(self, answer: OfferSnapshot) -> RestorationView {
        match answer {
            OfferSnapshot::Accept => self.applying(),
            OfferSnapshot::Abort | OfferSnapshot::Unknown => self.without_snapshot(Phase::Aborted),
            OfferSnapshot::Reject
            | OfferSnapshot::RejectFormat
            | OfferSnapshot::RejectSender => self.without_snapshot(Phase::AwaitingNewOffer),
        }
    }

    /// The state after the application answered the chunk that was due.
    ///
    /// Whatever the result, the rejected senders are banned. Where the
    /// snapshot goes on, the chunks to refetch come first, in the order of
    /// the answer, before everything that was pending:
    /// - accepted: the chunk is done; the next one is due, or the
    ///   restoration is complete;
    /// - retry: the same chunk is due again;
    /// - retry snapshot: the same snapshot is on offer anew, with no chunk
    ///   accepted;
    /// - reject snapshot: the snapshot is given up;
    /// - abort, or unknown: the restoration ends.
    pub open spec fn after_chunk_answer(
        self,
        result: ApplySnapshotChunkResult,
        refetch_chunks: Seq<u32>,
        reject_senders: Seq<Seq<char>>,
    ) -> RestorationView {
        let banned = self.banned + reject_senders;
        match result {
            ApplySnapshotChunkResult::Accept => {
                if self.refetch.len() > 0 {
                    RestorationView {
                        refetch: refetch_chunks + self.refetch.drop_first(),
                        banned,
                        ..self
                    }.applying()
                } else {
                    RestorationView {
                        next: (self.next + 1) as u32,
                        refetch: refetch_chunks,
                        banned,
                        ..self
                    }.applying()
                }
            },
            ApplySnapshotChunkResult::Retry => RestorationView {
                refetch: refetch_chunks + self.refetch,
                banned,
                ..self
            },
            ApplySnapshotChunkResult::RetrySnapshot => RestorationView {
                phase: Phase::Offered,
                next: 0,
                refetch: refetch_chunks,
                banned,
                ..self
            },
            ApplySnapshotChunkResult::RejectSnapshot => RestorationView {
                banned,
                ..self
            }.without_snapshot(Phase::AwaitingNewOffer),
            ApplySnapshotChunkResult::Abort | ApplySnapshotChunkResult::Unknown => RestorationView {
                banned,
                ..self
            }.without_snapshot(Phase::Aborted),
        }
    }

    /// The state after an input that the state accepts.
    pub open spec fn after(self, input: Input) -> RestorationView {
        match input {
            Input::Offer { chunks } => self.after_offer(chunks),
            Input::OfferAnswered(answer) => self.after_offer_answer(answer),
            Input::ChunkAnswered(answer) => self.after_chunk_answer(
                answer.result,
                answer.refetch_chunks@,
                sender_names(answer.reject_senders@),
            ),
            Input::ChunkTimedOut => self.without_snapshot(Phase::AwaitingNewOffer),
        }
    }
}

/// The names of a list of senders.
pub open spec fn sender_names(senders: Seq<String>) -> Seq<Seq<char>> {
    senders.map_values(|sender: String| sender@)
}

/// A restoration of the application from a snapshot.
#[derive(Debug, PartialEq, Eq)]
pub struct Restoration {
    phase: Phase,
    chunks: u32,
    next: u32,
    refetch: Vec<u32>,
    banned: Vec<String>,
}

/// An input that cannot happen in the phase of the restoration.
#[derive(Debug, PartialEq, Eq)]
pub struct OutOfTurn {
    /// The restoration, as it was.
    pub state: Restoration,
}

impl View for Restoration {
    type V = RestorationView;

    closed spec fn view(&self) -> RestorationView {
        RestorationView {
            phase: self.phase,
            chunks: self.chunks,
            next: self.next,
            refetch: self.refetch@,
            banned: sender_names(self.banned@),
        }
    }
}

impl Restoration {
    #[verifier::type_invariant]
    spec fn consistent(self) -> bool {
        self@.is_consistent()
    }

    /// A restoration before anything happened.
    pub fn new() -> (restoration: Restoration)
        ensures
            restoration@ == RestorationView::initial(),
    {
        let restoration = Restoration {
            phase: Phase::NoSnapshot,
            chunks: 0,
            next: 0,
            refetch: Vec::new(),
            banned: Vec::new(),
        };
        assert(restoration@.banned =~= Seq::empty());
        restoration
    }

    /// Takes what happened and returns the restoration that follows. An
    /// input that cannot happen in the phase at hand is refused, and the
    /// restoration comes back as it was.
    pub fn step(self, input: Input) -> (outcome: Result<Restoration, OutOfTurn>)
        ensures
            outcome is Ok <==> self@.accepts(input),
            outcome matches Ok(next) ==> next@ == self@.after(input) && next@.is_consistent(),
            outcome matches Err(refusal) ==> refusal.state == self,
    {
        proof {
            use_type_invariant(&self);
        }
        match input {
            Input::Offer { chunks } => {
                match self.phase {
                    Phase::NoSnapshot | Phase::AwaitingNewOffer => {
                        let ghost before = self@;
                        let next = Restoration {
                            phase: Phase::Offered,
                            chunks,
                            next: 0,
                            refetch: Vec::new(),
                            banned: self.banned,
                        };
                        assert(next@ == before.after_offer(chunks));
                        Ok(next)
                    },
                    _ => Err(OutOfTurn { state: self }),
                }
            },
            Input::OfferAnswered(answer) => {
                match self.phase {
                    Phase::Offered => Ok(self.offer_answered(answer)),
                    _ => Err(OutOfTurn { state: self }),
                }
            },
            Input::ChunkAnswered(answer) => {
                match self.phase {
                    Phase::Applying => Ok(self.chunk_answered(answer)),
                    _ => Err(OutOfTurn { state: self }),
                }
            },
            Input::ChunkTimedOut => {
                match self.phase {
                    Phase::Applying => Ok(self.without_snapshot(Phase::AwaitingNewOffer)),
                    _ => Err(OutOfTurn { state: self }),
                }
            },
        }
    }

    /// The phase of the restoration.
    pub fn phase(&self) -> (phase: Phase)
        ensures
            phase == self@.phase,
    {
        self.phase
    }

    /// The index of the chunk that is due, while chunks are applied.
    pub fn due_chunk(&self) -> (due: Option<u32>)
        ensures
            due == self@.due(),
    {
        match self.phase {
            Phase::Applying => {
                if self.refetch.len() > 0 {
                    Some(self.refetch[0])
                } else {
                    Some(self.next)
                }
            },
            _ => None,
        }
    }

    /// The chunks that are to be fetched again, in the order in which they
    /// are due. A chunk that is due and not among them may come from what
    /// was fetched before.
    pub fn refetch_queue(&self) -> (queue: &Vec<u32>)
        ensures
            queue@ == self@.refetch,
    {
        &self.refetch
    }

    /// Whether a sender was rejected. Chunks and offers of such a sender are
    /// to be discarded.
    pub fn is_banned(&self, sender: &String) -> (banned: bool)
        ensures
            banned == self@.banned.contains(sender@),
    {
        let mut index: usize = 0;
        while index < self.banned.len()
            invariant
                index <= self.banned.len(),
                forall|i: int| 0 <= i < index ==> self.banned@[i]@ != sender@,
            decreases self.banned.len() - index,
        {
            if self.banned[index] == *sender {
                assert(self@.banned[index as int] == sender@);
                return true;
            }
            index += 1;
        }
        false
    }

    fn without_snapshot(self, phase: Phase) -> (next: Restoration)
        requires
            phase != Phase::Applying,
            phase != Phase::Completed,
        ensures
            next@ == self@.without_snapshot(phase),
            next@.is_consistent(),
    {
        Restoration { phase, chunks: 0, next: 0, refetch: Vec::new(), banned: self.banned }
    }

    /// The restoration of the given parts in which chunks are applied, or the
    /// complete one if no chunk is due any more.
    fn applying(chunks: u32, next: u32, refetch: Vec<u32>, banned: Vec<String>) -> (state:
        Restoration)
        requires
            next <= chunks,
        ensures
            state@ == (RestorationView {
                phase: Phase::Applying,
                chunks,
                next,
                refetch: refetch@,
                banned: sender_names(banned@),
            }).applying(),
            state@.is_consistent(),
    {
        let phase = if refetch.len() == 0 && next == chunks {
            Phase::Completed
        } else {
            Phase::Applying
        };
        Restoration { phase, chunks, next, refetch, banned }
    }

    fn offer_answered(self, answer: OfferSnapshot) -> (next: Restoration)
        requires
            self@.phase == Phase::Offered,
        ensures
            next@ == self@.after_offer_answer(answer),
            next@.is_consistent(),
    {
        proof {
            use_type_invariant(&self);
        }
        match answer {
            OfferSnapshot::Accept => {
                Restoration::applying(self.chunks, self.next, self.refetch, self.banned)
            },
            OfferSnapshot::Abort | OfferSnapshot::Unknown => self.without_snapshot(Phase::Aborted),
            OfferSnapshot::Reject | OfferSnapshot::RejectFormat | OfferSnapshot::RejectSender => {
                self.without_snapshot(Phase::AwaitingNewOffer)
            },
        }
    }

    fn chunk_answered(self, answer: ApplySnapshotChunk) -> (next: Restoration)
        requires
            self@.phase == Phase::Applying,
        ensures
            next@ == self@.after_chunk_answer(
                answer.result,
                answer.refetch_chunks@,
                sender_names(answer.reject_senders@),
            ),
            next@.is_consistent(),
    {
        proof {
            use_type_invariant(&self);
        }
        let ghost before = self@;
        let ghost names = sender_names(answer.reject_senders@);
        let Restoration { phase: _, chunks, next, refetch: mut pending, mut banned } = self;
        let result = answer.result;
        let mut refetch = answer.refetch_chunks;
        let mut senders = answer.reject_senders;
        let ghost wanted = refetch@;
        banned.append(&mut senders);
        assert(sender_names(banned@) =~= before.banned + names);
        match result {
            ApplySnapshotChunkResult::Accept => {
                if pending.len() > 0 {
                    pending.remove(0);
                    refetch.append(&mut pending);
                    assert(refetch@ =~= wanted + before.refetch.drop_first());
                    Restoration::applying(chunks, next, refetch, banned)
                } else {
                    assert(refetch@ =~= wanted);
                    Restoration::applying(chunks, next + 1, refetch, banned)
                }
            },
            ApplySnapshotChunkResult::Retry => {
                refetch.append(&mut pending);
                Restoration { phase: Phase::Applying, chunks, next, refetch, banned }
            },
            ApplySnapshotChunkResult::RetrySnapshot => {
                Restoration { phase: Phase::Offered, chunks, next: 0, refetch, banned }
            },
            ApplySnapshotChunkResult::RejectSnapshot => {
                Restoration {
                    phase: Phase::AwaitingNewOffer,
                    chunks: 0,
                    next: 0,
                    refetch: Vec::new(),
                    banned,
                }
            },
            ApplySnapshotChunkResult::Abort | ApplySnapshotChunkResult::Unknown => {
                Restoration {
                    phase: Phase::Aborted,
                    chunks: 0,
                    next: 0,
                    refetch: Vec::new(),
                    banned,
                }
            },
        }
    }
}

/// Whether the application stands where the verified header says it should.
///
/// When every chunk is accepted the engine asks the application for `Info`.
/// The restoration succeeded exactly if the application reports the expected
/// last block height and an app hash of the same bytes as the expected one.
/// If it does not, the node cannot go on: the failure is to be reported, not
/// retried.
pub fn matches_verified_state(info: &Info, height: Height, app_hash: &Bytes) -> (matches: bool)
    ensures
        matches == (info.last_block_height.spec_value() == height.spec_value() && contents(
            info.last_block_app_hash,
        ) == contents(*app_hash)),
{
    info.last_block_height.value() == height.value() && same_bytes(
        &info.last_block_app_hash,
        app_hash,
    )
}

impl RestorationView {
    /// Consistency is kept: from a consistent state, an input that the state
    /// accepts leads to a consistent state.
    pub proof fn lemma_stays_consistent(self, input: Input)
        requires
            self.is_consistent(),
            self.accepts(input),
        ensures
            self.after(input).is_consistent(),
    {
    }

    /// Chunks to refetch come first. Where the snapshot goes on after an
    /// answer, the new queue begins with the chunks of the answer, in the
    /// order of the answer, followed by what was pending. After an
    /// acceptance or a retry with such chunks, the first of them is due.
    pub proof fn lemma_refetch_comes_first(
        self,
        result: ApplySnapshotChunkResult,
        refetch_chunks: Seq<u32>,
        reject_senders: Seq<Seq<char>>,
    )
        requires
            self.is_consistent(),
            self.phase == Phase::Applying,
            result == ApplySnapshotChunkResult::Accept || result == ApplySnapshotChunkResult::Retry
                || result == ApplySnapshotChunkResult::RetrySnapshot,
        ensures
            ({
                let after = self.after_chunk_answer(result, refetch_chunks, reject_senders);
                &&& after.refetch.len() >= refetch_chunks.len()
                &&& after.refetch.subrange(0, refetch_chunks.len() as int) == refetch_chunks
                &&& result != ApplySnapshotChunkResult::RetrySnapshot && refetch_chunks.len() > 0
                    ==> after.due() == Some(refetch_chunks[0])
            }),
    {
        let after = self.after_chunk_answer(result, refetch_chunks, reject_senders);
        assert(after.refetch.subrange(0, refetch_chunks.len() as int) =~= refetch_chunks);
    }

    /// The queue is worked off in order, and the snapshot's own order waits
    /// for it. While chunks are pending, the first of them is due; accepting
    /// it without new requests leaves the rest pending, and no chunk of the
    /// snapshot's own order is accepted meanwhile.
    pub proof fn lemma_queue_in_order(self, reject_senders: Seq<Seq<char>>)
        requires
            self.is_consistent(),
            self.phase == Phase::Applying,
            self.refetch.len() > 0,
        ensures
            self.due() == Some(self.refetch[0]),
            ({
                let after = self.after_chunk_answer(
                    ApplySnapshotChunkResult::Accept,
                    Seq::empty(),
                    reject_senders,
                );
                &&& after.refetch == self.refetch.drop_first()
                &&& after.next == self.next
            }),
    {
        let after = self.after_chunk_answer(
            ApplySnapshotChunkResult::Accept,
            Seq::empty(),
            reject_senders,
        );
        assert(after.refetch =~= self.refetch.drop_first());
    }

    /// The schedule says what is due, and an answer rewrites it. While chunks
    /// are applied the first chunk of the schedule is due. An acceptance
    /// strikes that chunk, a retry keeps it, and either puts the chunks to
    /// refetch in front, in the order of the answer: they are applied before
    /// everything that was scheduled. The restoration is complete exactly
    /// when an acceptance leaves nothing scheduled.
    pub proof fn lemma_schedule(self, refetch_chunks: Seq<u32>, reject_senders: Seq<Seq<char>>)
        requires
            self.is_consistent(),
            self.phase == Phase::Applying,
        ensures
            self.schedule().len() > 0,
            self.due() == Some(self.schedule()[0]),
            ({
                let accepted = self.after_chunk_answer(
                    ApplySnapshotChunkResult::Accept,
                    refetch_chunks,
                    reject_senders,
                );
                let rest = refetch_chunks + self.schedule().drop_first();
                &&& accepted.phase == Phase::Completed <==> rest.len() == 0
                &&& accepted.phase == Phase::Applying <==> rest.len() > 0
                &&& accepted.schedule() == rest
            }),
            self.after_chunk_answer(
                ApplySnapshotChunkResult::Retry,
                refetch_chunks,
                reject_senders,
            ).schedule() == refetch_chunks + self.schedule(),
    {
        let accepted = self.after_chunk_answer(
            ApplySnapshotChunkResult::Accept,
            refetch_chunks,
            reject_senders,
        );
        let retried = self.after_chunk_answer(
            ApplySnapshotChunkResult::Retry,
            refetch_chunks,
            reject_senders,
        );
        assert(accepted.schedule() =~= refetch_chunks + self.schedule().drop_first());
        assert(retried.schedule() =~= refetch_chunks + self.schedule());
    }

    /// A retry asks for the same chunk: after a retry without chunks to
    /// refetch, the chunk that was due is due again.
    pub proof fn lemma_retry_repeats(self, reject_senders: Seq<Seq<char>>)
        requires
            self.is_consistent(),
            self.phase == Phase::Applying,
        ensures
            self.after_chunk_answer(
                ApplySnapshotChunkResult::Retry,
                Seq::empty(),
                reject_senders,
            ).due() == self.due(),
    {
        let after = self.after_chunk_answer(
            ApplySnapshotChunkResult::Retry,
            Seq::empty(),
            reject_senders,
        );
        assert(after.refetch =~= self.refetch);
    }

    /// Bans last. Whatever happens, the senders that were banned stay banned,
    /// and an answer to a chunk bans the senders it rejects, whatever its
    /// result.
    pub proof fn lemma_bans_last(self, input: Input, sender: Seq<char>)
        requires
            self.accepts(input),
        ensures
            self.banned.contains(sender) ==> self.after(input).banned.contains(sender),
            input matches Input::ChunkAnswered(answer) ==> self.after(input).banned == self.banned
                + sender_names(answer.reject_senders@),
            !(input is ChunkAnswered) ==> self.after(input).banned == self.banned,
    {
        if self.banned.contains(sender) {
            let i = choose|i: int| 0 <= i < self.banned.len() && self.banned[i] == sender;
            if let Input::ChunkAnswered(answer) = input {
                assert((self.banned + sender_names(answer.reject_senders@))[i] == sender);
            }
        }
    }

    /// A ban undoes nothing. The senders that an answer rejects change the
    /// banned senders and nothing else: the accepted chunks, the pending ones
    /// and the phase are what they would be had the answer rejected nobody.
    pub proof fn lemma_bans_undo_nothing(
        self,
        result: ApplySnapshotChunkResult,
        refetch_chunks: Seq<u32>,
        reject_senders: Seq<Seq<char>>,
    )
        ensures
            ({
                let with = self.after_chunk_answer(result, refetch_chunks, reject_senders);
                let without = self.after_chunk_answer(result, refetch_chunks, Seq::empty());
                &&& with.phase == without.phase
                &&& with.chunks == without.chunks
                &&& with.next == without.next
                &&& with.refetch == without.refetch
            }),
    {
    }

    /// An unknown result is an abort: both lead to the same state.
    pub proof fn lemma_unknown_is_abort(
        self,
        refetch_chunks: Seq<u32>,
        reject_senders: Seq<Seq<char>>,
    )
        ensures
            self.after_chunk_answer(
                ApplySnapshotChunkResult::Unknown,
                refetch_chunks,
                reject_senders,
            ) == self.after_chunk_answer(
                ApplySnapshotChunkResult::Abort,
                refetch_chunks,
                reject_senders,
            ),
            self.after_chunk_answer(
                ApplySnapshotChunkResult::Abort,
                refetch_chunks,
                reject_senders,
            ).phase == Phase::Aborted,
    {
    }

    /// A restoration that is complete or aborted has come to its end: it
    /// accepts no input. In particular no snapshot is offered after an
    /// abort.
    pub proof fn lemma_ends(self, input: Input)
        requires
            self.phase == Phase::Completed || self.phase == Phase::Aborted,
        ensures
            !self.accepts(input),
    {
    }
}

} // verus!
