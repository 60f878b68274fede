use vstd::prelude::*;
use crate::codec::{decode_spec, lemma_round_trip, reason_encodes, DecodeError, Reason};
use crate::document::Document;
use crate::repository::{
    decode_batch, decode_failures, decoded_ok, encode_all, errors_view, records_view,
};

verus! {

/// Why a run stopped. Every variant ends the run.
#[derive(Debug, PartialEq)]
pub enum PipelineError {
    /// The fetch could not be issued or its cursor could not advance; the store
    /// was not touched.
    Connectivity(String),
    /// The delete failed; the store keeps what it held before the run.
    Clear(String),
    /// The bulk insert failed after the store was cleared: the store may be
    /// empty or partly filled. `not_applied` counts the records left out.
    Insert { not_applied: usize, cause: String },
}

/// Where a run stands.
#[derive(Debug, PartialEq)]
pub enum PipelineState {
    /// Nothing done yet.
    Start,
    /// The batch was read: the records to put back, and the documents that were
    /// skipped.
    Fetched { records: Vec<Reason>, skipped: Vec<DecodeError> },
    /// The store was cleared and `pending` records were sent back to it.
    Cleared { pending: usize },
    /// Done: the store holds the `count` records read at the start.
    Reinserted { count: usize },
    /// Stopped.
    Failed(PipelineError),
}

/// What the driver reports back after carrying out an action.
#[derive(Debug, PartialEq)]
pub enum Event {
    Begin,
    FetchSucceeded(Vec<Document>),
    FetchFailed(String),
    ClearSucceeded,
    ClearFailed(String),
    InsertSucceeded,
    /// `applied` documents of the batch reached the store before it failed.
    InsertFailed { applied: usize, cause: String },
}

/// What the driver is asked to do next.
#[derive(Debug, PartialEq)]
pub enum Action {
    /// Read every document of the collection.
    FetchAll,
    /// Delete every document of the collection.
    ClearAll,
    /// Insert these documents, in order.
    InsertAll(Vec<Document>),
    /// The run is over; its result is in the state.
    Finish,
    /// The event does not apply in this state: nothing to do.
    Idle,
}

/// The documents of `docs` are the stored forms of `records`, one for one.
pub open spec fn encodes_all(docs: Seq<Document>, records: Seq<Reason>) -> bool {
    &&& docs.len() == records.len()
    &&& forall|i: int| 0 <= i < docs.len() ==> reason_encodes(#[trigger] docs[i], records[i]@)
}

/// Whether `event` is the one that `state` waits for.
pub open spec fn applies(state: PipelineState, event: Event) -> bool {
    match state {
        PipelineState::Start => event is Begin || event is FetchSucceeded || event is FetchFailed,
        PipelineState::Fetched { .. } => event is ClearSucceeded || event is ClearFailed,
        PipelineState::Cleared { .. } => event is InsertSucceeded || event is InsertFailed,
        _ => false,
    }
}

/// One step of a run: `s2` and `a` follow from `s1` on `e`.
pub open spec fn transition(s1: PipelineState, e: Event, s2: PipelineState, a: Action) -> bool {
    if !applies(s1, e) {
        s2 == s1 && if s1 is Reinserted || s1 is Failed {
            a is Finish
        } else {
            a is Idle
        }
    } else {
        match e {
            Event::Begin => s2 is Start && a is FetchAll,
            Event::FetchSucceeded(docs) => {
                &&& a is ClearAll
                &&& s2 is Fetched
                &&& records_view(s2->records@) == decoded_ok(docs@)
                &&& errors_view(s2->skipped@) == decode_failures(docs@)
            },
            Event::FetchFailed(c) => s2 == PipelineState::Failed(PipelineError::Connectivity(c))
                && a is Finish,
            Event::ClearSucceeded => {
                let records = s1->records@;
                if records.len() == 0 {
                    s2 == PipelineState::Reinserted { count: 0 } && a is Finish
                } else {
                    &&& s2 == PipelineState::Cleared { pending: records.len() as usize }
                    &&& a is InsertAll
                    &&& encodes_all(a->InsertAll_0@, records)
                }
            },
            Event::ClearFailed(c) => s2 == PipelineState::Failed(PipelineError::Clear(c)) && a is Finish,
            Event::InsertSucceeded => s2 == PipelineState::Reinserted { count: s1->pending }
                && a is Finish,
            Event::InsertFailed { applied, cause } => {
                let pending = s1->pending;
                &&& s2 == PipelineState::Failed(
                    PipelineError::Insert {
                        not_applied: if applied <= pending {
                            (pending - applied) as usize
                        } else {
                            0
                        },
                        cause,
                    },
                )
                &&& a is Finish
            },
        }
    }
}

/// Advances a run by one event: fetch, then clear, then reinsert what the fetch
/// decoded. An empty batch is not sent to the store.
pub fn step(state: PipelineState, event: Event) -> (r: (PipelineState, Action))
    ensures
        transition(state, event, r.0, r.1),
{
    match state {
        PipelineState::Start => match event {
            Event::Begin => (PipelineState::Start, Action::FetchAll),
            Event::FetchSucceeded(docs) => {
                let out = decode_batch(&docs);
                (
                    PipelineState::Fetched { records: out.records, skipped: out.errors },
                    Action::ClearAll,
                )
            },
            Event::FetchFailed(c) => (
                PipelineState::Failed(PipelineError::Connectivity(c)),
                Action::Finish,
            ),
            _ => (PipelineState::Start, Action::Idle),
        },
        PipelineState::Fetched { records, skipped } => match event {
            Event::ClearSucceeded => {
                if records.len() == 0 {
                    (PipelineState::Reinserted { count: 0 }, Action::Finish)
                } else {
                    let docs = encode_all(&records);
                    (PipelineState::Cleared { pending: records.len() }, Action::InsertAll(docs))
                }
            },
            Event::ClearFailed(c) => (PipelineState::Failed(PipelineError::Clear(c)), Action::Finish),
            _ => (PipelineState::Fetched { records, skipped }, Action::Idle),
        },
        PipelineState::Cleared { pending } => match event {
            Event::InsertSucceeded => (PipelineState::Reinserted { count: pending }, Action::Finish),
            Event::InsertFailed { applied, cause } => {
                let not_applied = if applied <= pending {
                    pending - applied
                } else {
                    0
                };
                (
                    PipelineState::Failed(PipelineError::Insert { not_applied, cause }),
                    Action::Finish,
                )
            },
            _ => (PipelineState::Cleared { pending }, Action::Idle),
        },
        terminal => (terminal, Action::Finish),
    }
}


/// What the store holds once a clear has succeeded and the action that came with
/// it has been carried out.
pub open spec fn stored_after_clear(a: Action) -> Seq<Document> {
    match a {
        Action::InsertAll(docs) => docs@,
        _ => Seq::empty(),
    }
}

proof fn lemma_encoded_batch_decodes(docs: Seq<Document>, records: Seq<Reason>)
    requires
        encodes_all(docs, records),
    ensures
        decoded_ok(docs) == records_view(records),
        decode_failures(docs).len() == 0,
    decreases docs.len(),
{
    if docs.len() > 0 {
        let n = docs.len() - 1;
        assert(encodes_all(docs.drop_last(), records.drop_last())) by {
            assert forall|i: int| 0 <= i < n implies reason_encodes(
                #[trigger] docs.drop_last()[i],
                records.drop_last()[i]@,
            ) by {
                assert(reason_encodes(docs[i], records[i]@));
            }
        }
        lemma_encoded_batch_decodes(docs.drop_last(), records.drop_last());
        assert(reason_encodes(docs[n], records[n]@));
        lemma_round_trip(records[n], docs[n]);
        assert(records_view(records) =~= records_view(records.drop_last()).push(records[n]@));
    } else {
        assert(records_view(records) =~= Seq::empty());
    }
}

/// After a fetch and a clear that succeed, what the store holds once the insert
/// (if one is asked for) succeeds decodes, without a single failure, to exactly
/// the records that the fetch decoded: nothing that failed to decode, and nothing
/// that the fetch did not see.
pub proof fn lemma_replace_complete(
    raw: Vec<Document>,
    s1: PipelineState,
    a1: Action,
    s2: PipelineState,
    a2: Action,
)
    requires
        transition(PipelineState::Start, Event::FetchSucceeded(raw), s1, a1),
        transition(s1, Event::ClearSucceeded, s2, a2),
    ensures
        a1 is ClearAll,
        decoded_ok(stored_after_clear(a2)) == decoded_ok(raw@),
        decode_failures(stored_after_clear(a2)).len() == 0,
        a2 is InsertAll ==> s2 == (PipelineState::Cleared {
            pending: decoded_ok(raw@).len() as usize,
        }),
        a2 is Finish ==> s2 == (PipelineState::Reinserted { count: 0 }),
{
    let records = s1->records@;
    if records.len() == 0 {
        assert(decoded_ok(raw@) =~= Seq::empty());
        assert(decoded_ok(Seq::<Document>::empty()) =~= Seq::empty());
    } else {
        lemma_encoded_batch_decodes(a2->InsertAll_0@, records);
    }
}

/// A run whose fetch fails stops with a connectivity error and asks for nothing
/// more; at the start, no event but a successful fetch leads to a clear, and none
/// leads to an insert.
pub proof fn lemma_abort_before_mutate(e: Event, s1: PipelineState, a1: Action)
    requires
        transition(PipelineState::Start, e, s1, a1),
    ensures
        a1 is ClearAll ==> e is FetchSucceeded,
        !(a1 is InsertAll),
        e is FetchFailed ==> a1 is Finish && s1 is Failed && s1->Failed_0 is Connectivity,
{
}

/// A run that has stopped stays stopped and asks for nothing, whatever the event.
pub proof fn lemma_failed_is_terminal(s1: PipelineState, e: Event, s2: PipelineState, a: Action)
    requires
        s1 is Failed,
        transition(s1, e, s2, a),
    ensures
        s2 == s1,
        a is Finish,
{
}

/// On an empty collection a run succeeds after the clear with no insert at all.
pub proof fn lemma_empty_collection(
    raw: Vec<Document>,
    s1: PipelineState,
    a1: Action,
    s2: PipelineState,
    a2: Action,
)
    requires
        raw@.len() == 0,
        transition(PipelineState::Start, Event::FetchSucceeded(raw), s1, a1),
        transition(s1, Event::ClearSucceeded, s2, a2),
    ensures
        a1 is ClearAll,
        s2 == (PipelineState::Reinserted { count: 0 }),
        a2 is Finish,
{
    assert(records_view(s1->records@).len() == 0);
}

} // verus!
