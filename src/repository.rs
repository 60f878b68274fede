use vstd::prelude::*;
use crate::codec::{
    decode, decode_spec, encode, reason_encodes, DecodeError, DecodeFailure, Reason, ReasonModel,
};
use crate::document::Document;

verus! {

/// The records of a batch that decode, in batch order.
pub open spec fn decoded_ok(docs: Seq<Document>) -> Seq<ReasonModel>
    decreases docs.len(),
{
    if docs.len() == 0 {
        Seq::empty()
    } else {
        match decode_spec(docs.last()) {
            Ok(m) => decoded_ok(docs.drop_last()).push(m),
            Err(_) => decoded_ok(docs.drop_last()),
        }
    }
}

/// The failures of the documents of a batch that do not decode, in batch order.
pub open spec fn decode_failures(docs: Seq<Document>) -> Seq<DecodeFailure>
    decreases docs.len(),
{
    if docs.len() == 0 {
        Seq::empty()
    } else {
        match decode_spec(docs.last()) {
            Ok(_) => decode_failures(docs.drop_last()),
            Err(e) => decode_failures(docs.drop_last()).push(e),
        }
    }
}

/// How many documents of a batch are malformed.
pub open spec fn malformed_count(docs: Seq<Document>) -> nat
    decreases docs.len(),
{
    if docs.len() == 0 {
        0
    } else {
        malformed_count(docs.drop_last()) + if decode_spec(docs.last()) is Err {
            1nat
        } else {
            0nat
        }
    }
}

/// The models of a sequence of records.
pub open spec fn records_view(records: Seq<Reason>) -> Seq<ReasonModel> {
    records.map_values(|r: Reason| r@)
}

/// The models of a sequence of decode errors.
pub open spec fn errors_view(errors: Seq<DecodeError>) -> Seq<DecodeFailure> {
    errors.map_values(|e: DecodeError| e@)
}

/// What a fetch hands back: the records that decoded, and one error for each
/// document that did not, to be logged.
#[derive(Debug, PartialEq)]
pub struct FetchOutcome {
    pub records: Vec<Reason>,
    pub errors: Vec<DecodeError>,
}

/// Decodes a raw batch, skipping (and reporting) each malformed document; a
/// malformed document never fails the batch.
pub fn decode_batch(docs: &Vec<Document>) -> (out: FetchOutcome)
    ensures
        records_view(out.records@) == decoded_ok(docs@),
        errors_view(out.errors@) == decode_failures(docs@),
{
    let n = docs.len();
    let mut records: Vec<Reason> = Vec::new();
    let mut errors: Vec<DecodeError> = Vec::new();
    let mut i: usize = 0;
    assert(docs@.subrange(0, 0) =~= Seq::<Document>::empty());
    assert(records_view(records@) =~= Seq::<ReasonModel>::empty());
    assert(errors_view(errors@) =~= Seq::<DecodeFailure>::empty());
    while i < n
        invariant
            n == docs@.len(),
            i <= n,
            records_view(records@) == decoded_ok(docs@.subrange(0, i as int)),
            errors_view(errors@) == decode_failures(docs@.subrange(0, i as int)),
        decreases n - i,
    {
        let ghost prev_records = records@;
        let ghost prev_errors = errors@;
        assert(docs@.subrange(0, i + 1).drop_last() =~= docs@.subrange(0, i as int));
        assert(docs@.subrange(0, i + 1).last() == docs@[i as int]);
        match decode(&docs[i]) {
            Ok(r) => {
                records.push(r);
                assert(records_view(records@) =~= records_view(prev_records).push(r@));
            },
            Err(e) => {
                errors.push(e);
                assert(errors_view(errors@) =~= errors_view(prev_errors).push(e@));
            },
        }
        i = i + 1;
    }
    assert(docs@.subrange(0, n as int) =~= docs@);
    FetchOutcome { records, errors }
}

/// A batch of N documents of which K are malformed decodes to N - K records and
/// K errors.
pub proof fn lemma_tolerant_fetch(docs: Seq<Document>)
    ensures
        decoded_ok(docs).len() == docs.len() - malformed_count(docs),
        decode_failures(docs).len() == malformed_count(docs),
    decreases docs.len(),
{
    if docs.len() > 0 {
        lemma_tolerant_fetch(docs.drop_last());
    }
}

/// The stored forms of `records`, one for one, in order.
pub fn encode_all(records: &Vec<Reason>) -> (docs: Vec<Document>)
    ensures
        docs@.len() == records@.len(),
        forall|i: int| 0 <= i < docs@.len() ==> reason_encodes(#[trigger] docs@[i], records@[i]@),
{
    let n = records.len();
    let mut docs: Vec<Document> = Vec::new();
    let mut i: usize = 0;
    while i < n
        invariant
            n == records@.len(),
            i <= n,
            docs@.len() == i,
            forall|j: int| 0 <= j < i ==> reason_encodes(#[trigger] docs@[j], records@[j]@),
        decreases n - i,
    {
        docs.push(encode(&records[i]));
        i = i + 1;
    }
    docs
}

} // verus!
