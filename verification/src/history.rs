//! Mathematical model of the two byte histories a session accumulates:
//! which Binary messages a sequence of TCP reads gives rise to, and which
//! byte stream a sequence of Binary payloads delivers to the TCP peer.

use vstd::prelude::*;

verus! {

/// The Binary messages the upstream copier forwards for a sequence of TCP
/// reads: one message per read, carrying exactly that read's bytes, in read
/// order; a read that delivered no bytes produces no message.
pub open spec fn forwarded_messages(reads: Seq<Seq<u8>>) -> Seq<Seq<u8>>
    decreases reads.len(),
{
    if reads.len() == 0 {
        Seq::empty()
    } else {
        let rest = forwarded_messages(reads.drop_last());
        if reads.last().len() > 0 {
            rest.push(reads.last())
        } else {
            rest
        }
    }
}

/// The byte stream the downstream copier owes the TCP peer for a sequence
/// of Binary payloads: their concatenation, in message order.
pub open spec fn concat_payloads(msgs: Seq<Seq<u8>>) -> Seq<u8>
    decreases msgs.len(),
{
    if msgs.len() == 0 {
        Seq::empty()
    } else {
        concat_payloads(msgs.drop_last()) + msgs.last()
    }
}

/// One more read extends the forwarded messages by exactly that read's
/// bytes — or by nothing, when the read was empty.
pub proof fn lemma_forwarded_push(reads: Seq<Seq<u8>>, chunk: Seq<u8>)
    ensures
        chunk.len() > 0 ==> forwarded_messages(reads.push(chunk)) == forwarded_messages(
            reads,
        ).push(chunk),
        chunk.len() == 0 ==> forwarded_messages(reads.push(chunk)) == forwarded_messages(reads),
{
    assert(reads.push(chunk).drop_last() =~= reads);
    assert(reads.push(chunk).last() == chunk);
}

/// One more fully delivered payload extends the owed byte stream by exactly
/// that payload.
pub proof fn lemma_concat_push(msgs: Seq<Seq<u8>>, payload: Seq<u8>)
    ensures
        concat_payloads(msgs.push(payload)) == concat_payloads(msgs) + payload,
{
    assert(msgs.push(payload).drop_last() =~= msgs);
    assert(msgs.push(payload).last() == payload);
}

/// No merging and no splitting: when every read delivers at least one byte,
/// the forwarded messages are exactly the reads — the same number of
/// messages, in the same order, each carrying exactly its read's bytes.
pub proof fn lemma_forwarding_exact(reads: Seq<Seq<u8>>)
    requires
        forall|i: int| 0 <= i < reads.len() ==> reads[i].len() > 0,
    ensures
        forwarded_messages(reads) == reads,
    decreases reads.len(),
{
    if reads.len() > 0 {
        lemma_forwarding_exact(reads.drop_last());
        assert(forwarded_messages(reads) =~= reads);
    } else {
        assert(forwarded_messages(reads) =~= reads);
    }
}

/// The owed byte stream never loses a byte: its length is the sum of the
/// payload lengths.
pub proof fn lemma_concat_len(msgs: Seq<Seq<u8>>)
    ensures
        concat_payloads(msgs).len() == msgs.fold_left(0int, |acc: int, m: Seq<u8>| acc + m.len()),
    decreases msgs.len(),
{
    if msgs.len() > 0 {
        lemma_concat_len(msgs.drop_last());
    }
}

} // verus!
