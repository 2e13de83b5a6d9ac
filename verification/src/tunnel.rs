//! The per-chunk decision of a forwarding direction inside the tunnel, and
//! the statement that relaying is verbatim and in order.
//!
//! The two concurrent forwarding loops live outside this crate; each loop
//! hands every chunk it reads to `relay_step` and performs the action it
//! returns: write the bytes onward, or shut the direction down.

use vstd::prelude::*;

verus! {

/// What a forwarding direction does with one read: forward the chunk's
/// bytes onward, or stop because the peer reached end of stream.
#[derive(Debug)]
pub enum RelayAction {
    Forward(Vec<u8>),
    Shutdown,
}

/// Decides one relay step: a zero-length read ends the direction; any
/// other chunk is forwarded verbatim.
pub fn relay_step(chunk: Vec<u8>) -> (r: RelayAction)
    ensures
        chunk@.len() == 0 ==> r is Shutdown,
        chunk@.len() > 0 ==> (r matches RelayAction::Forward(data) && data@ == chunk@),
{
    if chunk.len() == 0 {
        RelayAction::Shutdown
    } else {
        RelayAction::Forward(chunk)
    }
}

/// The bytes one direction puts on the wire for a sequence of reads:
/// chunks are forwarded unmodified and in order until the first zero-length
/// read, which ends the direction.
pub open spec fn relayed_bytes(chunks: Seq<Seq<u8>>) -> Seq<u8>
    decreases chunks.len(),
{
    if chunks.len() == 0 {
        Seq::empty()
    } else if chunks.first().len() == 0 {
        Seq::empty()
    } else {
        chunks.first() + relayed_bytes(chunks.drop_first())
    }
}

/// Verbatim, in-order forwarding: while no read reports end of stream, the
/// bytes a direction relays are exactly the concatenation of the chunks it
/// read, nothing reordered, nothing altered.
pub proof fn lemma_relay_verbatim(chunks: Seq<Seq<u8>>)
    requires
        forall|i: int| 0 <= i < chunks.len() ==> #[trigger] chunks[i].len() > 0,
    ensures
        relayed_bytes(chunks) == chunks.flatten(),
    decreases chunks.len(),
{
    if chunks.len() == 0 {
    } else {
        assert(chunks.first() == chunks[0]);
        assert(forall|i: int|
            0 <= i < chunks.drop_first().len() ==> #[trigger] chunks.drop_first()[i].len() > 0) by {
            assert(forall|i: int|
                0 <= i < chunks.drop_first().len() ==> chunks.drop_first()[i] == #[trigger] chunks[
                    i + 1
                ]);
        }
        lemma_relay_verbatim(chunks.drop_first());
    }
}

} // verus!
