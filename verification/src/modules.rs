//! The inspection hook run on every chunk before it is forwarded: a
//! read-only heuristic that, for a chunk opening like a TLS ClientHello,
//! collects the printable runs of the record, a crude way of surfacing
//! whatever plaintext (such as a server name) the handshake carries.
//!
//! The hook never mutates, reorders or drops data: it works on its own copy
//! of the chunk and only reports what it saw.

use vstd::prelude::*;
use vstd::utf8::decode_utf8;
use crate::text::{lemma_ascii_bytes_valid_utf8, string_from_utf8};

verus! {

/// A byte in the printable ASCII range.
pub open spec fn is_printable(b: u8) -> bool {
    32 <= b <= 126
}

/// The printable runs the inspection reports, scanning `bytes` with the
/// partial run `cur` in hand: a printable byte extends the run; a
/// non-printable byte closes it, and the run is kept only when at least six
/// bytes long; a run still open at the end of the buffer is kept whatever
/// its length.
pub open spec fn plaintext_runs(bytes: Seq<u8>, cur: Seq<u8>) -> Seq<Seq<u8>>
    decreases bytes.len(),
{
    if bytes.len() == 0 {
        if cur.len() > 0 {
            seq![cur]
        } else {
            Seq::empty()
        }
    } else if is_printable(bytes.first()) {
        plaintext_runs(bytes.drop_first(), cur.push(bytes.first()))
    } else if cur.len() >= 6 {
        seq![cur] + plaintext_runs(bytes.drop_first(), Seq::empty())
    } else {
        plaintext_runs(bytes.drop_first(), Seq::empty())
    }
}

/// One inspection of one chunk: the chunk's bytes and the destination the
/// tunnel serves.
pub struct Modules {
    pub buffer: Vec<u8>,
    pub host: String,
    pub port: u16,
}

impl Modules {
    /// Captures a chunk (copied, so the forwarded bytes cannot be touched)
    /// together with the destination host and port.
    pub fn new(buffer: &[u8], host: String, port: u16) -> (r: Modules)
        ensures
            r.buffer@ == buffer@,
            r.host == host,
            r.port == port,
    {
        let mut copy: Vec<u8> = Vec::new();
        let mut i: usize = 0;
        while i < buffer.len()
            invariant
                i <= buffer@.len(),
                copy@ == buffer@.subrange(0, i as int),
            decreases buffer@.len() - i,
        {
            copy.push(buffer[i]);
            i = i + 1;
        }
        proof {
            assert(copy@ =~= buffer@);
        }
        Modules { buffer: copy, host, port }
    }

    /// True when the chunk opens with 0x16, the record type of a TLS
    /// handshake record such as a ClientHello.
    pub fn is_tls_client_hello(&self) -> (r: bool)
        ensures
            r == (self.buffer@.len() > 0 && self.buffer@[0] == 0x16),
    {
        self.buffer.len() > 0 && self.buffer[0] == 0x16
    }

    /// Collects the printable runs of the chunk, each decoded to a string.
    pub fn extract_plaintext(&self) -> (r: Vec<String>)
        ensures
            r@.len() == plaintext_runs(self.buffer@, Seq::empty()).len(),
            forall|k: int|
                0 <= k < r@.len() ==> r@[k]@ == decode_utf8(
                    #[trigger] plaintext_runs(self.buffer@, Seq::empty())[k],
                ),
    {
        let ghost full = self.buffer@;
        let ghost mut emitted: Seq<Seq<u8>> = Seq::empty();
        let mut result: Vec<String> = Vec::new();
        let mut cur: Vec<u8> = Vec::new();
        let mut i: usize = 0;
        proof {
            assert(full.skip(0) =~= full);
            assert(emitted + plaintext_runs(full, Seq::empty()) =~= plaintext_runs(
                full,
                Seq::empty(),
            ));
        }
        while i < self.buffer.len()
            invariant
                full == self.buffer@,
                i <= full.len(),
                result@.len() == emitted.len(),
                forall|k: int| 0 <= k < emitted.len() ==> result@[k]@ == decode_utf8(emitted[k]),
                forall|k: int| 0 <= k < cur@.len() ==> is_printable(#[trigger] cur@[k]),
                plaintext_runs(full, Seq::empty()) == emitted + plaintext_runs(
                    full.skip(i as int),
                    cur@,
                ),
            decreases full.len() - i,
        {
            let b = self.buffer[i];
            proof {
                assert(full.skip(i as int).first() == b);
                assert(full.skip(i as int).drop_first() =~= full.skip(i as int + 1));
            }
            if 32 <= b && b <= 126 {
                cur.push(b);
            } else if cur.len() >= 6 {
                let run = cur;
                cur = Vec::new();
                proof {
                    lemma_ascii_bytes_valid_utf8(run@);
                }
                let s = match string_from_utf8(run) {
                    Some(s) => s,
                    None => vstd::pervasive::unreached(),
                };
                result.push(s);
                proof {
                    assert((emitted + seq![run@]) + plaintext_runs(
                        full.skip(i as int + 1),
                        Seq::empty(),
                    ) =~= emitted + (seq![run@] + plaintext_runs(
                        full.skip(i as int + 1),
                        Seq::empty(),
                    )));
                    emitted = emitted.push(run@);
                }
            } else {
                cur = Vec::new();
            }
            i = i + 1;
        }
        proof {
            assert(full.skip(full.len() as int) =~= Seq::<u8>::empty());
        }
        if cur.len() > 0 {
            let run = cur;
            proof {
                lemma_ascii_bytes_valid_utf8(run@);
            }
            let s = match string_from_utf8(run) {
                Some(s) => s,
                None => vstd::pervasive::unreached(),
            };
            proof {
                assert(emitted + seq![run@] =~= emitted.push(run@));
                emitted = emitted.push(run@);
            }
            result.push(s);
        }
        proof {
            assert(plaintext_runs(full, Seq::empty()) =~= emitted);
        }
        result
    }
}

} // verus!
