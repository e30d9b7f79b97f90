//! One forwarding session: a local connection paired with a fresh QUIC
//! stream, bytes copied both ways with the configured compression.
//!
//! The runtime reads each side in chunks and hands the library everything a
//! side produced before end-of-stream.  The library drains those chunks —
//! all of them, regardless of when the opposite side ended — applies the
//! encode transform toward the QUIC side and the decode transform toward the
//! local side, and reports the directional byte counts on the shared
//! traffic counters.

use vstd::prelude::*;
use crate::codec::{decode_payload, encode_payload, spec_decode, spec_encode};
use crate::config::CompressAlgo;
use crate::errors::TunnelError;

verus! {

/// Direction of travel of tunneled bytes.
#[derive(Clone, Copy, Debug, PartialEq, Eq, Structural)]
pub enum Direction {
    /// From the local connection toward the tunnel peer.
    LocalToRemote,
    /// From the tunnel peer toward the local connection.
    RemoteToLocal,
}

/// Process-wide traffic totals, updated by every forwarding session and
/// read periodically by the stats reporter.  Totals saturate rather than
/// wrap.
#[derive(Clone, Copy, Debug, PartialEq, Eq, Structural)]
pub struct TrafficCounters {
    pub sent: u64,
    pub received: u64,
}

/// Addition that sticks at the counter's ceiling instead of wrapping.
pub open spec fn sat_add(a: u64, n: u64) -> u64 {
    if a + n <= u64::MAX {
        (a + n) as u64
    } else {
        u64::MAX
    }
}

impl TrafficCounters {
    /// Counters start at zero at process start.
    pub fn new() -> (c: TrafficCounters)
        ensures
            c.sent == 0,
            c.received == 0,
    {
        TrafficCounters { sent: 0, received: 0 }
    }

    /// Records `n` bytes moved in direction `d`.
    pub fn record(&mut self, d: Direction, n: u64)
        ensures
            d is LocalToRemote ==> final(self).sent == sat_add(old(self).sent, n)
                && final(self).received == old(self).received,
            d is RemoteToLocal ==> final(self).received == sat_add(old(self).received, n)
                && final(self).sent == old(self).sent,
    {
        match d {
            Direction::LocalToRemote => {
                self.sent = if self.sent <= u64::MAX - n {
                    self.sent + n
                } else {
                    u64::MAX
                };
            },
            Direction::RemoteToLocal => {
                self.received = if self.received <= u64::MAX - n {
                    self.received + n
                } else {
                    u64::MAX
                };
            },
        }
    }
}

/// The bytes of a sequence of read chunks, in order.
pub open spec fn concat_of(cs: Seq<Seq<u8>>) -> Seq<u8>
    decreases cs.len(),
{
    if cs.len() == 0 {
        Seq::empty()
    } else {
        concat_of(cs.drop_last()) + cs.last()
    }
}

/// The payload one side produced: its chunks, as the reads returned them.
pub open spec fn payload_of(chunks: Seq<Vec<u8>>) -> Seq<u8> {
    concat_of(chunks.map_values(|c: Vec<u8>| c@))
}

/// Drains a side's chunks into one contiguous payload.  Every chunk is
/// taken: bytes already read are never truncated away, however the other
/// side ended.
pub fn drain_chunks(chunks: &Vec<Vec<u8>>) -> (out: Vec<u8>)
    ensures
        out@ == payload_of(chunks@),
{
    let ghost views = chunks@.map_values(|c: Vec<u8>| c@);
    let mut out: Vec<u8> = Vec::new();
    let mut i: usize = 0;
    while i < chunks.len()
        invariant
            i <= chunks.len(),
            views == chunks@.map_values(|c: Vec<u8>| c@),
            out@ == concat_of(views.take(i as int)),
        decreases chunks.len() - i,
    {
        let ghost base = out@;
        let chunk = &chunks[i];
        let mut j: usize = 0;
        while j < chunk.len()
            invariant
                j <= chunk.len(),
                out@ == base + chunk@.take(j as int),
            decreases chunk.len() - j,
        {
            out.push(chunk[j]);
            proof {
                assert(base + chunk@.take(j + 1 as int) =~= (base + chunk@.take(j as int)).push(
                    chunk@[j as int],
                ));
            }
            j = j + 1;
        }
        proof {
            assert(chunk@.take(chunk@.len() as int) =~= chunk@);
            assert(views.take(i + 1 as int).drop_last() =~= views.take(i as int));
            assert(views.take(i + 1 as int).last() == views[i as int]);
            assert(out@ == concat_of(views.take(i + 1 as int)));
        }
        i = i + 1;
    }
    proof {
        assert(views.take(views.len() as int) =~= views);
    }
    out
}

/// The directional byte counts a session reports: bytes put on the QUIC
/// stream and bytes delivered to the local connection.
#[derive(Clone, Copy, Debug, PartialEq, Eq, Structural)]
pub struct SessionOutcome {
    pub local_to_remote: u64,
    pub remote_to_local: u64,
}

/// What a completed session hands back to the runtime.
pub struct SessionResult {
    /// Bytes to write to the QUIC stream: the local payload, encoded.
    pub to_remote: Vec<u8>,
    /// Bytes to write to the local connection: the QUIC payload, decoded.
    pub to_local: Vec<u8>,
    /// The directional byte counts, as also recorded on the counters.
    pub outcome: SessionOutcome,
}

/// Runs one forwarding session over everything both sides produced.
///
/// The local payload — all of it, drained even when the QUIC side reached
/// end-of-stream first — travels encoded toward the peer; the QUIC payload
/// travels decoded toward the local side.  A QUIC payload that is not a
/// valid encoding fails the session; the bytes already sent outward are
/// still counted.  Either way the counters are updated before returning.
pub fn run_session(
    algo: CompressAlgo,
    local_chunks: &Vec<Vec<u8>>,
    remote_chunks: &Vec<Vec<u8>>,
    counters: &mut TrafficCounters,
) -> (r: Result<SessionResult, TunnelError>)
    ensures
        ({
            let sent = spec_encode(algo, payload_of(local_chunks@));
            match spec_decode(algo, payload_of(remote_chunks@)) {
                Some(delivered) => {
                    &&& r is Ok
                    &&& r->Ok_0.to_remote@ == sent
                    &&& r->Ok_0.to_local@ == delivered
                    &&& r->Ok_0.outcome.local_to_remote == sent.len()
                    &&& r->Ok_0.outcome.remote_to_local == delivered.len()
                    &&& final(counters).sent == sat_add(old(counters).sent, sent.len() as u64)
                    &&& final(counters).received == sat_add(
                        old(counters).received,
                        delivered.len() as u64,
                    )
                },
                None => {
                    &&& r == Err::<SessionResult, TunnelError>(TunnelError::ForwardingFailed)
                    &&& final(counters).sent == sat_add(old(counters).sent, sent.len() as u64)
                    &&& final(counters).received == old(counters).received
                },
            }
        }),
{
    let local_payload = drain_chunks(local_chunks);
    let remote_payload = drain_chunks(remote_chunks);
    let to_remote = encode_payload(algo, &local_payload);
    let sent_count = to_remote.len() as u64;
    counters.record(Direction::LocalToRemote, sent_count);
    match decode_payload(algo, &remote_payload) {
        Some(to_local) => {
            let received_count = to_local.len() as u64;
            counters.record(Direction::RemoteToLocal, received_count);
            Ok(
                SessionResult {
                    to_remote,
                    to_local,
                    outcome: SessionOutcome {
                        local_to_remote: sent_count,
                        remote_to_local: received_count,
                    },
                },
            )
        },
        None => Err(TunnelError::ForwardingFailed),
    }
}

/// With compression off, forwarding is byte-identical in both directions:
/// the peer reads exactly what the local connection wrote, and the local
/// connection reads exactly what the peer wrote.
pub proof fn lemma_plain_forwarding_identity(local_payload: Seq<u8>, remote_payload: Seq<u8>)
    ensures
        spec_encode(CompressAlgo::Off, local_payload) == local_payload,
        spec_decode(CompressAlgo::Off, remote_payload) == Some(remote_payload),
{
}

} // verus!
