//! The compression transform applied to tunneled payload.
//!
//! Mode `Off` leaves bytes unchanged.  Mode `Rle` run-length encodes them:
//! the stream becomes a sequence of `(count, byte)` pairs, each standing for
//! `count` (1 ..= 255) repetitions of `byte`, runs split greedily.  Decoding
//! rejects malformed input (an odd-length stream or a zero count).
//!
//! The law the forwarder relies on: decoding an encoding returns the
//! original bytes, for every input and either mode.

use vstd::prelude::*;
use crate::config::CompressAlgo;

verus! {

/// Length of the longest prefix of `s` consisting of the byte `b`.
pub open spec fn run_len(s: Seq<u8>, b: u8) -> nat
    decreases s.len(),
{
    if s.len() == 0 || s[0] != b {
        0
    } else {
        1 + run_len(s.drop_first(), b)
    }
}

/// How many bytes the encoder consumes next: the head run, capped at 255 so
/// the count fits one byte.
pub open spec fn head_run(s: Seq<u8>) -> nat
    recommends
        s.len() > 0,
{
    if run_len(s, s[0]) > 255 {
        255
    } else {
        run_len(s, s[0])
    }
}

/// The run-length encoding of `s`: greedy runs, one `(count, byte)` pair
/// each.
pub open spec fn rle_encode(s: Seq<u8>) -> Seq<u8>
    decreases s.len(),
    via rle_encode_decreases
{
    if s.len() == 0 {
        Seq::empty()
    } else {
        seq![head_run(s) as u8, s[0]] + rle_encode(s.skip(head_run(s) as int))
    }
}

#[via_fn]
proof fn rle_encode_decreases(s: Seq<u8>) {
    if s.len() > 0 {
        lemma_run_len_prefix(s, s[0]);
        assert(run_len(s, s[0]) >= 1);
        assert(s.skip(head_run(s) as int).len() < s.len());
    }
}

/// The run-length decoding of `s`: `None` on malformed input.
pub open spec fn rle_decode(s: Seq<u8>) -> Option<Seq<u8>>
    decreases s.len(),
{
    if s.len() == 0 {
        Some(Seq::empty())
    } else if s.len() == 1 || s[0] == 0 {
        None
    } else {
        match rle_decode(s.skip(2)) {
            Some(rest) => Some(Seq::new(s[0] as nat, |i: int| s[1]) + rest),
            None => None,
        }
    }
}

/// The head run is a prefix of equal bytes, and it is maximal.
pub proof fn lemma_run_len_prefix(s: Seq<u8>, b: u8)
    ensures
        run_len(s, b) <= s.len(),
        forall|i: int| 0 <= i < run_len(s, b) ==> s[i] == b,
        run_len(s, b) < s.len() ==> s[run_len(s, b) as int] != b,
    decreases s.len(),
{
    if s.len() == 0 || s[0] != b {
    } else {
        lemma_run_len_prefix(s.drop_first(), b);
        assert forall|i: int| 0 <= i < run_len(s, b) implies s[i] == b by {
            if i >= 1 {
                assert(s.drop_first()[i - 1] == s[i]);
            }
        }
        if run_len(s, b) < s.len() {
            assert(s.drop_first()[run_len(s, b) - 1] == s[run_len(s, b) as int]);
        }
    }
}

/// A scanned prefix of `n` equal bytes puts the run length at `n` or more.
pub proof fn lemma_run_len_at_least(s: Seq<u8>, b: u8, n: nat)
    requires
        n <= s.len(),
        forall|i: int| 0 <= i < n ==> s[i] == b,
    ensures
        run_len(s, b) >= n,
    decreases n,
{
    if n > 0 {
        assert(s[0] == b);
        assert forall|i: int| 0 <= i < n - 1 implies s.drop_first()[i] == b by {
            assert(s.drop_first()[i] == s[i + 1]);
        }
        lemma_run_len_at_least(s.drop_first(), b, (n - 1) as nat);
    }
}

/// A scan that stops at the end or at a different byte has found the exact
/// run length.
pub proof fn lemma_run_len_exact(s: Seq<u8>, b: u8, n: nat)
    requires
        n <= s.len(),
        forall|i: int| 0 <= i < n ==> s[i] == b,
        n == s.len() || s[n as int] != b,
    ensures
        run_len(s, b) == n,
{
    lemma_run_len_at_least(s, b, n);
    lemma_run_len_prefix(s, b);
    if run_len(s, b) > n {
        assert(s[n as int] == b);
    }
}

/// Decoding a run-length encoding gives the original bytes back, whatever
/// they were.
pub proof fn lemma_rle_round_trip(s: Seq<u8>)
    ensures
        rle_decode(rle_encode(s)) == Some(s),
    decreases s.len(),
{
    if s.len() == 0 {
        assert(rle_encode(s) =~= Seq::<u8>::empty());
        assert(Seq::<u8>::empty() =~= s);
    } else {
        lemma_run_len_prefix(s, s[0]);
        let h = head_run(s);
        assert(1 <= h <= 255);
        assert(h <= s.len());
        let e = rle_encode(s);
        let tail = rle_encode(s.skip(h as int));
        assert(e == seq![h as u8, s[0]] + tail);
        lemma_rle_round_trip(s.skip(h as int));
        assert(e.len() >= 2);
        assert(e[0] == h as u8);
        assert(e[1] == s[0]);
        assert(e[0] != 0);
        assert(e.skip(2) =~= tail);
        let repeated = Seq::new(e[0] as nat, |i: int| e[1]);
        assert(rle_decode(e) == Some(repeated + s.skip(h as int)));
        assert(repeated + s.skip(h as int) =~= s);
    }
}

/// Run-length encodes `input`.
pub fn rle_encode_bytes(input: &Vec<u8>) -> (out: Vec<u8>)
    ensures
        out@ == rle_encode(input@),
{
    broadcast use vstd::seq_lib::group_seq_properties;

    let mut out: Vec<u8> = Vec::new();
    let mut i: usize = 0;
    while i < input.len()
        invariant
            i <= input.len(),
            out@ + rle_encode(input@.skip(i as int)) == rle_encode(input@),
        decreases input.len() - i,
    {
        let b = input[i];
        let mut n: usize = 1;
        while i + n < input.len() && n < 255 && input[i + n] == b
            invariant
                i < input.len(),
                1 <= n <= 255,
                i + n <= input.len(),
                input@[i as int] == b,
                forall|k: int| 0 <= k < n ==> input@.skip(i as int)[k] == b,
            decreases input.len() - i - n,
        {
            n = n + 1;
        }
        proof {
            let rest = input@.skip(i as int);
            if n == 255 {
                lemma_run_len_at_least(rest, b, n as nat);
                assert(head_run(rest) == 255);
            } else {
                if i + n < input.len() {
                    assert(rest[n as int] == input@[i + n]);
                }
                lemma_run_len_exact(rest, b, n as nat);
                assert(head_run(rest) == n);
            }
            assert(rest[0] == b);
            assert(rle_encode(rest) == seq![n as u8, b] + rle_encode(rest.skip(n as int)));
            assert(rest.skip(n as int) =~= input@.skip(i as int + n as int));
        }
        out.push(n as u8);
        out.push(b);
        proof {
            assert(out@ + rle_encode(input@.skip(i as int + n as int)) =~= rle_encode(input@));
        }
        i = i + n;
    }
    proof {
        assert(input@.skip(input@.len() as int) =~= Seq::<u8>::empty());
        assert(out@ + Seq::<u8>::empty() =~= out@);
    }
    out
}

/// Run-length decodes `input`; `None` on malformed input.
pub fn rle_decode_bytes(input: &Vec<u8>) -> (r: Option<Vec<u8>>)
    ensures
        match r {
            Some(v) => rle_decode(input@) == Some(v@),
            None => rle_decode(input@) is None,
        },
{
    broadcast use vstd::seq_lib::group_seq_properties;

    let mut out: Vec<u8> = Vec::new();
    let mut i: usize = 0;
    while i < input.len()
        invariant
            i <= input.len(),
            match rle_decode(input@.skip(i as int)) {
                Some(t) => rle_decode(input@) == Some(out@ + t),
                None => rle_decode(input@) is None,
            },
        decreases input.len() - i,
    {
        let rest = Ghost(input@.skip(i as int));
        let cnt = input[i];
        if i + 1 == input.len() {
            proof {
                assert(rest@.len() == 1);
            }
            return None;
        }
        if cnt == 0 {
            proof {
                assert(rest@[0] == 0);
            }
            return None;
        }
        let b = input[i + 1];
        proof {
            assert(rest@[0] == cnt);
            assert(rest@[1] == b);
            assert(rest@.skip(2) =~= input@.skip(i as int + 2));
        }
        let base = Ghost(out@);
        let mut k: usize = 0;
        while k < cnt as usize
            invariant
                k <= cnt as usize,
                out@ == base@ + Seq::new(k as nat, |j: int| b),
            decreases cnt as usize - k,
        {
            out.push(b);
            proof {
                assert(base@ + Seq::new((k + 1) as nat, |j: int| b) =~= (base@ + Seq::new(
                    k as nat,
                    |j: int| b,
                )).push(b));
            }
            k = k + 1;
        }
        proof {
            match rle_decode(input@.skip(i as int + 2)) {
                Some(t) => {
                    assert(rle_decode(rest@) == Some(Seq::new(cnt as nat, |j: int| b) + t));
                    assert(out@ + t =~= base@ + (Seq::new(cnt as nat, |j: int| b) + t));
                },
                None => {},
            }
        }
        i = i + 2;
    }
    proof {
        assert(input@.skip(input@.len() as int) =~= Seq::<u8>::empty());
        assert(out@ + Seq::<u8>::empty() =~= out@);
    }
    Some(out)
}

/// What travels toward the QUIC side when `algo` is configured.
pub open spec fn spec_encode(algo: CompressAlgo, s: Seq<u8>) -> Seq<u8> {
    match algo {
        CompressAlgo::Off => s,
        CompressAlgo::Rle => rle_encode(s),
    }
}

/// What arrives from the QUIC side when `algo` is configured; `None` when
/// the transit bytes are not a valid encoding.
pub open spec fn spec_decode(algo: CompressAlgo, s: Seq<u8>) -> Option<Seq<u8>> {
    match algo {
        CompressAlgo::Off => Some(s),
        CompressAlgo::Rle => rle_decode(s),
    }
}

/// Encode-then-decode is the identity, for every byte sequence and either
/// compression mode: payload crosses the tunnel unaltered.
pub proof fn lemma_round_trip(algo: CompressAlgo, s: Seq<u8>)
    ensures
        spec_decode(algo, spec_encode(algo, s)) == Some(s),
{
    match algo {
        CompressAlgo::Off => {},
        CompressAlgo::Rle => {
            lemma_rle_round_trip(s);
        },
    }
}

/// Applies the configured encode transform to one direction's payload.
pub fn encode_payload(algo: CompressAlgo, input: &Vec<u8>) -> (out: Vec<u8>)
    ensures
        out@ == spec_encode(algo, input@),
{
    match algo {
        CompressAlgo::Off => {
            let mut out: Vec<u8> = Vec::new();
            let mut i: usize = 0;
            while i < input.len()
                invariant
                    i <= input.len(),
                    out@ == input@.take(i as int),
                decreases input.len() - i,
            {
                out.push(input[i]);
                proof {
                    assert(input@.take(i + 1 as int) =~= input@.take(i as int).push(
                        input@[i as int],
                    ));
                }
                i = i + 1;
            }
            proof {
                assert(input@.take(input@.len() as int) =~= input@);
            }
            out
        },
        CompressAlgo::Rle => rle_encode_bytes(input),
    }
}

/// Applies the configured decode transform to one direction's payload.
pub fn decode_payload(algo: CompressAlgo, input: &Vec<u8>) -> (r: Option<Vec<u8>>)
    ensures
        match r {
            Some(v) => spec_decode(algo, input@) == Some(v@),
            None => spec_decode(algo, input@) is None,
        },
{
    match algo {
        CompressAlgo::Off => {
            let mut out: Vec<u8> = Vec::new();
            let mut i: usize = 0;
            while i < input.len()
                invariant
                    i <= input.len(),
                    out@ == input@.take(i as int),
                decreases input.len() - i,
            {
                out.push(input[i]);
                proof {
                    assert(input@.take(i + 1 as int) =~= input@.take(i as int).push(
                        input@[i as int],
                    ));
                }
                i = i + 1;
            }
            proof {
                assert(input@.take(input@.len() as int) =~= input@);
            }
            Some(out)
        },
        CompressAlgo::Rle => rle_decode_bytes(input),
    }
}

} // verus!
