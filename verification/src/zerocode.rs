//! Zerocoding: run-length compression of zero bytes.
//!
//! A run of zero bytes is written as pairs `(0, count)`; every other byte
//! stands for itself.  A pair stands for at most 255 zeros, so a longer run
//! takes several pairs, all but the last with count 255.

use vstd::prelude::*;
use crate::error::DecodeError;

verus! {

/// The longest run that one `(0, count)` pair can stand for.
pub const MAX_RUN: usize = 255;

/// `n` zero bytes.
pub open spec fn zeros(n: nat) -> Seq<u8> {
    Seq::new(n, |i: int| 0u8)
}

/// How many zero bytes stand at the front of `s`.
pub open spec fn leading_zeros(s: Seq<u8>) -> nat
    decreases s.len(),
{
    if s.len() > 0 && s[0] == 0 {
        1 + leading_zeros(s.skip(1))
    } else {
        0
    }
}

/// The count of the first pair written for a run of `run` zeros.
pub open spec fn first_chunk(run: nat) -> nat {
    if run <= MAX_RUN {
        run
    } else {
        MAX_RUN as nat
    }
}

/// The zerocoded form of `s`.
pub open spec fn spec_zero_encode(s: Seq<u8>) -> Seq<u8>
    decreases s.len(),
{
    if s.len() == 0 {
        Seq::empty()
    } else if s[0] != 0 {
        seq![s[0]] + spec_zero_encode(s.skip(1))
    } else {
        let n = first_chunk(leading_zeros(s));
        proof {
            lemma_leading_zeros_are_zero(s);
        }
        seq![0u8, n as u8] + spec_zero_encode(s.skip(n as int))
    }
}

/// `front` followed by `rest`, where `rest` may have failed.
pub open spec fn prepend(front: Seq<u8>, rest: Option<Seq<u8>>) -> Option<Seq<u8>> {
    match rest {
        Some(r) => Some(front + r),
        None => None,
    }
}

/// What a zerocoded buffer `s` expands to; `None` where a zero byte has no
/// count byte after it.
pub open spec fn spec_zero_decode(s: Seq<u8>) -> Option<Seq<u8>>
    decreases s.len(),
{
    if s.len() == 0 {
        Some(Seq::empty())
    } else if s[0] != 0 {
        prepend(seq![s[0]], spec_zero_decode(s.skip(1)))
    } else if s.len() == 1 {
        None
    } else {
        prepend(zeros(s[1] as nat), spec_zero_decode(s.skip(2)))
    }
}

/// The pairs that a run of `n` zeros is written as.
pub open spec fn zero_pairs(n: nat) -> Seq<u8>
    decreases n,
{
    if n == 0 {
        Seq::empty()
    } else if n <= MAX_RUN {
        seq![0u8, n as u8]
    } else {
        seq![0u8, 255u8] + zero_pairs((n - 255) as nat)
    }
}

/// A front of `k` zeros bounds `leading_zeros` from below, and fixes it where
/// the byte after the front is not zero or the sequence ends.
pub proof fn lemma_leading_zeros_front(s: Seq<u8>, k: nat)
    requires
        k <= s.len(),
        forall|j: int| 0 <= j < k ==> s[j] == 0,
    ensures
        leading_zeros(s) >= k,
        (k == s.len() || s[k as int] != 0) ==> leading_zeros(s) == k,
    decreases k,
{
    if k > 0 {
        let t = s.skip(1);
        assert forall|j: int| 0 <= j < k - 1 implies t[j] == 0 by {
            assert(t[j] == s[j + 1]);
        }
        lemma_leading_zeros_front(t, (k - 1) as nat);
    }
}

/// The first `leading_zeros(s)` bytes of `s` are there, and are zero.
pub proof fn lemma_leading_zeros_are_zero(s: Seq<u8>)
    ensures
        leading_zeros(s) <= s.len(),
        forall|j: int| 0 <= j < leading_zeros(s) ==> s[j] == 0,
    decreases s.len(),
{
    if s.len() > 0 && s[0] == 0 {
        let t = s.skip(1);
        lemma_leading_zeros_are_zero(t);
        assert forall|j: int| 0 <= j < leading_zeros(s) implies s[j] == 0 by {
            if j > 0 {
                assert(s[j] == t[j - 1]);
            }
        }
    }
}

/// Zerocodes `src`: each run of zero bytes becomes `(0, count)` pairs, split
/// so that no count passes 255; other bytes are copied.
pub fn zero_encode(src: &[u8]) -> (dest: Vec<u8>)
    ensures
        dest@ == spec_zero_encode(src@),
{
    let mut dest: Vec<u8> = Vec::new();
    let mut i: usize = 0;
    assert(src@.skip(0) =~= src@);
    while i < src.len()
        invariant
            i <= src.len(),
            spec_zero_encode(src@) == dest@ + spec_zero_encode(src@.skip(i as int)),
        decreases src.len() - i,
    {
        let ghost rest = src@.skip(i as int);
        if src[i] == 0 {
            let mut count: usize = 1;
            while count < MAX_RUN && i + count < src.len() && src[i + count] == 0
                invariant
                    1 <= count <= MAX_RUN,
                    i + count <= src.len(),
                    rest == src@.skip(i as int),
                    forall|j: int| 0 <= j < count ==> rest[j] == 0,
                decreases src.len() - i - count,
            {
                count += 1;
            }
            proof {
                lemma_leading_zeros_front(rest, count as nat);
                assert(rest.skip(count as int) =~= src@.skip(i + count));
            }
            dest.push(0);
            dest.push(count as u8);
            i += count;
        } else {
            proof {
                assert(rest.skip(1) =~= src@.skip(i + 1));
            }
            dest.push(src[i]);
            i += 1;
        }
    }
    dest
}

/// Expands a zerocoded buffer: each `(0, count)` pair becomes `count` zero
/// bytes, other bytes are copied.  Fails where the buffer ends on a zero byte
/// that no count follows.
pub fn zero_decode(bytes: &[u8]) -> (r: Result<Vec<u8>, DecodeError>)
    ensures
        match r {
            Ok(v) => spec_zero_decode(bytes@) == Some(v@),
            Err(e) => spec_zero_decode(bytes@) is None && e == DecodeError::DanglingZero,
        },
{
    let mut dest: Vec<u8> = Vec::new();
    let mut i: usize = 0;
    assert(bytes@.skip(0) =~= bytes@);
    assert(spec_zero_decode(bytes@) == prepend(dest@, spec_zero_decode(bytes@))) by {
        if let Some(r) = spec_zero_decode(bytes@) {
            assert(dest@ + r =~= r);
        }
    }
    while i < bytes.len()
        invariant
            i <= bytes.len(),
            spec_zero_decode(bytes@) == prepend(dest@, spec_zero_decode(bytes@.skip(i as int))),
        decreases bytes.len() - i,
    {
        let ghost rest = bytes@.skip(i as int);
        let ghost before = dest@;
        let byte = bytes[i];
        if byte == 0 {
            if i + 1 >= bytes.len() {
                return Err(DecodeError::DanglingZero);
            }
            let count = bytes[i + 1];
            let mut k: u8 = 0;
            while k < count
                invariant
                    k <= count,
                    dest@ == before + zeros(k as nat),
                decreases count - k,
            {
                dest.push(0);
                k += 1;
            }
            proof {
                assert(rest.skip(2) =~= bytes@.skip(i + 2));
                if let Some(r) = spec_zero_decode(rest.skip(2)) {
                    assert(before + (zeros(count as nat) + r) =~= dest@ + r);
                }
            }
            i += 2;
        } else {
            dest.push(byte);
            proof {
                assert(rest.skip(1) =~= bytes@.skip(i + 1));
                if let Some(r) = spec_zero_decode(rest.skip(1)) {
                    assert(before + (seq![byte] + r) =~= dest@ + r);
                }
            }
            i += 1;
        }
    }
    Ok(dest)
}

/// Decoding undoes encoding: whatever the bytes, expanding their zerocoded
/// form gives them back.
pub proof fn lemma_decode_encode(b: Seq<u8>)
    ensures
        spec_zero_decode(spec_zero_encode(b)) == Some(b),
    decreases b.len(),
{
    if b.len() == 0 {
    } else if b[0] != 0 {
        let tail = spec_zero_encode(b.skip(1));
        let enc = seq![b[0]] + tail;
        lemma_decode_encode(b.skip(1));
        assert(enc.skip(1) =~= tail);
        assert(seq![b[0]] + b.skip(1) =~= b);
    } else {
        let n = first_chunk(leading_zeros(b));
        let tail = spec_zero_encode(b.skip(n as int));
        let enc = seq![0u8, n as u8] + tail;
        lemma_leading_zeros_are_zero(b);
        lemma_decode_encode(b.skip(n as int));
        assert(enc.skip(2) =~= tail);
        assert(zeros(n) + b.skip(n as int) =~= b);
    }
}

/// A buffer of `n` zero bytes is written as `zero_pairs(n)`: one pair for
/// each full 255 zeros, and one more for what is left, if anything is.
pub proof fn lemma_encode_zero_run(n: nat)
    ensures
        spec_zero_encode(zeros(n)) == zero_pairs(n),
        zero_pairs(n).len() == 2 * ((n + 254) / 255),
    decreases n,
{
    let z = zeros(n);
    if n > 0 {
        lemma_leading_zeros_front(z, n);
        let c = first_chunk(n);
        assert(z.skip(c as int) =~= zeros((n - c) as nat));
        lemma_encode_zero_run((n - c) as nat);
    }
}

} // verus!
