//! Building canonical chunks: per-sample conversion and averaging of
//! interleaved channels into one.
use vstd::prelude::*;
use crate::convert::{from_u16, u16_to_i16};

verus! {

/// Sum of the samples of a sequence, in unbounded arithmetic.
pub open spec fn sum_of(s: Seq<i16>) -> int
    decreases s.len(),
{
    if s.len() == 0 {
        0
    } else {
        sum_of(s.drop_last()) + s.last() as int
    }
}

/// Division that truncates toward zero, as integer division does in Rust.
pub open spec fn trunc_div(a: int, d: int) -> int {
    if a >= 0 {
        a / d
    } else {
        -((-a) / d)
    }
}

/// The arithmetic mean of a frame, truncated toward zero.
pub open spec fn mean_of(frame: Seq<i16>) -> int {
    trunc_div(sum_of(frame), frame.len() as int)
}

/// One sample per whole frame of `c` interleaved channels, each the mean of its
/// frame; a trailing partial frame is left out.
pub open spec fn downmixed(samples: Seq<i16>, c: nat) -> Seq<i16> {
    Seq::new(
        samples.len() / c,
        |i: int| mean_of(samples.subrange(i * c, i * c + c)) as i16,
    )
}

/// The chunk made from converted samples: averaged to one channel when mono is
/// preferred and there is more than one channel, otherwise the samples as they are.
pub open spec fn canonical(samples: Seq<i16>, channels: nat, prefer_mono: bool) -> Seq<i16> {
    if prefer_mono && channels > 1 {
        downmixed(samples, channels)
    } else {
        samples
    }
}

/// Unsigned samples converted one by one to the signed representation.
pub open spec fn converted_u16(data: Seq<u16>) -> Seq<i16> {
    Seq::new(data.len(), |i: int| from_u16(data[i]))
}

proof fn lemma_sum_bounds(s: Seq<i16>)
    ensures
        -32768 * s.len() <= sum_of(s) <= 32767 * s.len(),
    decreases s.len(),
{
    if s.len() > 0 {
        lemma_sum_bounds(s.drop_last());
    }
}

proof fn lemma_mean_in_range(sum: int, n: int)
    requires
        n >= 1,
        -32768 * n <= sum <= 32767 * n,
    ensures
        -32768 <= trunc_div(sum, n) <= 32767,
{
    if sum >= 0 {
        assert(sum / n <= 32767) by (nonlinear_arith)
            requires
                n >= 1,
                0 <= sum <= 32767 * n,
        ;
        assert(sum / n >= 0) by (nonlinear_arith)
            requires
                n >= 1,
                0 <= sum,
        ;
    } else {
        assert((-sum) / n <= 32768) by (nonlinear_arith)
            requires
                n >= 1,
                0 < -sum <= 32768 * n,
        ;
        assert((-sum) / n >= 0) by (nonlinear_arith)
            requires
                n >= 1,
                0 < -sum,
        ;
    }
}

/// Mean of the `c` samples that start at `start`, with a 32-bit accumulator.
fn frame_mean(samples: &[i16], start: usize, c: usize) -> (r: i16)
    requires
        1 <= c <= 65535,
        start + c <= samples@.len(),
    ensures
        r as int == mean_of(samples@.subrange(start as int, start + c)),
{
    let len = samples.len();
    let mut acc: i32 = 0;
    let mut k: usize = 0;
    while k < c
        invariant
            len == samples@.len(),
            k <= c,
            1 <= c <= 65535,
            start + c <= samples@.len(),
            acc as int == sum_of(samples@.subrange(start as int, start + k)),
            -32768 * k <= acc <= 32767 * k,
        decreases c - k,
    {
        let s = samples[start + k];
        proof {
            let next = samples@.subrange(start as int, start + k + 1);
            assert(next.drop_last() =~= samples@.subrange(start as int, start + k));
            assert(-32768 * (k + 1) <= acc + s <= 32767 * (k + 1));
            assert(32767 * (k + 1) <= 32767 * 65535);
        }
        acc = acc + s as i32;
        k = k + 1;
    }
    let n = c as i32;
    proof {
        lemma_mean_in_range(acc as int, c as int);
    }
    let q: i32 = if acc >= 0 {
        acc / n
    } else {
        -((-acc) / n)
    };
    q as i16
}

/// Averages one interleaved frame into a single sample: the arithmetic mean of
/// its samples, truncated toward zero.
pub fn downmix_frame(frame: &[i16]) -> (r: i16)
    requires
        1 <= frame@.len() <= 65535,
    ensures
        r as int == mean_of(frame@),
{
    assert(frame@.subrange(0, frame@.len() as int) =~= frame@);
    frame_mean(frame, 0, frame.len())
}

/// Averages each whole frame of `channels` interleaved samples into one sample.
pub fn downmix(samples: &[i16], channels: u16) -> (r: Vec<i16>)
    requires
        channels >= 1,
    ensures
        r@ == downmixed(samples@, channels as nat),
{
    let c = channels as usize;
    let frames = samples.len() / c;
    let len = samples.len();
    let mut out: Vec<i16> = Vec::with_capacity(frames);
    let mut i: usize = 0;
    while i < frames
        invariant
            len == samples@.len(),
            c == channels as usize,
            c >= 1,
            frames == samples@.len() / (c as nat),
            i <= frames,
            out@.len() == i,
            forall|j: int|
                0 <= j < i ==> out@[j] == downmixed(samples@, channels as nat)[j],
        decreases frames - i,
    {
        proof {
            assert((i + 1) * c <= frames * c) by (nonlinear_arith)
                requires
                    i + 1 <= frames,
                    c >= 1,
            ;
            assert(frames * c <= samples@.len()) by (nonlinear_arith)
                requires
                    frames == samples@.len() / (c as nat),
                    c >= 1,
            ;
            assert((i + 1) * c == i * c + c) by (nonlinear_arith);
            assert(i * c + c <= samples@.len());
        }
        let m = frame_mean(samples, i * c, c);
        out.push(m);
        i = i + 1;
    }
    assert(out@ =~= downmixed(samples@, channels as nat));
    out
}

/// Builds the chunk that a capture callback hands on from converted samples:
/// averaged to mono when that is preferred and there is more than one channel,
/// otherwise a copy of the samples.
pub fn to_canonical(samples: &[i16], channels: u16, prefer_mono: bool) -> (r: Vec<i16>)
    requires
        channels >= 1,
    ensures
        r@ == canonical(samples@, channels as nat, prefer_mono),
        !prefer_mono || channels == 1 ==> r@ == samples@,
{
    if prefer_mono && channels > 1 {
        downmix(samples, channels)
    } else {
        let mut out: Vec<i16> = Vec::with_capacity(samples.len());
        let mut i: usize = 0;
        while i < samples.len()
            invariant
                i <= samples@.len(),
                out@ == samples@.subrange(0, i as int),
            decreases samples@.len() - i,
        {
            out.push(samples[i]);
            i = i + 1;
            assert(out@ =~= samples@.subrange(0, i as int));
        }
        assert(out@ =~= samples@);
        out
    }
}

/// Builds the chunk for a buffer of unsigned samples: each is converted to the
/// signed representation, then the channels are treated as `to_canonical` does.
pub fn u16_chunk(data: &[u16], channels: u16, prefer_mono: bool) -> (r: Vec<i16>)
    requires
        channels >= 1,
    ensures
        r@ == canonical(converted_u16(data@), channels as nat, prefer_mono),
{
    let mut conv: Vec<i16> = Vec::with_capacity(data.len());
    let mut i: usize = 0;
    while i < data.len()
        invariant
            i <= data@.len(),
            conv@ == converted_u16(data@).subrange(0, i as int),
        decreases data@.len() - i,
    {
        conv.push(u16_to_i16(data[i]));
        i = i + 1;
        assert(conv@ =~= converted_u16(data@).subrange(0, i as int));
    }
    assert(conv@ =~= converted_u16(data@));
    to_canonical(conv.as_slice(), channels, prefer_mono)
}

proof fn lemma_sum_of_copies(x: i16, n: nat)
    ensures
        sum_of(Seq::new(n, |i: int| x)) == n * x,
    decreases n,
{
    let s = Seq::new(n, |i: int| x);
    if n == 0 {
        assert(sum_of(s) == 0);
    } else {
        let m = (n - 1) as nat;
        assert(s.drop_last() =~= Seq::new(m, |i: int| x));
        assert(s.last() == x);
        lemma_sum_of_copies(x, m);
        assert(sum_of(s) == m * x + x);
        assert(n * x == m * x + x) by (nonlinear_arith)
            requires
                m == n - 1,
        ;
    }
    assert(Seq::new(n, |i: int| x) =~= s);
}

/// Averaging a frame whose channels all hold the same value gives that value exactly.
pub proof fn lemma_identical_channels(frame: Seq<i16>, x: i16)
    requires
        frame.len() >= 1,
        forall|i: int| 0 <= i < frame.len() ==> frame[i] == x,
    ensures
        mean_of(frame) == x,
{
    let n = frame.len();
    assert(frame =~= Seq::new(n, |i: int| x));
    lemma_sum_of_copies(x, n);
    let p = n * x;
    assert(sum_of(frame) == p);
    if x >= 0 {
        assert(p >= 0) by (nonlinear_arith)
            requires
                p == n * x,
                x >= 0,
        ;
        assert(p / (n as int) == x) by (nonlinear_arith)
            requires
                p == n * x,
                n >= 1,
        ;
    } else {
        assert((-p) / (n as int) == -x) by (nonlinear_arith)
            requires
                p == n * x,
                n >= 1,
                x < 0,
        ;
        assert(p < 0) by (nonlinear_arith)
            requires
                p == n * x,
                n >= 1,
                x < 0,
        ;
    }
}

/// With a single channel, or with downmixing off, a chunk holds exactly the
/// converted samples.
pub proof fn lemma_passthrough(samples: Seq<i16>, channels: nat, prefer_mono: bool)
    requires
        channels == 1 || !prefer_mono,
    ensures
        canonical(samples, channels, prefer_mono) == samples,
{
}

} // verus!
