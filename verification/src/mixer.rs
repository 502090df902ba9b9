//! Mono mixing of interleaved multi-channel audio.
//!
//! An interleaved buffer holds one sample per channel for each frame, frame
//! after frame. Mixing reduces every frame to a single sample. How the
//! samples of one frame are combined (their average) is supplied by the
//! caller as a function on one frame; this module does the framing and the
//! silence path, in which the buffer is not looked at.

use vstd::prelude::*;
use vstd::slice::slice_subrange;

verus! {

/// Number of frames in an interleaved buffer of `len` samples. A trailing
/// frame that lacks some channels counts; without channels there is no frame.
pub open spec fn frame_count(len: nat, channels: nat) -> nat {
    if channels == 0 {
        0
    } else if len % channels == 0 {
        len / channels
    } else {
        len / channels + 1
    }
}

/// Where frame `i` ends in a buffer of `len` samples.
pub open spec fn frame_end(len: nat, channels: nat, i: int) -> int {
    if (i + 1) * channels <= len {
        (i + 1) * channels
    } else {
        len as int
    }
}

/// The samples of frame `i`.
pub open spec fn frame<T>(samples: Seq<T>, channels: nat, i: int) -> Seq<T> {
    samples.subrange(i * channels, frame_end(samples.len(), channels, i))
}

/// `out` is what `mix` may return for a frame that holds `samples`.
pub open spec fn may_mix<T, F: Fn(&[T]) -> T>(mix: F, samples: Seq<T>, out: T) -> bool {
    exists|f: &[T]| f@ == samples && #[trigger] call_ensures(mix, (f,), out)
}

/// `frames` samples of silence.
pub fn silence<T: Copy>(frames: usize, zero: T) -> (out: Vec<T>)
    ensures
        out@ == Seq::new(frames as nat, |i: int| zero),
{
    let mut out: Vec<T> = Vec::new();
    let mut i: usize = 0;
    while i < frames
        invariant
            i <= frames,
            out@ == Seq::new(i as nat, |j: int| zero),
        decreases frames - i,
    {
        out.push(zero);
        i += 1;
        assert(out@ =~= Seq::new(i as nat, |j: int| zero));
    }
    out
}

/// Reduces each frame of an interleaved buffer to one sample with `mix`.
pub fn mix_frames<T, F: Fn(&[T]) -> T>(samples: &[T], channels: usize, mix: F) -> (out: Vec<T>)
    requires
        forall|f: &[T]| 0 < f@.len() <= channels ==> call_requires(mix, (f,)),
    ensures
        out@.len() == frame_count(samples@.len(), channels as nat),
        forall|i: int|
            0 <= i < out@.len() ==> may_mix(
                mix,
                frame(samples@, channels as nat, i),
                #[trigger] out@[i],
            ),
{
    let mut out: Vec<T> = Vec::new();
    if channels == 0 {
        return out;
    }
    let len = samples.len();
    let full = len / channels;
    let ghost ch = channels as nat;
    proof {
        vstd::arithmetic::div_mod::lemma_fundamental_div_mod(len as int, channels as int);
        vstd::arithmetic::div_mod::lemma_mod_bound(len as int, channels as int);
        assert(channels * (len / channels) == (len / channels) * channels) by (nonlinear_arith);
    }
    let mut i: usize = 0;
    while i < full
        invariant
            i <= full,
            channels > 0,
            ch == channels,
            len == samples@.len(),
            full * channels <= len,
            forall|f: &[T]| 0 < f@.len() <= channels ==> call_requires(mix, (f,)),
            out@.len() == i,
            forall|j: int| 0 <= j < i ==> may_mix(mix, frame(samples@, ch, j), #[trigger] out@[j]),
        decreases full - i,
    {
        proof {
            assert((i + 1) * channels <= full * channels && (i + 1) * channels == i * channels
                + channels && 0 <= i * channels) by (nonlinear_arith)
                requires
                    0 <= i < full,
            ;
        }
        let start = i * channels;
        let one = slice_subrange(samples, start, start + channels);
        let ghost before = out@;
        let mixed = mix(one);
        out.push(mixed);
        proof {
            assert(one@ == frame(samples@, ch, i as int));
            assert forall|j: int| 0 <= j < i + 1 implies may_mix(
                mix,
                frame(samples@, ch, j),
                #[trigger] out@[j],
            ) by {
                if j < i {
                    assert(out@[j] == before[j]);
                }
            }
        }
        i += 1;
    }
    if len % channels != 0 {
        let start = full * channels;
        let one = slice_subrange(samples, start, len);
        let ghost before = out@;
        let mixed = mix(one);
        out.push(mixed);
        proof {
            assert((full + 1) * channels == full * channels + channels) by (nonlinear_arith);
            assert(one@ == frame(samples@, ch, full as int));
            assert forall|j: int| 0 <= j < full + 1 implies may_mix(
                mix,
                frame(samples@, ch, j),
                #[trigger] out@[j],
            ) by {
                if j < full {
                    assert(out@[j] == before[j]);
                }
            }
        }
    }
    out
}

/// The mono samples of one device buffer of `frames` frames.
///
/// Where the device marked the buffer as silent, every output is `zero`,
/// whatever the buffer holds: `samples` is not looked at. Otherwise each
/// frame of `samples` is reduced with `mix`.
pub fn mix_packet<T: Copy, F: Fn(&[T]) -> T>(
    samples: &[T],
    channels: usize,
    frames: usize,
    silent: bool,
    zero: T,
    mix: F,
) -> (out: Vec<T>)
    requires
        forall|f: &[T]| 0 < f@.len() <= channels ==> call_requires(mix, (f,)),
    ensures
        silent ==> out@ == Seq::new(frames as nat, |i: int| zero),
        !silent ==> out@.len() == frame_count(samples@.len(), channels as nat),
        !silent ==> forall|i: int|
            0 <= i < out@.len() ==> may_mix(
                mix,
                frame(samples@, channels as nat, i),
                #[trigger] out@[i],
            ),
{
    if silent {
        silence(frames, zero)
    } else {
        mix_frames(samples, channels, mix)
    }
}

/// Every frame lies within the buffer and holds at least one sample.
pub proof fn lemma_frame_bounds(len: nat, channels: nat, i: int)
    requires
        0 <= i < frame_count(len, channels),
    ensures
        0 <= i * channels < frame_end(len, channels, i) <= len,
        frame_end(len, channels, i) - i * channels <= channels,
{
    let q = len / channels;
    vstd::arithmetic::div_mod::lemma_fundamental_div_mod(len as int, channels as int);
    vstd::arithmetic::div_mod::lemma_mod_bound(len as int, channels as int);
    assert(channels * q == q * channels) by (nonlinear_arith);
    assert(0 <= i * channels && (i + 1) * channels == i * channels + channels) by (nonlinear_arith)
        requires
            0 <= i,
    ;
    if i < q {
        assert((i + 1) * channels <= q * channels) by (nonlinear_arith)
            requires
                i + 1 <= q,
        ;
    } else {
        assert(i * channels == q * channels);
    }
}

/// Mixing keeps a constant: where every channel holds the same value `v`
/// throughout and `mix` gives `v` for a frame of `v`s, as an average does
/// where it is exact, every mixed sample is `v`.
pub proof fn lemma_constant_stays<T, F: Fn(&[T]) -> T>(
    mix: F,
    samples: Seq<T>,
    channels: nat,
    v: T,
    out: Seq<T>,
)
    requires
        forall|k: int| 0 <= k < samples.len() ==> samples[k] == v,
        forall|f: &[T], r: T|
            f@.len() > 0 && (forall|k: int| 0 <= k < f@.len() ==> f@[k] == v) && call_ensures(
                mix,
                (f,),
                r,
            ) ==> r == v,
        out.len() == frame_count(samples.len(), channels),
        forall|i: int|
            0 <= i < out.len() ==> may_mix(mix, frame(samples, channels, i), #[trigger] out[i]),
    ensures
        forall|i: int| 0 <= i < out.len() ==> out[i] == v,
{
    assert forall|i: int| 0 <= i < out.len() implies out[i] == v by {
        lemma_frame_bounds(samples.len(), channels, i);
        assert(may_mix(mix, frame(samples, channels, i), out[i]));
        let f = choose|f: &[T]|
            f@ == frame(samples, channels, i) && #[trigger] call_ensures(mix, (f,), out[i]);
        assert(forall|k: int| 0 <= k < f@.len() ==> f@[k] == v);
    }
}

} // verus!
