//! The frame source's way from mono samples to outgoing chunks.
//!
//! Mono samples of each poll are accumulated. Whenever a whole chunk is
//! buffered it is drained, taken through the rate converter, and what the
//! converter returns for it is one outgoing chunk. Samples that fill no
//! chunk stay buffered for the next poll.

use vstd::prelude::*;
use crate::buffer::{SampleBuffer, blocks, chunk_views, remainder, lemma_blocks_append};
use crate::capture::CaptureSetup;
use crate::resample::{
    ConverterState, RateConverter, any_converted, converted_by, joined, lemma_after_all_concat,
    lemma_after_all_push, lemma_identity_keeps_nothing,
};

verus! {

/// `r` is what the converter in state `state` may return for `chunk`: the
/// chunk itself where the rates agree; else the converted blocks that are
/// then due, joined, or nothing where no block was converted.
pub open spec fn may_yield<T, F: Fn(Vec<T>) -> Option<Vec<T>>>(
    resample: F,
    state: ConverterState<T>,
    chunk: Seq<T>,
    r: Option<Vec<T>>,
) -> bool {
    if state.is_identity() {
        r is Some && r->0@ == chunk
    } else {
        exists|outs: Seq<Option<Vec<T>>>|
            {
                &&& #[trigger] converted_by(resample, state.due(chunk), outs)
                &&& r is Some <==> any_converted(outs)
                &&& r is Some ==> r->0@ == joined(outs)
            }
    }
}

/// `results` is what the converter, starting in `state`, may return for
/// `chunks` taken in one after another.
pub open spec fn relayed<T, F: Fn(Vec<T>) -> Option<Vec<T>>>(
    resample: F,
    state: ConverterState<T>,
    chunks: Seq<Seq<T>>,
    results: Seq<Option<Vec<T>>>,
) -> bool {
    &&& results.len() == chunks.len()
    &&& forall|j: int|
        0 <= j < chunks.len() ==> may_yield(
            resample,
            state.after_all(chunks.take(j)),
            chunks[j],
            #[trigger] results[j],
        )
}

/// The chunks among `results`, in order.
pub open spec fn delivered<T>(results: Seq<Option<Vec<T>>>) -> Seq<Seq<T>>
    decreases results.len(),
{
    if results.len() == 0 {
        Seq::empty()
    } else {
        match results.last() {
            Some(v) => delivered(results.drop_last()).push(v@),
            None => delivered(results.drop_last()),
        }
    }
}

/// A frame pipeline as plain values.
pub ghost struct PipelineState<T> {
    /// Mono samples that fill no chunk yet.
    pub buffered: Seq<T>,
    /// Number of samples per chunk.
    pub chunk_size: nat,
    /// The rate converter.
    pub converter: ConverterState<T>,
}

impl<T> PipelineState<T> {
    /// The chunks that are drained when `mono` is taken in.
    pub open spec fn drained(self, mono: Seq<T>) -> Seq<Seq<T>> {
        blocks(self.buffered + mono, self.chunk_size)
    }

    /// The state after `mono` has been taken in: the drained chunks have
    /// gone through the converter, the rest is buffered.
    pub open spec fn after_poll(self, mono: Seq<T>) -> Self {
        PipelineState {
            buffered: remainder(self.buffered + mono, self.chunk_size),
            chunk_size: self.chunk_size,
            converter: self.converter.after_all(self.drained(mono)),
        }
    }
}

/// Chunker and rate converter of one capture session.
pub struct FramePipeline<T> {
    chunker: SampleBuffer<T>,
    converter: RateConverter<T>,
}

impl<T> View for FramePipeline<T> {
    type V = PipelineState<T>;

    closed spec fn view(&self) -> PipelineState<T> {
        PipelineState {
            buffered: self.chunker@,
            chunk_size: self.chunker.block_size(),
            converter: self.converter@,
        }
    }
}

impl<T> FramePipeline<T> {
    /// Fewer samples than one chunk are buffered, and the converter is well
    /// formed.
    pub closed spec fn wf(&self) -> bool {
        self.chunker.wf() && self.converter.wf()
    }

    /// The pipeline for a capture setup, in front of a block converter that
    /// takes `block_frames` input frames per call.
    pub fn new(setup: &CaptureSetup, block_frames: usize) -> (r: Self)
        ensures
            r.wf(),
            r@ == (PipelineState::<T> {
                buffered: Seq::empty(),
                chunk_size: setup.chunk_size as nat,
                converter: ConverterState {
                    source_rate: setup.source_rate,
                    target_rate: setup.target_rate,
                    block_frames: block_frames as nat,
                    pending: Seq::empty(),
                },
            }),
    {
        FramePipeline {
            chunker: SampleBuffer::new(setup.chunk_size),
            converter: RateConverter::new(setup.source_rate, setup.target_rate, block_frames),
        }
    }

    /// Number of mono samples that fill no chunk yet.
    pub fn buffered_len(&self) -> (n: usize)
        ensures
            n == self@.buffered.len(),
    {
        self.chunker.len()
    }

    /// Takes in the mono samples of one device buffer and returns the
    /// chunks to send, in order.
    ///
    /// Every whole chunk that is then buffered is drained, oldest first, and
    /// taken through the rate converter. Where the rates agree the outgoing
    /// chunks are the drained chunks themselves. A chunk for which the
    /// converter returns nothing is not sent, and capture goes on.
    pub fn ingest<F: Fn(Vec<T>) -> Option<Vec<T>>>(&mut self, mono: Vec<T>, resample: &F) -> (out:
        Vec<Vec<T>>)
        requires
            old(self).wf(),
            forall|b: Vec<T>|
                b@.len() == old(self)@.converter.block_frames ==> call_requires(*resample, (b,)),
        ensures
            final(self).wf(),
            final(self)@ == old(self)@.after_poll(mono@),
            exists|results: Seq<Option<Vec<T>>>|
                {
                    &&& #[trigger] relayed(
                        *resample,
                        old(self)@.converter,
                        old(self)@.drained(mono@),
                        results,
                    )
                    &&& chunk_views(out@) == delivered(results)
                },
            old(self)@.converter.is_identity() ==> chunk_views(out@) == old(self)@.drained(mono@),
    {
        let ghost start = self.converter@;
        let ghost drained = blocks(self.chunker@ + mono@, self.chunker.block_size());
        let chunks = self.chunker.feed(mono);
        let mut out: Vec<Vec<T>> = Vec::new();
        let ghost results: Seq<Option<Vec<T>>> = Seq::empty();
        proof {
            assert(drained.take(0) =~= Seq::<Seq<T>>::empty());
            assert(chunk_views(out@) =~= Seq::<Seq<T>>::empty());
        }
        for chunk in it: chunks.into_iter()
            invariant
                self.chunker.wf(),
                self.chunker@ == remainder(
                    old(self).chunker@ + mono@,
                    old(self).chunker.block_size(),
                ),
                self.chunker.block_size() == old(self).chunker.block_size(),
                self.converter.wf(),
                start.block_frames == self.converter@.block_frames,
                forall|b: Vec<T>|
                    b@.len() == start.block_frames ==> call_requires(*resample, (b,)),
                it.seq().len() == drained.len(),
                forall|i: int| 0 <= i < drained.len() ==> (#[trigger] it.seq()[i])@ == drained[i],
                self.converter@ == start.after_all(drained.take(it.index() as int)),
                relayed(*resample, start, drained.take(it.index() as int), results),
                chunk_views(out@) == delivered(results),
                start.is_identity() ==> chunk_views(out@) == drained.take(it.index() as int),
        {
            let ghost done = it.index() as int;
            let ghost before = self.converter@;
            let ghost sent = out@;
            let ghost earlier = results;
            let converted = self.converter.convert(chunk, resample);
            proof {
                let now = drained.take(done + 1);
                lemma_after_all_push(start, drained.take(done), drained[done]);
                assert(now =~= drained.take(done).push(drained[done]));
                assert(may_yield(*resample, before, drained[done], converted));
                results = earlier.push(converted);
                assert(results.drop_last() =~= earlier);
                assert forall|j: int| 0 <= j < now.len() implies may_yield(
                    *resample,
                    start.after_all(now.take(j)),
                    now[j],
                    #[trigger] results[j],
                ) by {
                    assert(now.take(j) =~= drained.take(j));
                    if j < done {
                        assert(drained.take(done).take(j) =~= drained.take(j));
                        assert(results[j] == earlier[j]);
                    }
                }
            }
            match converted {
                Some(chunk_out) => {
                    out.push(chunk_out);
                    proof {
                        assert(chunk_views(out@) =~= chunk_views(sent).push(chunk_out@));
                        if start.is_identity() {
                            lemma_identity_keeps_nothing(start, drained.take(done));
                        }
                    }
                },
                None => {
                    proof {
                        if start.is_identity() {
                            lemma_identity_keeps_nothing(start, drained.take(done));
                        }
                    }
                },
            }
        }
        proof {
            assert(drained.take(drained.len() as int) =~= drained);
        }
        out
    }
}

/// The pipeline does not see where one poll ends and the next begins: two
/// device buffers taken in one after the other drain the same chunks, and
/// leave the pipeline in the same state, as the two taken in as one.
pub proof fn lemma_polls_do_not_show<T>(state: PipelineState<T>, a: Seq<T>, b: Seq<T>)
    ensures
        state.drained(a) + state.after_poll(a).drained(b) == state.drained(a + b),
        state.after_poll(a).after_poll(b) == state.after_poll(a + b),
{
    let n = state.chunk_size;
    let all = state.buffered + a;
    lemma_blocks_append(all, b, n);
    assert(all + b =~= state.buffered + (a + b));
    lemma_after_all_concat(state.converter, state.drained(a), state.after_poll(a).drained(b));
}

} // verus!
