//! Sample-rate conversion under variable input chunk sizes.
//!
//! A [`RateConverter`] stands in front of a block-based converter that wants
//! a fixed number of input frames per call. It buffers incoming chunks of any
//! size, hands the converter one full block at a time, and keeps what does
//! not fill a block for the next call. Where the source rate already is the
//! target rate it passes every chunk through untouched.
//!
//! The numeric conversion itself is the caller's: it is given as a function
//! from one input block to the converted block, or to `None` where the
//! converter rejects the block.

use vstd::prelude::*;
use crate::buffer::{
    SampleBuffer, block_count, blocks, remainder, lemma_blocks_append, lemma_blocks_are_full,
    lemma_remainder_holds_no_block,
};

verus! {

/// The converted blocks laid end to end, rejected blocks left out.
pub open spec fn joined<T>(outs: Seq<Option<Vec<T>>>) -> Seq<T>
    decreases outs.len(),
{
    if outs.len() == 0 {
        Seq::empty()
    } else {
        joined(outs.drop_last()) + match outs.last() {
            Some(v) => v@,
            None => Seq::empty(),
        }
    }
}

/// Whether any block was converted.
pub open spec fn any_converted<T>(outs: Seq<Option<Vec<T>>>) -> bool {
    exists|i: int| 0 <= i < outs.len() && (#[trigger] outs[i]) is Some
}

/// `out` is what `resample` may return for a block that holds `block`.
pub open spec fn may_convert<T, F: Fn(Vec<T>) -> Option<Vec<T>>>(
    resample: F,
    block: Seq<T>,
    out: Option<Vec<T>>,
) -> bool {
    exists|b: Vec<T>| b@ == block && #[trigger] call_ensures(resample, (b,), out)
}

/// `outs` is what `resample` may return for `input`, block by block.
pub open spec fn converted_by<T, F: Fn(Vec<T>) -> Option<Vec<T>>>(
    resample: F,
    input: Seq<Seq<T>>,
    outs: Seq<Option<Vec<T>>>,
) -> bool {
    &&& outs.len() == input.len()
    &&& forall|i: int|
        0 <= i < input.len() ==> #[trigger] may_convert(resample, input[i], outs[i])
}

/// Joins the results of converting successive blocks into one outgoing chunk.
/// Blocks that the converter rejected are dropped; where none was converted
/// there is no chunk.
fn assemble<T>(outs: Vec<Option<Vec<T>>>) -> (r: Option<Vec<T>>)
    ensures
        r is Some <==> any_converted(outs@),
        r is Some ==> r->0@ == joined(outs@),
{
    let ghost all = outs@;
    let mut acc: Vec<T> = Vec::new();
    let mut any = false;
    for o in it: outs.into_iter()
        invariant
            it.seq() == all,
            acc@ == joined(all.take(it.index() as int)),
            any <==> any_converted(all.take(it.index() as int)),
    {
        proof {
            let done = it.index() as int;
            let next = all.take(done + 1);
            assert(next.drop_last() =~= all.take(done));
            assert(next.last() == o);
            if o is Some {
                assert(next[done] is Some);
            } else if any_converted(next) {
                let w = choose|i: int| 0 <= i < next.len() && (#[trigger] next[i]) is Some;
                assert(all.take(done)[w] is Some);
            }
            if any_converted(all.take(done)) {
                let w = choose|i: int| 0 <= i < done && (#[trigger] all.take(done)[i]) is Some;
                assert(next[w] is Some);
            }
        }
        match o {
            Some(mut v) => {
                acc.append(&mut v);
                any = true;
            },
            None => {},
        }
    }
    proof {
        assert(all.take(all.len() as int) =~= all);
    }
    if any {
        Some(acc)
    } else {
        None
    }
}

/// What a [`RateConverter`] is: its two rates, the number of input frames
/// the converter behind it takes per call, and the frames not yet converted.
pub ghost struct ConverterState<T> {
    pub source_rate: u32,
    pub target_rate: u32,
    pub block_frames: nat,
    pub pending: Seq<T>,
}

impl<T> ConverterState<T> {
    /// Source and target rate agree, so chunks pass through unchanged.
    pub open spec fn is_identity(self) -> bool {
        self.source_rate == self.target_rate
    }

    /// Everything seen so far that is not yet converted, `chunk` included.
    pub open spec fn backlog(self, chunk: Seq<T>) -> Seq<T> {
        self.pending + chunk
    }

    /// The state after `chunk` has been taken in.
    pub open spec fn after(self, chunk: Seq<T>) -> Self {
        if self.is_identity() {
            self
        } else {
            ConverterState {
                pending: remainder(self.backlog(chunk), self.block_frames),
                ..self
            }
        }
    }

    /// The blocks that taking in `chunk` hands to the converter: every full
    /// block of the backlog, and none where chunks pass through.
    pub open spec fn due(self, chunk: Seq<T>) -> Seq<Seq<T>> {
        if self.is_identity() {
            Seq::empty()
        } else {
            blocks(self.backlog(chunk), self.block_frames)
        }
    }

    /// The state after `chunks` have been taken in one after another.
    pub open spec fn after_all(self, chunks: Seq<Seq<T>>) -> Self
        decreases chunks.len(),
    {
        if chunks.len() == 0 {
            self
        } else {
            self.after(chunks.first()).after_all(chunks.drop_first())
        }
    }

    /// The blocks handed to the converter, in order, while `chunks` are
    /// taken in one after another.
    pub open spec fn due_all(self, chunks: Seq<Seq<T>>) -> Seq<Seq<T>>
        decreases chunks.len(),
    {
        if chunks.len() == 0 {
            Seq::empty()
        } else {
            self.due(chunks.first()) + self.after(chunks.first()).due_all(chunks.drop_first())
        }
    }
}

/// Buffers chunks of any size in front of a block-based converter.
pub struct RateConverter<T> {
    source_rate: u32,
    target_rate: u32,
    buffer: SampleBuffer<T>,
}

impl<T> View for RateConverter<T> {
    type V = ConverterState<T>;

    closed spec fn view(&self) -> ConverterState<T> {
        ConverterState {
            source_rate: self.source_rate,
            target_rate: self.target_rate,
            block_frames: self.buffer.block_size(),
            pending: self.buffer@,
        }
    }
}

impl<T> RateConverter<T> {
    /// Fewer frames than one block are pending, and none at all where
    /// chunks pass through.
    pub open spec fn wf(&self) -> bool {
        &&& block_count(self@.pending.len(), self@.block_frames) == 0
        &&& self@.is_identity() ==> self@.pending.len() == 0
    }

    /// A converter from `source_rate` to `target_rate` in front of a block
    /// converter that takes `block_frames` input frames per call.
    pub fn new(source_rate: u32, target_rate: u32, block_frames: usize) -> (r: Self)
        ensures
            r.wf(),
            r@ == (ConverterState::<T> {
                source_rate,
                target_rate,
                block_frames: block_frames as nat,
                pending: Seq::empty(),
            }),
    {
        RateConverter { source_rate, target_rate, buffer: SampleBuffer::new(block_frames) }
    }

    /// Whether chunks pass through unchanged.
    pub fn is_passthrough(&self) -> (r: bool)
        ensures
            r == self@.is_identity(),
    {
        self.source_rate == self.target_rate
    }

    /// Number of frames waiting for a full block.
    pub fn pending_len(&self) -> (n: usize)
        ensures
            n == self@.pending.len(),
    {
        self.buffer.len()
    }

    /// Takes in one chunk at the source rate and returns at most one chunk at
    /// the target rate.
    ///
    /// Where the rates agree the chunk comes back as it is. Otherwise the
    /// chunk joins the pending frames, every full block among them goes
    /// through `resample` in order, and the converted blocks come back as one
    /// chunk. Frames that fill no block stay pending; a block that `resample`
    /// rejects is dropped; where no block was converted there is no chunk.
    pub fn convert<F: Fn(Vec<T>) -> Option<Vec<T>>>(&mut self, chunk: Vec<T>, resample: &F) -> (r:
        Option<Vec<T>>)
        requires
            old(self).wf(),
            forall|b: Vec<T>|
                b@.len() == old(self)@.block_frames ==> call_requires(*resample, (b,)),
        ensures
            final(self).wf(),
            final(self)@ == old(self)@.after(chunk@),
            old(self)@.is_identity() ==> r == Some(chunk),
            !old(self)@.is_identity() ==> exists|outs: Seq<Option<Vec<T>>>|
                {
                    &&& converted_by(*resample, old(self)@.due(chunk@), outs)
                    &&& r is Some <==> any_converted(outs)
                    &&& r is Some ==> r->0@ == joined(outs)
                },
    {
        if self.source_rate == self.target_rate {
            return Some(chunk);
        }
        let ghost input = self@.due(chunk@);
        let ghost n = self@.block_frames;
        let ready = self.buffer.feed(chunk);
        proof {
            lemma_blocks_are_full(old(self)@.backlog(chunk@), n);
        }
        let mut outs: Vec<Option<Vec<T>>> = Vec::new();
        for block in it: ready.into_iter()
            invariant
                forall|b: Vec<T>| b@.len() == n ==> call_requires(*resample, (b,)),
                it.seq().len() == input.len(),
                forall|i: int| 0 <= i < input.len() ==> (#[trigger] it.seq()[i])@ == input[i],
                forall|i: int| 0 <= i < input.len() ==> (#[trigger] input[i]).len() == n,
                converted_by(*resample, input.take(it.index() as int), outs@),
        {
            let ghost done = it.index() as int;
            let ghost before = outs@;
            let converted = resample(block);
            outs.push(converted);
            proof {
                let now = input.take(done + 1);
                assert forall|i: int| 0 <= i < now.len() implies #[trigger] may_convert(
                    *resample,
                    now[i],
                    outs@[i],
                ) by {
                    if i < done {
                        assert(may_convert(*resample, input.take(done)[i], before[i]));
                    } else {
                        assert(block@ == now[i] && call_ensures(*resample, (block,), outs@[i]));
                    }
                }
                assert(converted_by(*resample, now, outs@));
            }
        }
        proof {
            assert(input.take(input.len() as int) =~= input);
        }
        assemble(outs)
    }
}

/// Taking in one more chunk comes last.
pub proof fn lemma_after_all_push<T>(state: ConverterState<T>, chunks: Seq<Seq<T>>, chunk: Seq<T>)
    ensures
        state.after_all(chunks.push(chunk)) == state.after_all(chunks).after(chunk),
    decreases chunks.len(),
{
    let more = chunks.push(chunk);
    if chunks.len() == 0 {
        assert(more.drop_first() =~= Seq::<Seq<T>>::empty());
        assert(state.after(chunk).after_all(more.drop_first()) == state.after(chunk));
    } else {
        assert(more.first() == chunks.first());
        assert(more.drop_first() =~= chunks.drop_first().push(chunk));
        lemma_after_all_push(state.after(chunks.first()), chunks.drop_first(), chunk);
    }
}

/// Taking in chunks in two goes is taking them in in one.
pub proof fn lemma_after_all_concat<T>(
    state: ConverterState<T>,
    first: Seq<Seq<T>>,
    second: Seq<Seq<T>>,
)
    ensures
        state.after_all(first + second) == state.after_all(first).after_all(second),
    decreases second.len(),
{
    if second.len() == 0 {
        assert(first + second =~= first);
    } else {
        let front = second.drop_last();
        lemma_after_all_concat(state, first, front);
        lemma_after_all_push(state, first + front, second.last());
        lemma_after_all_push(state.after_all(first), front, second.last());
        assert(first + second =~= (first + front).push(second.last()));
        assert(second =~= front.push(second.last()));
    }
}

/// Rate conversion does not see chunk boundaries. However a stream is cut
/// into chunks, the converter behind is handed the same blocks in the same
/// order, and the same frames stay pending, as if the whole stream had come
/// as one chunk: no frame is dropped or doubled where two chunks meet. A
/// converter whose output is determined by the blocks it has been given so
/// far therefore produces the same stream either way.
pub proof fn lemma_chunk_boundaries_do_not_show<T>(state: ConverterState<T>, chunks: Seq<Seq<T>>)
    requires
        block_count(state.pending.len(), state.block_frames) == 0,
    ensures
        state.due_all(chunks) == state.due(chunks.flatten()),
        state.after_all(chunks) == state.after(chunks.flatten()),
    decreases chunks.len(),
{
    let n = state.block_frames;
    if state.is_identity() {
        if chunks.len() > 0 {
            lemma_chunk_boundaries_do_not_show(state, chunks.drop_first());
        }
    } else if chunks.len() == 0 {
        assert(state.pending + chunks.flatten() =~= state.pending);
        assert(blocks(state.pending, n) =~= Seq::<Seq<T>>::empty());
        assert(remainder(state.pending, n) =~= state.pending);
    } else {
        let all = state.pending + chunks.first();
        let tail = chunks.drop_first().flatten();
        let next = state.after(chunks.first());
        lemma_remainder_holds_no_block(all, n);
        lemma_chunk_boundaries_do_not_show(next, chunks.drop_first());
        lemma_blocks_append(all, tail, n);
        assert(all + tail =~= state.pending + chunks.flatten());
    }
}

/// Where the rates agree nothing is buffered and nothing is handed to a
/// converter, whatever comes in.
pub proof fn lemma_identity_keeps_nothing<T>(state: ConverterState<T>, chunks: Seq<Seq<T>>)
    requires
        state.is_identity(),
    ensures
        state.after_all(chunks) == state,
    decreases chunks.len(),
{
    if chunks.len() > 0 {
        lemma_identity_keeps_nothing(state, chunks.drop_first());
    }
}

} // verus!
