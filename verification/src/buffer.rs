//! Fixed-size chunking of a sample stream.
//!
//! A [`SampleBuffer`] accumulates samples that arrive in pieces of any size
//! and hands them out again in blocks of exactly `block` samples. Whatever
//! does not fill a block stays buffered for the next call.

use vstd::prelude::*;

verus! {

/// Number of whole blocks of `n` items in a stream of `len` items.
/// A block size of zero forms no block.
pub open spec fn block_count(len: nat, n: nat) -> nat {
    if n == 0 {
        0
    } else {
        len / n
    }
}

/// The whole blocks of `n` items at the front of `s`, in order.
pub open spec fn blocks<T>(s: Seq<T>, n: nat) -> Seq<Seq<T>> {
    Seq::new(block_count(s.len(), n), |i: int| s.subrange(i * n, (i + 1) * n))
}

/// What is left of `s` once its whole blocks of `n` items are taken.
pub open spec fn remainder<T>(s: Seq<T>, n: nat) -> Seq<T> {
    s.skip((block_count(s.len(), n) * n) as int)
}

/// The samples of each chunk of a list.
pub open spec fn chunk_views<T>(chunks: Seq<Vec<T>>) -> Seq<Seq<T>> {
    chunks.map_values(|c: Vec<T>| c@)
}

/// Blocks released, and samples left, when `chunks` are fed one after another
/// into a buffer that holds `pending`.
pub open spec fn feed_all<T>(pending: Seq<T>, chunks: Seq<Seq<T>>, n: nat) -> (Seq<Seq<T>>, Seq<T>)
    decreases chunks.len(),
{
    if chunks.len() == 0 {
        (Seq::empty(), pending)
    } else {
        let all = pending + chunks.first();
        let later = feed_all(remainder(all, n), chunks.drop_first(), n);
        (blocks(all, n) + later.0, later.1)
    }
}

/// Accumulates samples and releases them in blocks of a fixed size.
pub struct SampleBuffer<T> {
    pending: Vec<T>,
    block: usize,
}

impl<T> View for SampleBuffer<T> {
    type V = Seq<T>;

    closed spec fn view(&self) -> Seq<T> {
        self.pending@
    }
}

impl<T> SampleBuffer<T> {
    /// The configured block size.
    pub closed spec fn block_size(&self) -> nat {
        self.block as nat
    }

    /// Whether a whole block is buffered.
    pub open spec fn has_block(&self) -> bool {
        self.block_size() > 0 && self@.len() >= self.block_size()
    }

    /// Between calls a buffer never holds a whole block.
    pub open spec fn wf(&self) -> bool {
        block_count(self@.len(), self.block_size()) == 0
    }

    /// An empty buffer that releases blocks of `block` samples.
    pub fn new(block: usize) -> (r: Self)
        ensures
            r.wf(),
            r@ == Seq::<T>::empty(),
            r.block_size() == block,
    {
        SampleBuffer { pending: Vec::new(), block }
    }

    /// Number of samples currently buffered.
    pub fn len(&self) -> (n: usize)
        ensures
            n == self@.len(),
    {
        self.pending.len()
    }

    /// The block size this buffer was made with.
    pub fn block(&self) -> (n: usize)
        ensures
            n == self.block_size(),
    {
        self.block
    }

    /// Appends `samples` and releases every whole block that is then
    /// buffered, oldest first. The samples that fill no block stay buffered.
    pub fn feed(&mut self, samples: Vec<T>) -> (r: Vec<Vec<T>>)
        ensures
            final(self).wf(),
            final(self).block_size() == old(self).block_size(),
            final(self)@ == remainder(old(self)@ + samples@, old(self).block_size()),
            chunk_views(r@) == blocks(old(self)@ + samples@, old(self).block_size()),
    {
        self.push(samples);
        let out = self.take_blocks();
        proof {
            lemma_remainder_holds_no_block(old(self)@ + samples@, old(self).block_size());
        }
        out
    }

    /// Appends `samples` behind what is already buffered.
    fn push(&mut self, samples: Vec<T>)
        ensures
            final(self)@ == old(self)@ + samples@,
            final(self).block_size() == old(self).block_size(),
    {
        let mut samples = samples;
        self.pending.append(&mut samples);
    }

    /// Takes one block from the front, if a whole one is buffered.
    fn take_block(&mut self) -> (r: Option<Vec<T>>)
        ensures
            final(self).block_size() == old(self).block_size(),
            !old(self).has_block() ==> r is None && final(self)@ == old(self)@,
            old(self).has_block() ==> r is Some && r->0@ == old(self)@.take(
                old(self).block_size() as int,
            ) && final(self)@ == old(self)@.skip(old(self).block_size() as int),
    {
        if self.block == 0 || self.pending.len() < self.block {
            return None;
        }
        let mut rest = self.pending.split_off(self.block);
        std::mem::swap(&mut self.pending, &mut rest);
        Some(rest)
    }

    /// Takes every whole block that is buffered, oldest first.
    fn take_blocks(&mut self) -> (r: Vec<Vec<T>>)
        ensures
            final(self).block_size() == old(self).block_size(),
            final(self)@ == remainder(old(self)@, old(self).block_size()),
            chunk_views(r@) == blocks(old(self)@, old(self).block_size()),
    {
        let ghost all = self@;
        let ghost n = self.block_size();
        let mut out: Vec<Vec<T>> = Vec::new();
        proof {
            assert(out@.len() * n == 0) by (nonlinear_arith)
                requires
                    out@.len() == 0,
            ;
        }
        loop
            invariant
                self.block_size() == n,
                n == 0 ==> out@.len() == 0,
                out@.len() * n <= all.len(),
                self@ == all.skip((out@.len() * n) as int),
                forall|i: int|
                    0 <= i < out@.len() ==> (#[trigger] out@[i])@ == all.subrange(
                        i * n,
                        (i + 1) * n,
                    ),
            ensures
                !self.has_block(),
            decreases self@.len(),
        {
            let ghost k = out@.len();
            match self.take_block() {
                Some(block) => {
                    proof {
                        assert((k + 1) * n == k * n + n) by (nonlinear_arith);
                    }
                    out.push(block);
                },
                None => {
                    break ;
                },
            }
        }
        proof {
            lemma_block_count(all.len(), n, out@.len());
        }
        out
    }
}

/// `k` is the block count where `k` whole blocks of `n` fit into `len` and
/// fewer than `n` items are left over.
proof fn lemma_block_count(len: nat, n: nat, k: nat)
    requires
        k * n <= len,
        n == 0 || len - k * n < n,
        n == 0 ==> k == 0,
    ensures
        block_count(len, n) == k,
{
    if n > 0 {
        vstd::arithmetic::div_mod::lemma_fundamental_div_mod_converse(
            len as int,
            n as int,
            k as int,
            len - k * n,
        );
    }
}

/// Every block holds exactly `n` items.
pub proof fn lemma_blocks_are_full<T>(s: Seq<T>, n: nat)
    ensures
        forall|i: int| 0 <= i < blocks(s, n).len() ==> (#[trigger] blocks(s, n)[i]).len() == n,
{
    lemma_remainder_holds_no_block(s, n);
    assert forall|i: int| 0 <= i < blocks(s, n).len() implies (#[trigger] blocks(s, n)[i]).len()
        == n by {
        let k = block_count(s.len(), n);
        assert(0 <= i * n && (i + 1) * n <= k * n && (i + 1) * n == i * n + n) by (nonlinear_arith)
            requires
                0 <= i < k,
        ;
    }
}

/// No whole block is left in the remainder.
pub proof fn lemma_remainder_holds_no_block<T>(s: Seq<T>, n: nat)
    ensures
        block_count(remainder(s, n).len(), n) == 0,
        n > 0 ==> remainder(s, n).len() < n,
        block_count(s.len(), n) * n <= s.len(),
{
    if n > 0 {
        let len = s.len() as int;
        vstd::arithmetic::div_mod::lemma_fundamental_div_mod(len, n as int);
        vstd::arithmetic::div_mod::lemma_mod_bound(len, n as int);
        assert(n * (len / (n as int)) == (len / (n as int)) * n) by (nonlinear_arith);
        vstd::arithmetic::div_mod::lemma_basic_div(remainder(s, n).len() as int, n as int);
    }
}

/// Chunking drops and duplicates nothing: the blocks, laid end to end and
/// followed by the remainder, are the stream itself.
pub proof fn lemma_blocks_conserve<T>(s: Seq<T>, n: nat)
    ensures
        blocks(s, n).flatten() + remainder(s, n) == s,
{
    lemma_remainder_holds_no_block(s, n);
    lemma_leading_blocks_flatten(s, n, block_count(s.len(), n));
}

/// The first `m` blocks of `s`, laid end to end, are its first `m * n` items.
proof fn lemma_leading_blocks_flatten<T>(s: Seq<T>, n: nat, m: nat)
    requires
        m * n <= s.len(),
    ensures
        Seq::new(m, |i: int| s.subrange(i * n, (i + 1) * n)).flatten() == s.take((m * n) as int),
    decreases m,
{
    let f = |i: int| s.subrange(i * n, (i + 1) * n);
    if m == 0 {
        assert(0 * n == 0) by (nonlinear_arith);
    } else {
        let p = (m - 1) as nat;
        assert(p * n + n == m * n) by (nonlinear_arith)
            requires
                p + 1 == m,
        ;
        lemma_leading_blocks_flatten(s, n, p);
        assert(Seq::new(m, f) =~= Seq::new(p, f).push(f(p as int)));
        Seq::new(p, f).lemma_flatten_push(f(p as int));
    }
}

/// Where a stream is cut makes no difference to its blocks: chunking `a`,
/// then chunking what was left of it followed by `b`, gives the blocks and
/// the remainder of `a + b`.
pub proof fn lemma_blocks_append<T>(a: Seq<T>, b: Seq<T>, n: nat)
    ensures
        blocks(a + b, n) == blocks(a, n) + blocks(remainder(a, n) + b, n),
        remainder(a + b, n) == remainder(remainder(a, n) + b, n),
{
    let c = remainder(a, n) + b;
    if n > 0 {
        let k = block_count(a.len(), n);
        let q = block_count(c.len(), n);
        lemma_remainder_holds_no_block(a, n);
        lemma_remainder_holds_no_block(c, n);
        assert((k + q) * n == k * n + q * n) by (nonlinear_arith);
        lemma_block_count((a + b).len(), n, k + q);
        let whole = blocks(a + b, n);
        let split = blocks(a, n) + blocks(c, n);
        assert forall|i: int| 0 <= i < whole.len() implies whole[i] == split[i] by {
            if i < k {
                assert((i + 1) * n <= k * n) by (nonlinear_arith)
                    requires
                        i + 1 <= k,
                ;
                assert(0 <= i * n <= (i + 1) * n) by (nonlinear_arith)
                    requires
                        0 <= i,
                ;
            } else {
                let j = i - k;
                assert(i * n == k * n + j * n && (i + 1) * n == k * n + (j + 1) * n
                    && 0 <= j * n <= (j + 1) * n <= q * n) by (nonlinear_arith)
                    requires
                        j == i - k,
                        0 <= j < q,
                ;
            }
        }
    }
}

/// Feeding a stream piece by piece releases the same blocks, and leaves the
/// same samples buffered, as feeding all of it at once: chunk boundaries of
/// the input do not show in the output.
pub proof fn lemma_feed_all_is_feed_once<T>(pending: Seq<T>, chunks: Seq<Seq<T>>, n: nat)
    requires
        block_count(pending.len(), n) == 0,
    ensures
        feed_all(pending, chunks, n) == (
            blocks(pending + chunks.flatten(), n),
            remainder(pending + chunks.flatten(), n),
        ),
    decreases chunks.len(),
{
    if chunks.len() == 0 {
        assert(remainder(pending, n) =~= pending);
    } else {
        let all = pending + chunks.first();
        let tail = chunks.drop_first().flatten();
        lemma_remainder_holds_no_block(all, n);
        lemma_feed_all_is_feed_once(remainder(all, n), chunks.drop_first(), n);
        lemma_blocks_append(all, tail, n);
        assert(all + tail =~= pending + chunks.flatten());
    }
}

} // verus!
