//! Batching of the machine's mono samples into stereo blocks for the host.

use vstd::prelude::*;

verus! {

/// Interleaved stereo samples handed to the host in one block.
pub const AUDIO_BUFFER_LEN: usize = 2048;

/// Abstract state of the sink: the block being filled and the write cursor.
pub ghost struct SinkState {
    pub samples: Seq<i16>,
    pub cursor: nat,
}

/// A sink that has just been made: zeroed block, cursor at the start.
pub open spec fn fresh_sink() -> SinkState {
    SinkState { samples: Seq::new(AUDIO_BUFFER_LEN as nat, |i: int| 0i16), cursor: 0 }
}

/// Well-formed sink states: a full-size block and an even cursor inside it.
pub open spec fn sink_wf(st: SinkState) -> bool {
    &&& st.samples.len() == AUDIO_BUFFER_LEN
    &&& st.cursor < AUDIO_BUFFER_LEN
    &&& st.cursor % 2 == 0
}

/// One pushed sample: written twice at the cursor, which then advances by
/// two and wraps to zero when the block is full. The flag says whether the
/// block was full, that is, handed to the host.
pub open spec fn push_step(st: SinkState, s: i16) -> (SinkState, bool) {
    let samples = st.samples.update(st.cursor as int, s).update(st.cursor as int + 1, s);
    let full = st.cursor + 2 == AUDIO_BUFFER_LEN;
    (SinkState { samples, cursor: if full { 0 } else { st.cursor + 2 } }, full)
}

/// The state after pushing `xs` in order, and the blocks flushed meanwhile.
pub open spec fn push_all(st: SinkState, xs: Seq<i16>) -> (SinkState, Seq<Seq<i16>>)
    decreases xs.len(),
{
    if xs.len() == 0 {
        (st, seq![])
    } else {
        let (mid, flushed) = push_all(st, xs.drop_last());
        let (next, full) = push_step(mid, xs.last());
        (next, if full { flushed.push(next.samples) } else { flushed })
    }
}

/// Each sample of `xs` twice in a row.
pub open spec fn duplicated(xs: Seq<i16>) -> Seq<i16> {
    Seq::new(2 * xs.len(), |i: int| xs[i / 2])
}

/// Up to a full block, pushing from a fresh sink fills the block with each
/// sample twice, in order, and flushes nothing.
proof fn lemma_partial_block(xs: Seq<i16>)
    requires
        xs.len() < AUDIO_BUFFER_LEN / 2,
    ensures
        ({
            let (st, flushed) = push_all(fresh_sink(), xs);
            &&& flushed.len() == 0
            &&& st.cursor == 2 * xs.len()
            &&& st.samples.len() == AUDIO_BUFFER_LEN
            &&& forall|i: int| 0 <= i < 2 * xs.len() ==> #[trigger] st.samples[i] == xs[i / 2]
        }),
    decreases xs.len(),
{
    if xs.len() > 0 {
        let init = xs.drop_last();
        lemma_partial_block(init);
        let (mid, _) = push_all(fresh_sink(), init);
        let (st, _) = push_all(fresh_sink(), xs);
        assert forall|i: int| 0 <= i < 2 * xs.len() implies #[trigger] st.samples[i] == xs[i / 2] by {
            if i < 2 * init.len() {
                assert(mid.samples[i] == init[i / 2]);
            }
        }
    }
}

/// Fewer mono samples than fill a block, pushed into a fresh sink, are
/// never flushed to the host.
pub proof fn lemma_no_flush_before_full_block(xs: Seq<i16>)
    requires
        xs.len() < AUDIO_BUFFER_LEN / 2,
    ensures
        push_all(fresh_sink(), xs).1.len() == 0,
{
    lemma_partial_block(xs);
}

/// Exactly a block's worth of mono samples, pushed into a fresh sink, are
/// flushed once, as one block holding each sample twice in order, and the
/// cursor is back at the start.
pub proof fn lemma_one_flush_per_full_block(xs: Seq<i16>)
    requires
        xs.len() == AUDIO_BUFFER_LEN / 2,
    ensures
        push_all(fresh_sink(), xs).1 == seq![duplicated(xs)],
        push_all(fresh_sink(), xs).0.cursor == 0,
{
    let init = xs.drop_last();
    lemma_partial_block(init);
    let (mid, _) = push_all(fresh_sink(), init);
    let (st, flushed) = push_all(fresh_sink(), xs);
    assert forall|i: int| 0 <= i < AUDIO_BUFFER_LEN implies #[trigger] st.samples[i] == duplicated(xs)[i] by {
        if i < 2 * init.len() {
            assert(mid.samples[i] == init[i / 2]);
        }
    }
    assert(st.samples =~= duplicated(xs));
    assert(flushed =~= seq![duplicated(xs)]);
}

/// The audio sink that the emulated sound device pushes into.
pub struct AudioBackend {
    /// Stereo block; each mono sample is stored twice.
    buffer: Vec<i16>,
    /// Write position in `buffer`.
    pos: u16,
}

impl AudioBackend {
    /// The abstract state of this sink.
    pub closed spec fn state(&self) -> SinkState {
        SinkState { samples: self.buffer@, cursor: self.pos as nat }
    }

    /// Makes an empty sink.
    pub fn new() -> (r: AudioBackend)
        ensures
            r.state() == fresh_sink(),
            sink_wf(r.state()),
    {
        let buffer = vec![0i16; AUDIO_BUFFER_LEN];
        let r = AudioBackend { buffer, pos: 0 };
        assert(r.state().samples =~= fresh_sink().samples);
        r
    }

    /// The current stereo block. After a push that returned `true` it holds
    /// the block that must be sent to the host.
    pub fn samples(&self) -> (r: &Vec<i16>)
        ensures
            r@ == self.state().samples,
    {
        &self.buffer
    }

    /// Pushes one mono sample. Returns `true` when the block has just been
    /// filled; the caller then sends `samples()` to the host.
    pub fn push_sample(&mut self, sample: i16) -> (r: bool)
        requires
            sink_wf(old(self).state()),
        ensures
            (final(self).state(), r) == push_step(old(self).state(), sample),
            sink_wf(final(self).state()),
    {
        let pos = self.pos as usize;
        self.buffer.set(pos, sample);
        self.buffer.set(pos + 1, sample);
        self.pos = self.pos + 2;
        if self.pos as usize == AUDIO_BUFFER_LEN {
            self.pos = 0;
            true
        } else {
            false
        }
    }
}

} // verus!
