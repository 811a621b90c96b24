//! The result streamer: relays a query's lazily produced batches as the
//! outbound reply, one pulled item at a time. A schema header precedes the
//! first data frame, batches keep their order, the end of data completes the
//! reply, and a failure ends it with an error frame.
use vstd::prelude::*;
use crate::service::ServiceError;

verus! {

/// Where a reply stands.
#[derive(Debug, Clone, Copy, PartialEq, Eq, Structural)]
pub enum StreamPhase {
    /// Nothing has been emitted yet.
    Start,
    /// The header and at least one data frame have been emitted.
    Streaming,
    /// The results ended; the reply completed successfully.
    Completed,
    /// The results failed; the reply ended with an error.
    Failed,
}

/// What one pull from the execution yields.
pub enum Pulled<B> {
    /// The next batch.
    Batch(B),
    /// The end of the results.
    End,
    /// A failure of the execution, with its message.
    Failure(String),
}

/// One outbound frame of the reply.
pub enum Frame<B> {
    /// The schema header; its schema is that of the batch in the data frame
    /// that immediately follows it.
    SchemaHeader,
    /// One batch, as produced.
    Data(B),
    /// The error that ends the reply.
    Error(ServiceError),
}

/// Whether a phase is terminal.
pub open spec fn is_terminal(p: StreamPhase) -> bool {
    p is Completed || p is Failed
}

/// One transition: the phase after a pull, and the frames it emits.
pub open spec fn step<B>(p: StreamPhase, ev: Pulled<B>) -> (StreamPhase, Seq<Frame<B>>) {
    if is_terminal(p) {
        (p, Seq::empty())
    } else {
        match ev {
            Pulled::Batch(b) => if p is Start {
                (StreamPhase::Streaming, seq![Frame::SchemaHeader, Frame::Data(b)])
            } else {
                (StreamPhase::Streaming, seq![Frame::Data(b)])
            },
            Pulled::End => (StreamPhase::Completed, Seq::empty()),
            Pulled::Failure(m) => (
                StreamPhase::Failed,
                seq![Frame::Error(ServiceError::StreamFailed(m))],
            ),
        }
    }
}

/// A whole run: the phase after a sequence of pulls, and all frames emitted.
pub open spec fn run<B>(p: StreamPhase, evs: Seq<Pulled<B>>) -> (StreamPhase, Seq<Frame<B>>)
    decreases evs.len(),
{
    if evs.len() == 0 {
        (p, Seq::empty())
    } else {
        let (p1, f1) = step(p, evs[0]);
        let (p2, f2) = run(p1, evs.drop_first());
        (p2, f1 + f2)
    }
}

/// The pulls that yield these batches in order.
pub open spec fn pulls_of<B>(bs: Seq<B>) -> Seq<Pulled<B>> {
    bs.map_values(|b: B| Pulled::Batch(b))
}

/// The data frames of these batches in order.
pub open spec fn data_of<B>(bs: Seq<B>) -> Seq<Frame<B>> {
    bs.map_values(|b: B| Frame::Data(b))
}

/// The frames a reply of these batches emits before its end: a header and
/// the data frames where there is at least one batch, nothing otherwise.
pub open spec fn reply_of<B>(bs: Seq<B>) -> Seq<Frame<B>> {
    if bs.len() == 0 {
        Seq::empty()
    } else {
        seq![Frame::SchemaHeader] + data_of(bs)
    }
}

/// The relay state of one call.
pub struct ResultStreamer {
    phase: StreamPhase,
}

impl View for ResultStreamer {
    type V = StreamPhase;

    closed spec fn view(&self) -> StreamPhase {
        self.phase
    }
}

impl ResultStreamer {
    /// A reply that has emitted nothing yet.
    pub fn new() -> (r: Self)
        ensures
            r@ == StreamPhase::Start,
    {
        ResultStreamer { phase: StreamPhase::Start }
    }

    /// Where the reply stands.
    pub fn phase(&self) -> (r: StreamPhase)
        ensures
            r == self@,
    {
        self.phase
    }

    /// Whether the reply has ended, successfully or not.
    pub fn is_done(&self) -> (r: bool)
        ensures
            r == is_terminal(self@),
    {
        match self.phase {
            StreamPhase::Completed | StreamPhase::Failed => true,
            _ => false,
        }
    }

    /// Takes one pulled item and returns the frames to send for it. Once the
    /// reply has ended, further items are ignored.
    pub fn on_pull<B>(&mut self, ev: Pulled<B>) -> (r: Vec<Frame<B>>)
        ensures
            (final(self)@, r@) == step(old(self)@, ev),
    {
        let mut out: Vec<Frame<B>> = Vec::new();
        match self.phase {
            StreamPhase::Completed | StreamPhase::Failed => {
                return out;
            },
            _ => {},
        }
        match ev {
            Pulled::Batch(b) => {
                if self.phase == StreamPhase::Start {
                    out.push(Frame::SchemaHeader);
                }
                out.push(Frame::Data(b));
                self.phase = StreamPhase::Streaming;
            },
            Pulled::End => {
                self.phase = StreamPhase::Completed;
            },
            Pulled::Failure(m) => {
                out.push(Frame::Error(ServiceError::StreamFailed(m)));
                self.phase = StreamPhase::Failed;
            },
        }
        assert(out@ == step(old(self)@, ev).1);
        out
    }
}

/// Once a reply has ended, nothing more is emitted and its phase stays.
pub proof fn lemma_terminal_is_final<B>(p: StreamPhase, evs: Seq<Pulled<B>>)
    requires
        is_terminal(p),
    ensures
        run(p, evs) == (p, Seq::<Frame<B>>::empty()),
    decreases evs.len(),
{
    if evs.len() > 0 {
        lemma_terminal_is_final(p, evs.drop_first());
        assert(Seq::<Frame<B>>::empty() + Seq::<Frame<B>>::empty() == Seq::<Frame<B>>::empty());
    }
}

/// Pulls can be split: a run over `a + b` is the run over `a`, continued over `b`.
pub proof fn lemma_run_append<B>(p: StreamPhase, a: Seq<Pulled<B>>, b: Seq<Pulled<B>>)
    ensures
        run(p, a + b) == (run(run(p, a).0, b).0, run(p, a).1 + run(run(p, a).0, b).1),
    decreases a.len(),
{
    if a.len() == 0 {
        assert(a + b == b);
        assert(Seq::<Frame<B>>::empty() + run(p, b).1 == run(p, b).1);
    } else {
        let p1 = step(p, a[0]).0;
        assert((a + b).drop_first() == a.drop_first() + b);
        lemma_run_append(p1, a.drop_first(), b);
        let f1 = step(p, a[0]).1;
        let ra = run(p1, a.drop_first());
        let rb = run(ra.0, b);
        assert(f1 + (ra.1 + rb.1) == (f1 + ra.1) + rb.1);
    }
}

/// While streaming, each batch is emitted as one data frame, in order.
pub proof fn lemma_streaming_batches<B>(bs: Seq<B>)
    ensures
        run(StreamPhase::Streaming, pulls_of(bs)) == (StreamPhase::Streaming, data_of(bs)),
    decreases bs.len(),
{
    if bs.len() > 0 {
        assert(pulls_of(bs).drop_first() == pulls_of(bs.drop_first()));
        lemma_streaming_batches(bs.drop_first());
        assert(seq![Frame::Data(bs[0])] + data_of(bs.drop_first()) == data_of(bs));
    }
}

/// From the start, batches are emitted as a header, then one data frame each,
/// in the order produced; the reply is streaming once one batch has come.
pub proof fn lemma_batches_from_start<B>(bs: Seq<B>)
    ensures
        run(StreamPhase::Start, pulls_of(bs)) == (
            if bs.len() == 0 { StreamPhase::Start } else { StreamPhase::Streaming },
            reply_of(bs),
        ),
{
    if bs.len() > 0 {
        assert(pulls_of(bs).drop_first() == pulls_of(bs.drop_first()));
        lemma_streaming_batches(bs.drop_first());
        assert(seq![Frame::SchemaHeader, Frame::Data(bs[0])] + data_of(bs.drop_first()) == reply_of(bs));
    }
}

/// Batch order: results that produce batches `bs` and then end give a
/// completed reply made of a header and the batches' data frames, in the same
/// order (no header and no frame where there is no batch).
pub proof fn lemma_batch_order<B>(bs: Seq<B>)
    ensures
        run(StreamPhase::Start, pulls_of(bs).push(Pulled::End)) == (
            StreamPhase::Completed,
            reply_of(bs),
        ),
{
    let end = seq![Pulled::<B>::End];
    assert(pulls_of(bs).push(Pulled::End) == pulls_of(bs) + end);
    lemma_run_append(StreamPhase::Start, pulls_of(bs), end);
    lemma_batches_from_start(bs);
    let p = run(StreamPhase::Start, pulls_of(bs)).0;
    assert(end.drop_first() == Seq::<Pulled<B>>::empty());
    assert(end[0] == Pulled::<B>::End);
    assert(!is_terminal(p));
    assert(step(p, end[0]) == (StreamPhase::Completed, Seq::<Frame<B>>::empty()));
    assert(run(StreamPhase::Completed, end.drop_first()) == (
        StreamPhase::Completed,
        Seq::<Frame<B>>::empty(),
    ));
    assert(run(p, end).1 == Seq::<Frame<B>>::empty() + Seq::<Frame<B>>::empty());
    assert(reply_of(bs) + Seq::<Frame<B>>::empty() == reply_of(bs));
}

/// An empty result (no batch before the end) completes successfully with no
/// frame at all.
pub proof fn lemma_empty_result_completes<B>()
    ensures
        run(StreamPhase::Start, seq![Pulled::<B>::End]) == (
            StreamPhase::Completed,
            Seq::<Frame<B>>::empty(),
        ),
{
    lemma_batch_order(Seq::<B>::empty());
    assert(pulls_of(Seq::<B>::empty()).push(Pulled::End) == seq![Pulled::<B>::End]);
}

/// A failure after batches `bs` ends the reply: the frames already emitted
/// stay, one error frame follows, and whatever is pulled later is ignored.
pub proof fn lemma_failure_ends_reply<B>(bs: Seq<B>, m: String, rest: Seq<Pulled<B>>)
    ensures
        run(StreamPhase::Start, pulls_of(bs).push(Pulled::Failure(m)) + rest) == (
            StreamPhase::Failed,
            reply_of(bs).push(Frame::Error(ServiceError::StreamFailed(m))),
        ),
{
    let fail = seq![Pulled::<B>::Failure(m)];
    assert(pulls_of(bs).push(Pulled::Failure(m)) + rest == pulls_of(bs) + (fail + rest));
    lemma_run_append(StreamPhase::Start, pulls_of(bs), fail + rest);
    lemma_batches_from_start(bs);
    let p = run(StreamPhase::Start, pulls_of(bs)).0;
    assert((fail + rest).drop_first() == rest);
    lemma_terminal_is_final(StreamPhase::Failed, rest);
    let e = seq![Frame::<B>::Error(ServiceError::StreamFailed(m))];
    assert(run(p, fail + rest) == (StreamPhase::Failed, e + Seq::<Frame<B>>::empty()));
    assert(e + Seq::<Frame<B>>::empty() == e);
    assert(reply_of(bs) + e == reply_of(bs).push(Frame::Error(ServiceError::StreamFailed(m))));
}

} // verus!
