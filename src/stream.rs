use vstd::prelude::*;

use crate::error::{
    CanonicalError, ErrorKind, VendorFailure, failure_message, kind_of, retryable_spec, translate,
};

verus! {

/// What the vendor's transport, or the caller, reports to the broker.
#[derive(Clone, Debug)]
pub enum StreamEvent {
    /// A piece of generated text arrived.
    Text(String),
    /// The vendor ended the stream normally.
    End,
    /// The transport failed or closed unexpectedly.
    Failure(VendorFailure),
    /// The caller cancelled the stream.
    Cancel,
}

/// One piece of a streamed answer, numbered from zero.
#[derive(Clone, Debug)]
pub struct StreamChunk {
    pub sequence_number: u64,
    pub text: String,
    pub is_final: bool,
}

/// What the broker hands to the consumer.
#[derive(Clone, Debug)]
pub enum Delivery {
    Chunk(StreamChunk),
    /// The terminal error that ends a stream that did not finish normally.
    Terminal(CanonicalError),
}

#[derive(Clone, Copy, Debug, PartialEq, Eq, Structural)]
pub enum StreamState {
    Open,
    Finished,
    Failed,
    Cancelled,
}

/// Relays one stream: numbers its chunks and makes sure exactly one
/// terminal signal reaches the consumer, and nothing after it.
#[derive(Clone, Copy, Debug, PartialEq, Eq, Structural)]
pub struct StreamBroker {
    pub next_seq: u64,
    pub state: StreamState,
}

/// The shape of an event, without its payload.
#[derive(Clone, Copy, Debug, PartialEq, Eq, Structural)]
pub enum EventKind {
    Text,
    End,
    Failure,
    Cancel,
}

/// The shape of a delivery, without its payload.
#[derive(Clone, Copy, Debug, PartialEq, Eq, Structural)]
pub enum Signal {
    Chunk { seq: u64, is_final: bool },
    Terminal,
}

pub open spec fn event_kind(e: StreamEvent) -> EventKind {
    match e {
        StreamEvent::Text(_) => EventKind::Text,
        StreamEvent::End => EventKind::End,
        StreamEvent::Failure(_) => EventKind::Failure,
        StreamEvent::Cancel => EventKind::Cancel,
    }
}

pub open spec fn signal_of(d: Option<Delivery>) -> Option<Signal> {
    match d {
        Some(Delivery::Chunk(c)) => Some(Signal::Chunk { seq: c.sequence_number, is_final: c.is_final }),
        Some(Delivery::Terminal(_)) => Some(Signal::Terminal),
        None => None,
    }
}

/// A final chunk or a terminal error.
pub open spec fn is_terminal(s: Signal) -> bool {
    match s {
        Signal::Chunk { is_final, .. } => is_final,
        Signal::Terminal => true,
    }
}

pub open spec fn initial_broker() -> StreamBroker {
    StreamBroker { next_seq: 0, state: StreamState::Open }
}

/// One transition of the broker: its next state and what it delivers.
pub open spec fn step_spec(b: StreamBroker, e: EventKind) -> (StreamBroker, Option<Signal>) {
    if b.state != StreamState::Open {
        (b, None)
    } else {
        match e {
            EventKind::Text => if b.next_seq == u64::MAX {
                (StreamBroker { state: StreamState::Failed, ..b }, Some(Signal::Terminal))
            } else {
                (
                    StreamBroker { next_seq: (b.next_seq + 1) as u64, ..b },
                    Some(Signal::Chunk { seq: b.next_seq, is_final: false }),
                )
            },
            EventKind::End => if b.next_seq == u64::MAX {
                (StreamBroker { state: StreamState::Failed, ..b }, Some(Signal::Terminal))
            } else {
                (
                    StreamBroker { next_seq: (b.next_seq + 1) as u64, state: StreamState::Finished },
                    Some(Signal::Chunk { seq: b.next_seq, is_final: true }),
                )
            },
            EventKind::Failure => (
                StreamBroker { state: StreamState::Failed, ..b },
                Some(Signal::Terminal),
            ),
            EventKind::Cancel => (
                StreamBroker { state: StreamState::Cancelled, ..b },
                Some(Signal::Terminal),
            ),
        }
    }
}

pub open spec fn opt_seq(o: Option<Signal>) -> Seq<Signal> {
    match o {
        Some(s) => seq![s],
        None => Seq::empty(),
    }
}

/// Everything the broker delivers for a sequence of events.
pub open spec fn run(b: StreamBroker, es: Seq<EventKind>) -> Seq<Signal>
    decreases es.len(),
{
    if es.len() == 0 {
        Seq::empty()
    } else {
        let (b2, o) = step_spec(b, es[0]);
        opt_seq(o) + run(b2, es.drop_first())
    }
}

/// The broker's state after a sequence of events.
pub open spec fn state_after(b: StreamBroker, es: Seq<EventKind>) -> StreamBroker
    decreases es.len(),
{
    if es.len() == 0 {
        b
    } else {
        state_after(step_spec(b, es[0]).0, es.drop_first())
    }
}

/// The message of the terminal error a cancelled stream ends with.
pub open spec fn cancel_message() -> Seq<char> {
    "stream cancelled by caller"@
}

/// The message of the terminal error when chunk numbers run out.
pub open spec fn exhausted_message() -> Seq<char> {
    "stream exceeded its sequence numbers"@
}

impl StreamBroker {
    /// A broker for a fresh stream: open, numbering from zero.
    pub fn new() -> (r: StreamBroker)
        ensures
            r == initial_broker(),
    {
        StreamBroker { next_seq: 0, state: StreamState::Open }
    }

    /// Whether chunks may still be delivered.
    pub fn is_open(&self) -> (r: bool)
        ensures
            r == (self.state == StreamState::Open),
    {
        self.state == StreamState::Open
    }

    /// Handles one event and says what, if anything, goes to the consumer.
    pub fn step(&mut self, ev: StreamEvent) -> (r: Option<Delivery>)
        ensures
            (*final(self), signal_of(r)) == step_spec(*old(self), event_kind(ev)),
            r matches Some(Delivery::Chunk(c)) ==> c.text@ == match ev {
                StreamEvent::Text(t) => t@,
                _ => Seq::<char>::empty(),
            },
            r matches Some(Delivery::Terminal(e)) ==> match ev {
                StreamEvent::Failure(f) => e.kind == kind_of(f) && e.retryable == retryable_spec(
                    kind_of(f),
                ) && e.message@ == failure_message(f),
                StreamEvent::Cancel => e.kind == ErrorKind::Unknown && !e.retryable
                    && e.message@ == cancel_message(),
                _ => e.kind == ErrorKind::Unknown && !e.retryable && e.message@
                    == exhausted_message(),
            },
    {
        if self.state != StreamState::Open {
            return None;
        }
        match ev {
            StreamEvent::Text(text) => {
                if self.next_seq == u64::MAX {
                    self.state = StreamState::Failed;
                    Some(Delivery::Terminal(exhausted()))
                } else {
                    let seq = self.next_seq;
                    self.next_seq = self.next_seq + 1;
                    Some(Delivery::Chunk(StreamChunk { sequence_number: seq, text, is_final: false }))
                }
            },
            StreamEvent::End => {
                if self.next_seq == u64::MAX {
                    self.state = StreamState::Failed;
                    Some(Delivery::Terminal(exhausted()))
                } else {
                    let seq = self.next_seq;
                    self.next_seq = self.next_seq + 1;
                    self.state = StreamState::Finished;
                    Some(
                        Delivery::Chunk(
                            StreamChunk { sequence_number: seq, text: String::new(), is_final: true },
                        ),
                    )
                }
            },
            StreamEvent::Failure(f) => {
                self.state = StreamState::Failed;
                Some(Delivery::Terminal(translate(f)))
            },
            StreamEvent::Cancel => {
                self.state = StreamState::Cancelled;
                Some(
                    Delivery::Terminal(
                        CanonicalError::new(
                            ErrorKind::Unknown,
                            String::from_str("stream cancelled by caller"),
                        ),
                    ),
                )
            },
        }
    }
}

/// A broker that is no longer open delivers nothing more.
pub proof fn lemma_closed_is_silent(b: StreamBroker, es: Seq<EventKind>)
    requires
        b.state != StreamState::Open,
    ensures
        run(b, es) == Seq::<Signal>::empty(),
    decreases es.len(),
{
    if es.len() > 0 {
        lemma_closed_is_silent(b, es.drop_first());
    }
}

/// From an open broker: chunk numbers continue from `next_seq` with no gap,
/// a terminal signal can only be the last delivery, and once the events
/// hold anything but text the deliveries end in a terminal signal.
pub proof fn lemma_open_run(b: StreamBroker, es: Seq<EventKind>)
    requires
        b.state == StreamState::Open,
    ensures
        forall|i: int|
            0 <= i < run(b, es).len() ==> (#[trigger] run(b, es)[i] matches Signal::Chunk {
                seq,
                ..
            } ==> seq == b.next_seq + i),
        forall|i: int|
            0 <= i < run(b, es).len() && is_terminal(#[trigger] run(b, es)[i]) ==> i == run(
                b,
                es,
            ).len() - 1,
        (exists|j: int| 0 <= j < es.len() && #[trigger] es[j] != EventKind::Text) ==> run(
            b,
            es,
        ).len() > 0 && is_terminal(run(b, es).last()),
    decreases es.len(),
{
    if es.len() > 0 {
        let (b2, o) = step_spec(b, es[0]);
        let rest = es.drop_first();
        let d = run(b, es);
        assert(d == opt_seq(o) + run(b2, rest));
        if b2.state != StreamState::Open {
            lemma_closed_is_silent(b2, rest);
            assert(d =~= opt_seq(o));
        } else {
            lemma_open_run(b2, rest);
            let tail = run(b2, rest);
            assert(es[0] == EventKind::Text);
            assert(d =~= seq![Signal::Chunk { seq: b.next_seq, is_final: false }] + tail);
            assert forall|i: int| 0 <= i < d.len() implies (#[trigger] d[i] matches Signal::Chunk {
                seq,
                ..
            } ==> seq == b.next_seq + i) by {
                if i > 0 {
                    assert(d[i] == tail[i - 1]);
                }
            }
            assert forall|i: int| 0 <= i < d.len() && is_terminal(#[trigger] d[i]) implies i == d.len()
                - 1 by {
                assert(i > 0);
                assert(d[i] == tail[i - 1]);
            }
            if exists|j: int| 0 <= j < es.len() && #[trigger] es[j] != EventKind::Text {
                let j = choose|j: int| 0 <= j < es.len() && #[trigger] es[j] != EventKind::Text;
                assert(j > 0);
                assert(rest[j - 1] != EventKind::Text);
                assert(tail.len() > 0);
                assert(d.last() == tail.last());
            }
        }
    }
}

/// Running two sequences of events one after the other delivers what each
/// delivers, in turn.
pub proof fn lemma_run_append(b: StreamBroker, a: Seq<EventKind>, c: Seq<EventKind>)
    ensures
        run(b, a + c) == run(b, a) + run(state_after(b, a), c),
    decreases a.len(),
{
    if a.len() == 0 {
        assert(a + c =~= c);
        assert(run(b, a) + run(b, c) =~= run(b, c));
    } else {
        let (b2, o) = step_spec(b, a[0]);
        assert((a + c).drop_first() =~= a.drop_first() + c);
        lemma_run_append(b2, a.drop_first(), c);
        assert(run(b, a + c) =~= opt_seq(o) + (run(b2, a.drop_first()) + run(
            state_after(b2, a.drop_first()),
            c,
        )));
    }
}

/// For every sequence of events on a fresh stream, the chunks carry the
/// numbers 0, 1, 2, ... in delivery order, at most one terminal signal is
/// delivered and nothing follows it, and a stream that ended, failed or
/// was cancelled has delivered exactly one.
pub proof fn lemma_stream_order(es: Seq<EventKind>)
    ensures
        forall|i: int|
            0 <= i < run(initial_broker(), es).len() ==> (#[trigger] run(initial_broker(), es)[i] matches Signal::Chunk {
                seq,
                ..
            } ==> seq == i),
        forall|i: int|
            0 <= i < run(initial_broker(), es).len() && is_terminal(
                #[trigger] run(initial_broker(), es)[i],
            ) ==> i == run(initial_broker(), es).len() - 1,
        (exists|j: int| 0 <= j < es.len() && #[trigger] es[j] != EventKind::Text) ==> run(
            initial_broker(),
            es,
        ).len() > 0 && is_terminal(run(initial_broker(), es).last()),
{
    lemma_open_run(initial_broker(), es);
}

/// Once the caller cancels, no further chunk is delivered: every chunk of
/// the whole stream has a number below the count of deliveries made
/// before the cancellation.
pub proof fn lemma_cancel_stops_chunks(pre: Seq<EventKind>, post: Seq<EventKind>)
    ensures
        forall|i: int|
            0 <= i < run(initial_broker(), pre + seq![EventKind::Cancel] + post).len() ==> (
            #[trigger] run(initial_broker(), pre + seq![EventKind::Cancel] + post)[i] matches Signal::Chunk {
                seq,
                ..
            } ==> seq < run(initial_broker(), pre).len()),
{
    let init = initial_broker();
    let es = pre + seq![EventKind::Cancel] + post;
    let c = seq![EventKind::Cancel] + post;
    assert(es =~= pre + c);
    lemma_run_append(init, pre, c);
    let s = state_after(init, pre);
    let (s2, o) = step_spec(s, EventKind::Cancel);
    assert(s2.state != StreamState::Open);
    assert(c.drop_first() =~= post);
    lemma_closed_is_silent(s2, post);
    assert(run(s, c) =~= opt_seq(o));
    lemma_open_run(init, es);
    let d = run(init, es);
    let k = run(init, pre).len();
    assert forall|i: int| 0 <= i < d.len() implies (#[trigger] d[i] matches Signal::Chunk {
        seq,
        ..
    } ==> seq < k) by {
        if i >= k {
            assert(d[i] == opt_seq(o)[i - k]);
        }
    }
}

fn exhausted() -> (e: CanonicalError)
    ensures
        e.kind == ErrorKind::Unknown,
        !e.retryable,
        e.message@ == exhausted_message(),
{
    CanonicalError::new(ErrorKind::Unknown, String::from_str("stream exceeded its sequence numbers"))
}

} // verus!
