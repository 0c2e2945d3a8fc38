//! The event dispatcher: drains the channel under a bounded time budget,
//! keeps only the most recent event (coalescing), and hands the consumer
//! exactly one event per call — a synthetic tick when nothing arrived.

use vstd::prelude::*;
use std::sync::mpsc::Receiver;
use std::sync::mpsc::TryRecvError;
use std::time::Instant;

use crate::error::Error;
use crate::event::Event;

verus! {

#[verifier::external_type_specification]
#[verifier::external_body]
#[verifier::reject_recursive_types(T)]
pub struct ExReceiver<T>(Receiver<T>);

#[verifier::external_type_specification]
#[verifier::external_body]
pub struct ExInstant(Instant);

/// One observation of the channel by a non-blocking receive.
#[derive(Clone, Copy, Debug, PartialEq, Eq, Structural)]
pub enum RecvOutcome {
    /// A queued event came out.
    Item(Event),
    /// The channel was empty but the sending half is still alive.
    Empty,
    /// The sending half was dropped.
    Closed,
}

/// The answer a poll gives after the observations `obs`, having
/// `pending` remembered from before them: each received event overwrites
/// the remembered one, an exhausted budget yields the remembered event or
/// a tick, and a closed channel is fatal.
pub open spec fn poll_result(obs: Seq<RecvOutcome>, pending: Option<Event>) -> Result<
    Event,
    Error,
>
    decreases obs.len(),
{
    if obs.len() == 0 {
        Ok(match pending {
            Some(e) => e,
            None => Event::Tick,
        })
    } else {
        match obs[0] {
            RecvOutcome::Item(e) => poll_result(obs.drop_first(), Some(e)),
            RecvOutcome::Empty => poll_result(obs.drop_first(), pending),
            RecvOutcome::Closed => Err(Error::SourceDisconnected),
        }
    }
}

/// The most recent event among the observations, if any.
pub open spec fn last_item(obs: Seq<RecvOutcome>) -> Option<Event>
    decreases obs.len(),
{
    if obs.len() == 0 {
        None
    } else {
        match obs.last() {
            RecvOutcome::Item(e) => Some(e),
            _ => last_item(obs.drop_last()),
        }
    }
}

/// Whether the channel was ever observed closed.
pub open spec fn has_closed(obs: Seq<RecvOutcome>) -> bool {
    exists|i: int| 0 <= i < obs.len() && obs[i] is Closed
}

proof fn lemma_last_item_front(obs: Seq<RecvOutcome>)
    requires
        obs.len() > 0,
    ensures
        last_item(obs) == (match last_item(obs.drop_first()) {
            Some(e) => Some(e),
            None => match obs[0] {
                RecvOutcome::Item(e) => Some(e),
                _ => None::<Event>,
            },
        }),
    decreases obs.len(),
{
    if obs.len() == 1 {
        assert(obs.drop_first().len() == 0);
    } else {
        let t = obs.drop_last();
        lemma_last_item_front(t);
        assert(obs.drop_first().last() == obs.last());
        assert(obs.drop_first().drop_last() =~= t.drop_first());
        assert(obs[0] == t[0]);
    }
}

/// Coalescing correctness: while the channel stays open, a poll answers
/// with exactly the most recent event it observed — never an earlier one
/// — and with a tick when it observed none and remembered none.
pub proof fn lemma_coalescing(obs: Seq<RecvOutcome>, pending: Option<Event>)
    requires
        !has_closed(obs),
    ensures
        poll_result(obs, pending) == Ok::<Event, Error>(match last_item(obs) {
            Some(e) => e,
            None => match pending {
                Some(p) => p,
                None => Event::Tick,
            },
        }),
    decreases obs.len(),
{
    if obs.len() > 0 {
        assert(!(obs[0] is Closed));
        assert(!has_closed(obs.drop_first())) by {
            assert forall|i: int| 0 <= i < obs.drop_first().len() implies !(
            obs.drop_first()[i] is Closed) by {
                assert(obs.drop_first()[i] == obs[i + 1]);
            }
        }
        lemma_last_item_front(obs);
        match obs[0] {
            RecvOutcome::Item(e) => {
                lemma_coalescing(obs.drop_first(), Some(e));
            },
            RecvOutcome::Empty => {
                lemma_coalescing(obs.drop_first(), pending);
            },
            RecvOutcome::Closed => {
                assert(false);
            },
        }
    }
}

/// Tick fallback: a poll that found the channel open but empty at every
/// attempt answers with a synthetic tick.
pub proof fn lemma_tick_fallback(obs: Seq<RecvOutcome>)
    requires
        forall|i: int| 0 <= i < obs.len() ==> obs[i] is Empty,
    ensures
        poll_result(obs, None::<Event>) == Ok::<Event, Error>(Event::Tick),
    decreases obs.len(),
{
    assert(!has_closed(obs));
    if obs.len() > 0 {
        assert(obs.last() is Empty);
        assert(forall|i: int| 0 <= i < obs.drop_last().len() ==> obs.drop_last()[i] == obs[i]);
        lemma_tick_fallback(obs.drop_last());
        lemma_coalescing(obs, None::<Event>);
        lemma_coalescing(obs.drop_last(), None::<Event>);
        assert(last_item(obs) == last_item(obs.drop_last()));
    }
}

/// Disconnection surfaces as an error, and as nothing else: a poll fails
/// exactly when it observed the closed channel, and then the error is
/// `SourceDisconnected`.
pub proof fn lemma_disconnect(obs: Seq<RecvOutcome>, pending: Option<Event>)
    ensures
        (poll_result(obs, pending) is Err) <==> has_closed(obs),
        has_closed(obs) ==> poll_result(obs, pending) == Err::<Event, Error>(
            Error::SourceDisconnected,
        ),
    decreases obs.len(),
{
    if obs.len() == 0 {
    } else {
        match obs[0] {
            RecvOutcome::Item(e) => {
                lemma_disconnect(obs.drop_first(), Some(e));
            },
            RecvOutcome::Empty => {
                lemma_disconnect(obs.drop_first(), pending);
            },
            RecvOutcome::Closed => {
                assert(obs[0] is Closed);
            },
        }
        if !(obs[0] is Closed) {
            assert(has_closed(obs.drop_first()) ==> has_closed(obs)) by {
                if has_closed(obs.drop_first()) {
                    let i = choose|i: int|
                        0 <= i < obs.drop_first().len() && obs.drop_first()[i] is Closed;
                    assert(obs[i + 1] == obs.drop_first()[i]);
                }
            }
            assert(has_closed(obs) ==> has_closed(obs.drop_first())) by {
                if has_closed(obs) {
                    let i = choose|i: int| 0 <= i < obs.len() && obs[i] is Closed;
                    assert(i >= 1);
                    assert(obs.drop_first()[i - 1] == obs[i]);
                }
            }
        }
    }
}

/// Relies on std's `mpsc::Receiver::try_recv`: a non-blocking receive
/// hands out a queued event, or reports the channel empty, or reports the
/// sending half dropped. Which of the three comes back depends on the
/// source thread, so nothing is promised of it.
#[verifier::external_body]
fn try_recv_event(rx: &Receiver<Event>) -> (r: RecvOutcome) {
    match rx.try_recv() {
        Ok(e) => RecvOutcome::Item(e),
        Err(TryRecvError::Empty) => RecvOutcome::Empty,
        Err(TryRecvError::Disconnected) => RecvOutcome::Closed,
    }
}

/// Relies on std's `Instant::now`: a reading of the monotonic clock.
/// What it reads promises nothing.
#[verifier::external_body]
fn instant_now() -> (r: Instant) {
    Instant::now()
}

/// Relies on std's `Instant::elapsed`: the whole milliseconds since
/// `start`. What the clock reads promises nothing.
#[verifier::external_body]
fn elapsed_millis(start: &Instant) -> (r: u64) {
    start.elapsed().as_millis() as u64
}

/// The consumer's half of the event stream: owns the receiving end of the
/// channel the event source fills.
pub struct EventHandler {
    receiver: Receiver<Event>,
}

impl EventHandler {
    /// Takes ownership of the receiving half of the channel.
    pub fn new(receiver: Receiver<Event>) -> (r: EventHandler) {
        EventHandler { receiver }
    }

    /// Polls for the next event: repeatedly attempts a non-blocking
    /// receive, remembers only the most recent event, and once the budget
    /// is exhausted returns it — or a synthetic tick when nothing
    /// arrived. A closed channel is fatal and never retried. The ghost
    /// half of the result is the sequence of channel observations the
    /// call made: the answer is exactly the poll semantics applied to it.
    pub fn poll(&self, budget_ms: u64) -> (r: (Result<Event, Error>, Ghost<Seq<RecvOutcome>>))
        ensures
            r.0 == poll_result(r.1@, None::<Event>),
            !has_closed(r.1@) ==> r.0 is Ok,
            has_closed(r.1@) ==> r.0 == Err::<Event, Error>(Error::SourceDisconnected),
    {
        let start = instant_now();
        let mut pending: Option<Event> = None;
        let ghost mut obs: Seq<RecvOutcome> = Seq::<RecvOutcome>::empty();
        let mut fuel: u64 = u64::MAX;
        while fuel > 0
            invariant
                !has_closed(obs),
                pending == last_item(obs),
            decreases fuel,
        {
            match try_recv_event(&self.receiver) {
                RecvOutcome::Item(e) => {
                    pending = Some(e);
                    proof {
                        let prev = obs;
                        obs = obs.push(RecvOutcome::Item(e));
                        assert(obs.last() == RecvOutcome::Item(e));
                        assert forall|i: int| 0 <= i < obs.len() implies !(obs[i] is Closed) by {
                            if i < prev.len() {
                                assert(obs[i] == prev[i]);
                            }
                        }
                    }
                },
                RecvOutcome::Empty => {
                    proof {
                        let prev = obs;
                        obs = obs.push(RecvOutcome::Empty);
                        assert(obs.drop_last() =~= prev);
                        assert forall|i: int| 0 <= i < obs.len() implies !(obs[i] is Closed) by {
                            if i < prev.len() {
                                assert(obs[i] == prev[i]);
                            }
                        }
                    }
                    if elapsed_millis(&start) >= budget_ms {
                        proof {
                            lemma_coalescing(obs, None::<Event>);
                            lemma_disconnect(obs, None::<Event>);
                        }
                        return (
                            match pending {
                                Some(e) => Ok(e),
                                None => Ok(Event::Tick),
                            },
                            Ghost(obs),
                        );
                    }
                },
                RecvOutcome::Closed => {
                    proof {
                        obs = obs.push(RecvOutcome::Closed);
                        assert(obs[obs.len() - 1] is Closed);
                        lemma_disconnect(obs, None::<Event>);
                    }
                    return (Err(Error::SourceDisconnected), Ghost(obs));
                },
            }
            fuel -= 1;
        }
        proof {
            lemma_coalescing(obs, None::<Event>);
            lemma_disconnect(obs, None::<Event>);
        }
        (
            match pending {
                Some(e) => Ok(e),
                None => Ok(Event::Tick),
            },
            Ghost(obs),
        )
    }
}

} // verus!
