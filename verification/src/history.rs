//! Histories of a stream: what holds of every run of steps.
//!
//! A history is the sequence of steps that a stream has taken, calls and
//! events alike, each accepted by [`step`] in the state that the steps before
//! it led to. The theorems here speak of every history of a stream from its
//! beginning: from `Stream::open`, or from the announcement of a stream that
//! the peer started.

use crate::send::SendToken;
use crate::status::Error;
use crate::stream::{id_query, no_send_in_flight, step, StreamModel, StreamStep};
use vstd::prelude::*;

verus! {

/// The stream after the steps of `steps`, in order, or `None` where one of
/// them cannot happen.
pub open spec fn run(m: StreamModel, steps: Seq<StreamStep>) -> Option<StreamModel>
    decreases steps.len(),
{
    if steps.len() == 0 {
        Some(m)
    } else {
        match run(m, steps.drop_last()) {
            Some(before_last) => step(before_last, steps.last()),
            None => None,
        }
    }
}

/// How many sends were accepted under `token`.
pub open spec fn sends(steps: Seq<StreamStep>, token: SendToken) -> nat
    decreases steps.len(),
{
    if steps.len() == 0 {
        0
    } else {
        sends(steps.drop_last(), token) + if steps.last() matches StreamStep::Send {
            token: t,
            ..
        } && t == token {
            1nat
        } else {
            0nat
        }
    }
}

/// How many `SendComplete` events gave up the context of `token`.
pub open spec fn completions(steps: Seq<StreamStep>, token: SendToken) -> nat
    decreases steps.len(),
{
    if steps.len() == 0 {
        0
    } else {
        completions(steps.drop_last(), token) + if steps.last() matches StreamStep::SendComplete {
            token: t,
        } && t == token {
            1nat
        } else {
            0nat
        }
    }
}

/// A stream at the beginning of its history: as `Stream::open` makes it, or
/// as it is announced when the peer has started it.
pub open spec fn begins(m: StreamModel) -> bool {
    &&& m.phase is Created || m.phase is Active
    &&& m.phase is Created ==> m.id is None
    &&& !m.peer_fin
    &&& m.pending == Map::<SendToken, Seq<Seq<u8>>>::empty()
    &&& m.issued == Set::<SendToken>::empty()
}

/// Every beginning of a history is a history.
pub proof fn lemma_run_prefix(m: StreamModel, steps: Seq<StreamStep>, k: int)
    requires
        run(m, steps) is Some,
        0 <= k <= steps.len(),
    ensures
        run(m, steps.take(k)) is Some,
        k < steps.len() ==> step(run(m, steps.take(k))->Some_0, steps[k]) is Some,
        k < steps.len() ==> run(m, steps.take(k + 1)) == step(
            run(m, steps.take(k))->Some_0,
            steps[k],
        ),
    decreases steps.len(),
{
    if k == steps.len() {
        assert(steps.take(k) =~= steps);
    } else {
        let shorter = steps.drop_last();
        assert(run(m, shorter) is Some);
        if k == steps.len() - 1 {
            assert(steps.take(k) =~= shorter);
            assert(steps.take(k + 1) =~= steps);
        } else {
            lemma_run_prefix(m, shorter, k);
            assert(shorter.take(k) =~= steps.take(k));
            assert(shorter.take(k + 1) =~= steps.take(k + 1));
            assert(shorter[k] == steps[k]);
        }
    }
}

/// What the phase of a stream tells of its history.
proof fn lemma_phase_tells(m: StreamModel, steps: Seq<StreamStep>)
    requires
        begins(m),
        run(m, steps) is Some,
    ensures
        ({
            let now = run(m, steps)->Some_0;
            &&& (now.phase is Created || now.phase is Starting) ==> forall|i: int|
                0 <= i < steps.len() ==> !(#[trigger] steps[i]).is_event()
            &&& m.phase is Created && !(now.phase is Created || now.phase is Starting)
                ==> exists|i: int| 0 <= i < steps.len() && #[trigger] steps[i] is StartComplete
            &&& m.phase is Active ==> (now.phase is Active || now.phase is Closed) && now.id
                == m.id && forall|i: int|
                0 <= i < steps.len() ==> !(#[trigger] steps[i] is StartComplete)
            &&& !now.peer_fin ==> forall|i: int|
                0 <= i < steps.len() ==> !(#[trigger] steps[i] is PeerSendShutdown)
            &&& !(now.phase is Closed) ==> forall|i: int|
                0 <= i < steps.len() ==> !(#[trigger] steps[i] is ShutdownComplete)
            &&& now.phase is Closed ==> no_send_in_flight(now)
            &&& (now.phase is Created || now.phase is Starting) ==> now.id is None
        }),
    decreases steps.len(),
{
    if steps.len() > 0 {
        let shorter = steps.drop_last();
        let last = steps.last();
        lemma_phase_tells(m, shorter);
        let before = run(m, shorter)->Some_0;
        let now = run(m, steps)->Some_0;
        assert(step(before, last) == Some(now));
        assert(forall|i: int| 0 <= i < shorter.len() ==> shorter[i] == steps[i]);
        if m.phase is Created && !(now.phase is Created || now.phase is Starting) {
            if before.phase is Created || before.phase is Starting {
                assert(steps[steps.len() - 1] is StartComplete);
            } else {
                let i = choose|i: int| 0 <= i < shorter.len() && #[trigger] shorter[i] is StartComplete;
                assert(steps[i] is StartComplete);
            }
        }
    }
}

/// What the table of a stream tells of its history, for one token: the token
/// has been issued if and only if a send was accepted under it, which happens
/// at most once; and it is in flight if and only if that send has not been
/// completed.
proof fn lemma_table_tells(m: StreamModel, steps: Seq<StreamStep>, token: SendToken)
    requires
        begins(m),
        run(m, steps) is Some,
    ensures
        ({
            let now = run(m, steps)->Some_0;
            &&& sends(steps, token) == if now.issued.contains(token) {
                1nat
            } else {
                0nat
            }
            &&& completions(steps, token) == if now.issued.contains(token)
                && !now.pending.dom().contains(token) {
                1nat
            } else {
                0nat
            }
            &&& now.pending.dom().contains(token) ==> now.issued.contains(token)
        }),
    decreases steps.len(),
{
    if steps.len() > 0 {
        let shorter = steps.drop_last();
        lemma_table_tells(m, shorter, token);
        let before = run(m, shorter)->Some_0;
        let now = run(m, steps)->Some_0;
        assert(step(before, steps.last()) == Some(now));
    }
}

/// **Order of events.** In every history of a stream, for steps `i` before
/// `j`:
///
/// - `StartComplete` comes before every other event, and comes at most once:
///   if step `j` is `StartComplete`, step `i` is no event;
/// - after `PeerSendShutdown` there is no `Receive` and no second
///   `PeerSendShutdown`;
/// - after `ShutdownComplete` there is no event at all.
///
/// A `SendComplete` may follow `PeerSendShutdown`: a stream that answers its
/// peer sends after the peer has finished.
pub proof fn lemma_event_order(m: StreamModel, steps: Seq<StreamStep>, i: int, j: int)
    requires
        begins(m),
        run(m, steps) is Some,
        0 <= i < j < steps.len(),
    ensures
        steps[j] is StartComplete ==> !steps[i].is_event(),
        steps[i] is PeerSendShutdown ==> !(steps[j] is Receive) && !(steps[j] is PeerSendShutdown),
        steps[i] is ShutdownComplete ==> !steps[j].is_event(),
{
    lemma_run_prefix(m, steps, j);
    let earlier = steps.take(j);
    lemma_phase_tells(m, earlier);
    assert(earlier[i] == steps[i]);
}

/// **`StartComplete` comes first.** In every history of a stream that was
/// opened here, every event other than `StartComplete` has a `StartComplete`
/// before it.
pub proof fn lemma_started_before_events(m: StreamModel, steps: Seq<StreamStep>, j: int)
    requires
        begins(m),
        m.phase is Created,
        run(m, steps) is Some,
        0 <= j < steps.len(),
        steps[j].is_event(),
        !(steps[j] is StartComplete),
    ensures
        exists|i: int| 0 <= i < j && #[trigger] steps[i] is StartComplete,
{
    lemma_run_prefix(m, steps, j);
    let earlier = steps.take(j);
    lemma_phase_tells(m, earlier);
    let i = choose|i: int| 0 <= i < earlier.len() && #[trigger] earlier[i] is StartComplete;
    assert(steps[i] is StartComplete);
}

/// **Each send is completed once.** In every history of a stream and for
/// every token: at most one send is accepted under the token; its context is
/// given up by at most one `SendComplete`, and by none before the send; the
/// context is in flight exactly between the two; and once `ShutdownComplete`
/// has been taken, every send that was accepted has been completed.
pub proof fn lemma_send_completed_once(m: StreamModel, steps: Seq<StreamStep>, token: SendToken)
    requires
        begins(m),
        run(m, steps) is Some,
    ensures
        sends(steps, token) <= 1,
        completions(steps, token) <= sends(steps, token),
        run(m, steps)->Some_0.pending.dom().contains(token) <==> sends(steps, token) == 1
            && completions(steps, token) == 0,
        run(m, steps)->Some_0.phase is Closed ==> completions(steps, token) == sends(steps, token),
{
    lemma_table_tells(m, steps, token);
    lemma_phase_tells(m, steps);
}

/// **No completion without its send.** In every history of a stream, a
/// `SendComplete` is taken only for a token whose send was accepted earlier
/// and has not been completed yet.
pub proof fn lemma_completion_follows_send(m: StreamModel, steps: Seq<StreamStep>, j: int)
    requires
        begins(m),
        run(m, steps) is Some,
        0 <= j < steps.len(),
        steps[j] is SendComplete,
    ensures
        sends(steps.take(j), steps[j]->SendComplete_token) == 1,
        completions(steps.take(j), steps[j]->SendComplete_token) == 0,
{
    lemma_run_prefix(m, steps, j);
    lemma_table_tells(m, steps.take(j), steps[j]->SendComplete_token);
}

/// **The id is the one that `StartComplete` delivered.** In every history of
/// a stream in which `StartComplete` reported success with `id`, a query for
/// the stream's id answers `id`, however many steps later it is made.
pub proof fn lemma_id_is_delivered(m: StreamModel, steps: Seq<StreamStep>, i: int)
    requires
        begins(m),
        run(m, steps) is Some,
        0 <= i < steps.len(),
        steps[i] matches StreamStep::StartComplete { ok, .. } && ok,
    ensures
        id_query(run(m, steps)->Some_0) == Ok::<u64, Error>(steps[i]->StartComplete_id),
    decreases steps.len(),
{
    let shorter = steps.drop_last();
    let before = run(m, shorter)->Some_0;
    assert(step(before, steps.last()) == run(m, steps));
    lemma_phase_tells(m, shorter);
    if i < steps.len() - 1 {
        lemma_id_is_delivered(m, shorter, i);
        assert(shorter[i].is_event());
    }
}

/// **A stream of the peer keeps its id.** In every history of a stream that
/// the peer started there is no `StartComplete`, and a query for the stream's
/// id answers what it answered when the stream was announced.
pub proof fn lemma_peer_stream_keeps_id(m: StreamModel, steps: Seq<StreamStep>, j: int)
    requires
        begins(m),
        m.phase is Active,
        run(m, steps) is Some,
        0 <= j < steps.len(),
    ensures
        !(steps[j] is StartComplete),
        id_query(run(m, steps)->Some_0) == id_query(m),
{
    lemma_phase_tells(m, steps);
}

} // verus!
