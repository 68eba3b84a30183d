//! The event loop against a scripted outside world.
//!
//! A script lists what arrives on the channel and, for each arrival, what the window and
//! the engine answer while it is handled. The theorems here say what the coordinator asks
//! for when it runs against any such script.

use vstd::prelude::*;

use crate::coordinator::{render_action, Action, Completion, Event, Phase};
use crate::engine::EngineEvent;
use crate::error::Cause;
use crate::geometry::PixelSize;
use crate::resources::Resource;
use crate::trace::{
    actions, actions_len, held_resources_are_released_newest_first, phase_after, run_concat,
    single_step, teardown_action,
};

verus! {

/// One arrival on the channel, with what the outside world answers while it is handled.
pub enum Arrival {
    /// A frame is ready, and the window has this size when it is asked.
    Frame { size: PixelSize },
    /// The engine signals, and these events are waiting in its queue.
    Signal { queued: Seq<EngineEvent> },
}

/// The completions that report each of `queued` in turn.
pub open spec fn polls(queued: Seq<EngineEvent>) -> Seq<Completion> {
    Seq::new(queued.len(), |i: int| Completion::Polled(Some(queued[i])))
}

/// True when no event of `queued` ends the run.
pub open spec fn all_benign(queued: Seq<EngineEvent>) -> bool {
    forall|i: int| 0 <= i < queued.len() ==> (#[trigger] queued[i]).is_benign()
}

impl Arrival {
    /// The event that is pushed into the channel.
    pub open spec fn event(self) -> Event {
        match self {
            Arrival::Frame { .. } => Event::Redraw,
            Arrival::Signal { .. } => Event::EngineSignal,
        }
    }

    /// True when handling this arrival does not end the run.
    pub open spec fn is_benign(self) -> bool {
        match self {
            Arrival::Frame { .. } => true,
            Arrival::Signal { queued } => all_benign(queued),
        }
    }

    /// The completions the coordinator is given from the receipt of this arrival until it
    /// has been handled, with every GPU call succeeding: first the event itself, as the
    /// channel yields it, then what the window or the engine answers.
    pub open spec fn answers(self) -> Seq<Completion> {
        seq![Completion::Received(Some(self.event()))] + match self {
            Arrival::Frame { size } => seq![
                Completion::Measured(Some(size)),
                Completion::Done,
                Completion::Done,
            ],
            Arrival::Signal { queued } => polls(queued) + seq![Completion::Polled(None)],
        }
    }

    /// What handling this arrival consists of, ending with the request for the next event:
    /// a frame is measured, drawn at the size just measured, and presented; a signal has
    /// the engine polled once per queued event and once more to find the queue empty.
    pub open spec fn handling(self) -> Seq<Action> {
        match self {
            Arrival::Frame { size } => seq![
                Action::QuerySize,
                render_action(size),
                Action::SwapBuffers,
                Action::Receive,
            ],
            Arrival::Signal { queued } => Seq::new(queued.len() + 1, |i: int| Action::PollEngine)
                + seq![Action::Receive],
        }
    }
}

/// The completions of a whole script, arrival after arrival.
pub open spec fn script_answers(script: Seq<Arrival>) -> Seq<Completion>
    decreases script.len(),
{
    if script.len() == 0 {
        Seq::empty()
    } else {
        script[0].answers() + script_answers(script.drop_first())
    }
}

/// The handling of each arrival of a script, in the order of arrival.
pub open spec fn script_handling(script: Seq<Arrival>) -> Seq<Action>
    decreases script.len(),
{
    if script.len() == 0 {
        Seq::empty()
    } else {
        script[0].handling() + script_handling(script.drop_first())
    }
}

proof fn drain_benign(queued: Seq<EngineEvent>)
    requires
        all_benign(queued),
    ensures
        actions(Phase::Draining, polls(queued)) == Seq::new(
            queued.len(),
            |i: int| Action::PollEngine,
        ),
        phase_after(Phase::Draining, polls(queued)) == Phase::Draining,
    decreases queued.len(),
{
    if queued.len() > 0 {
        let rest = queued.drop_first();
        assert(queued[0].is_benign());
        assert(polls(queued)[0] == Completion::Polled(Some(queued[0])));
        assert(polls(queued).drop_first() =~= polls(rest));
        assert(all_benign(rest)) by {
            assert forall|i: int| 0 <= i < rest.len() implies (#[trigger] rest[i]).is_benign() by {
                assert(queued[i + 1].is_benign());
            }
        }
        drain_benign(rest);
        assert(actions(Phase::Draining, polls(queued)) =~= Seq::new(
            queued.len(),
            |i: int| Action::PollEngine,
        ));
    } else {
        assert(actions(Phase::Draining, polls(queued)) =~= Seq::new(
            queued.len(),
            |i: int| Action::PollEngine,
        ));
    }
}

/// An engine signal has the whole queue drained before the channel is read again: with
/// `queued.len()` events waiting, none of which ends the run, the engine is polled
/// `queued.len() + 1` times, and only then is the next event asked for.
pub proof fn queue_is_drained_before_the_next_receive(queued: Seq<EngineEvent>)
    requires
        all_benign(queued),
    ensures
        actions(Phase::Idle, (Arrival::Signal { queued }).answers()) == Seq::new(
            queued.len() + 1,
            |i: int| Action::PollEngine,
        ) + seq![Action::Receive],
        phase_after(Phase::Idle, (Arrival::Signal { queued }).answers()) == Phase::Idle,
{
    let head = seq![Completion::Received(Some(Event::EngineSignal))];
    let tail = seq![Completion::Polled(None)];
    single_step(Phase::Idle, head[0]);
    single_step(Phase::Draining, tail[0]);
    drain_benign(queued);
    run_concat(Phase::Idle, head, polls(queued));
    run_concat(Phase::Idle, head + polls(queued), tail);
    assert((Arrival::Signal { queued }).answers() =~= head + polls(queued) + tail);
    assert(actions(Phase::Idle, head + polls(queued) + tail) =~= Seq::new(
        queued.len() + 1,
        |i: int| Action::PollEngine,
    ) + seq![Action::Receive]);
}

/// A frame is drawn at the size the window has when it is asked, and then presented.
pub proof fn frame_is_drawn_at_the_size_just_measured(size: PixelSize)
    ensures
        actions(Phase::Idle, (Arrival::Frame { size }).answers()) == seq![
            Action::QuerySize,
            render_action(size),
            Action::SwapBuffers,
            Action::Receive,
        ],
        phase_after(Phase::Idle, (Arrival::Frame { size }).answers()) == Phase::Idle,
{
    let a = seq![Completion::Received(Some(Event::Redraw))];
    let b = seq![Completion::Measured(Some(size))];
    let c = seq![Completion::Done];
    single_step(Phase::Idle, a[0]);
    single_step(Phase::Measuring, b[0]);
    single_step(Phase::Rendering, c[0]);
    single_step(Phase::Presenting, c[0]);
    run_concat(Phase::Idle, a, b);
    run_concat(Phase::Idle, a + b, c);
    run_concat(Phase::Idle, a + b + c, c);
    assert((Arrival::Frame { size }).answers() =~= a + b + c + c);
    assert(actions(Phase::Idle, a + b + c + c) =~= seq![
        Action::QuerySize,
        render_action(size),
        Action::SwapBuffers,
        Action::Receive,
    ]);
}

proof fn arrival_is_handled(arrival: Arrival)
    requires
        arrival.is_benign(),
    ensures
        actions(Phase::Idle, arrival.answers()) == arrival.handling(),
        phase_after(Phase::Idle, arrival.answers()) == Phase::Idle,
{
    match arrival {
        Arrival::Frame { size } => {
            frame_is_drawn_at_the_size_just_measured(size);
        },
        Arrival::Signal { queued } => {
            queue_is_drained_before_the_next_receive(queued);
        },
    }
}

/// Events are handled in the order in which they arrive, each one completely before the
/// next is read: against any script in which nothing ends the run, the coordinator asks
/// for the handling of the first arrival, then for that of the second, and so on, and is
/// idle again at the end.
pub proof fn events_are_handled_in_arrival_order(script: Seq<Arrival>)
    requires
        forall|i: int| 0 <= i < script.len() ==> (#[trigger] script[i]).is_benign(),
    ensures
        actions(Phase::Idle, script_answers(script)) == script_handling(script),
        phase_after(Phase::Idle, script_answers(script)) == Phase::Idle,
    decreases script.len(),
{
    if script.len() > 0 {
        let rest = script.drop_first();
        assert(script[0].is_benign());
        assert forall|i: int| 0 <= i < rest.len() implies (#[trigger] rest[i]).is_benign() by {
            assert(script[i + 1].is_benign());
        }
        arrival_is_handled(script[0]);
        events_are_handled_in_arrival_order(rest);
        run_concat(Phase::Idle, script[0].answers(), script_answers(rest));
    }
}

/// Two frames with a resize between them are each drawn at the size measured for it.
pub proof fn resize_between_frames_is_honoured(first: PixelSize, second: PixelSize)
    ensures
        actions(
            Phase::Idle,
            (Arrival::Frame { size: first }).answers() + (Arrival::Frame {
                size: second,
            }).answers(),
        ) == seq![
            Action::QuerySize,
            render_action(first),
            Action::SwapBuffers,
            Action::Receive,
            Action::QuerySize,
            render_action(second),
            Action::SwapBuffers,
            Action::Receive,
        ],
{
    let one = (Arrival::Frame { size: first }).answers();
    let two = (Arrival::Frame { size: second }).answers();
    frame_is_drawn_at_the_size_just_measured(first);
    frame_is_drawn_at_the_size_just_measured(second);
    run_concat(Phase::Idle, one, two);
    assert(actions(Phase::Idle, one + two) =~= seq![
        Action::QuerySize,
        render_action(first),
        Action::SwapBuffers,
        Action::Receive,
        Action::QuerySize,
        render_action(second),
        Action::SwapBuffers,
        Action::Receive,
    ]);
}

/// Draining stops at the first event that ends the run. With the events before position
/// `k` harmless and the one at `k` the end of the media or an error, the engine is polled
/// for the events up to `k` and never again: the action at `k` releases the render bridge,
/// and every later one belongs to the teardown, whatever else is reported.
pub proof fn draining_stops_at_the_first_final_event(
    queued: Seq<EngineEvent>,
    k: int,
    later: Seq<Completion>,
    i: int,
)
    requires
        0 <= k < queued.len(),
        all_benign(queued.take(k)),
        !queued[k].is_benign(),
        0 <= i < k + 1 + later.len(),
    ensures
        actions(Phase::Draining, polls(queued.take(k + 1)) + later).len() == k + 1 + later.len(),
        actions(Phase::Draining, polls(queued.take(k + 1)) + later)[i] == if i < k {
            Action::PollEngine
        } else {
            teardown_action(Some(Resource::RenderBridge), i - k)
        },
        actions(Phase::Draining, polls(queued.take(k + 1)) + later)[i] != Action::Receive,
        i >= k ==> actions(Phase::Draining, polls(queued.take(k + 1)) + later)[i]
            != Action::PollEngine,
        phase_after(Phase::Draining, polls(queued.take(k + 1))) == (Phase::Releasing {
            resource: Resource::RenderBridge,
            cause: if queued[k] is EndOfMedia {
                Cause::EndOfMedia
            } else {
                Cause::EngineError
            },
        }),
{
    let before = polls(queued.take(k));
    let last = Completion::Polled(Some(queued[k]));
    assert(polls(queued.take(k + 1)) =~= before + seq![last]);
    drain_benign(queued.take(k));
    single_step(Phase::Draining, last);
    run_concat(Phase::Draining, before, seq![last]);
    run_concat(Phase::Draining, before, seq![last] + later);
    assert(before + (seq![last] + later) =~= polls(queued.take(k + 1)) + later);
    let run = actions(Phase::Draining, polls(queued.take(k + 1)) + later);
    actions_len(Phase::Draining, polls(queued.take(k + 1)) + later);
    actions_len(Phase::Draining, seq![last] + later);
    if i >= k {
        held_resources_are_released_newest_first(Phase::Draining, last, later, i - k);
        assert(run[i] == actions(Phase::Draining, seq![last] + later)[i - k]);
    } else {
        assert(run[i] == actions(Phase::Draining, before)[i]);
    }
}

} // verus!
