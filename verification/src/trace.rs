//! Whole runs of the coordinator: the actions it asks for when it is fed a sequence of
//! completions, and what holds of every such run.

use vstd::prelude::*;

use crate::coordinator::{next, Action, ApiBinding, Completion, Coordinator, Lifecycle, Phase};
use crate::error::{Cause, SetupError};
use crate::geometry::PixelSize;
use crate::resources::{release_order, release_order_unfold, Resource};

verus! {

/// The phase reached from `phase` after the completions `inputs`, in order.
pub open spec fn phase_after(phase: Phase, inputs: Seq<Completion>) -> Phase
    decreases inputs.len(),
{
    if inputs.len() == 0 {
        phase
    } else {
        phase_after(next(phase, inputs[0]).0, inputs.drop_first())
    }
}

/// The actions asked for, one per completion, when `inputs` arrive in order from `phase`.
pub open spec fn actions(phase: Phase, inputs: Seq<Completion>) -> Seq<Action>
    decreases inputs.len(),
{
    if inputs.len() == 0 {
        Seq::empty()
    } else {
        seq![next(phase, inputs[0]).1] + actions(next(phase, inputs[0]).0, inputs.drop_first())
    }
}

/// How often `wanted` occurs in `actions`.
pub open spec fn occurrences(actions: Seq<Action>, wanted: Action) -> nat
    decreases actions.len(),
{
    if actions.len() == 0 {
        0
    } else {
        (if actions[0] == wanted {
            1nat
        } else {
            0nat
        }) + occurrences(actions.drop_first(), wanted)
    }
}

/// One action is asked for per completion.
pub proof fn actions_len(phase: Phase, inputs: Seq<Completion>)
    ensures
        actions(phase, inputs).len() == inputs.len(),
    decreases inputs.len(),
{
    if inputs.len() > 0 {
        actions_len(next(phase, inputs[0]).0, inputs.drop_first());
    }
}

/// The action at position `i` of a run is the one `next` gives in the phase reached after
/// the first `i` completions.
pub proof fn actions_index(phase: Phase, inputs: Seq<Completion>, i: int)
    requires
        0 <= i < inputs.len(),
    ensures
        actions(phase, inputs).len() == inputs.len(),
        actions(phase, inputs)[i] == next(phase_after(phase, inputs.take(i)), inputs[i]).1,
    decreases inputs.len(),
{
    actions_len(phase, inputs);
    let rest = inputs.drop_first();
    let after = next(phase, inputs[0]).0;
    actions_len(after, rest);
    if i == 0 {
        assert(inputs.take(0).len() == 0);
    } else {
        actions_index(after, rest, i - 1);
        assert(inputs.take(i).drop_first() =~= rest.take(i - 1));
        assert(inputs.take(i)[0] == inputs[0]);
    }
}

/// A run over `first + second` is the run over `first` followed by the run over `second`
/// from where the first one ended.
pub proof fn run_concat(phase: Phase, first: Seq<Completion>, second: Seq<Completion>)
    ensures
        phase_after(phase, first + second) == phase_after(phase_after(phase, first), second),
        actions(phase, first + second) == actions(phase, first) + actions(
            phase_after(phase, first),
            second,
        ),
    decreases first.len(),
{
    if first.len() == 0 {
        assert(first + second =~= second);
        assert(actions(phase, first) + actions(phase, second) =~= actions(phase, second));
    } else {
        let all = first + second;
        let after = next(phase, first[0]).0;
        assert(all[0] == first[0]);
        assert(all.drop_first() =~= first.drop_first() + second);
        run_concat(after, first.drop_first(), second);
        assert(actions(phase, all) =~= actions(phase, first) + actions(
            phase_after(phase, first),
            second,
        ));
    }
}

/// A run over one completion is one application of `next`.
pub proof fn single_step(phase: Phase, input: Completion)
    ensures
        actions(phase, seq![input]) == seq![next(phase, input).1],
        phase_after(phase, seq![input]) == next(phase, input).0,
{
    let one = seq![input];
    assert(one.drop_first() =~= Seq::<Completion>::empty());
    assert(actions(next(phase, input).0, one.drop_first()) =~= Seq::<Action>::empty());
    assert(phase_after(next(phase, input).0, one.drop_first()) == next(phase, input).0);
    assert(actions(phase, one) =~= seq![next(phase, input).1]);
}

/// Feeding one more completion appends one action and moves one phase on.
pub proof fn run_push(phase: Phase, inputs: Seq<Completion>, input: Completion)
    ensures
        phase_after(phase, inputs.push(input)) == next(phase_after(phase, inputs), input).0,
        actions(phase, inputs.push(input)) == actions(phase, inputs).push(
            next(phase_after(phase, inputs), input).1,
        ),
{
    assert(inputs.push(input) =~= inputs + seq![input]);
    run_concat(phase, inputs, seq![input]);
    single_step(phase_after(phase, inputs), input);
    assert(actions(phase, inputs) + seq![next(phase_after(phase, inputs), input).1]
        =~= actions(phase, inputs).push(next(phase_after(phase, inputs), input).1));
}

impl Coordinator {
    /// Feeds the completions to the coordinator in order and collects the actions it asks
    /// for, one per completion.
    pub fn replay(&mut self, inputs: &Vec<Completion>) -> (asked: Vec<Action>)
        ensures
            asked@ == actions(old(self)@, inputs@),
            final(self)@ == phase_after(old(self)@, inputs@),
    {
        let ghost start = self@;
        let mut asked: Vec<Action> = Vec::new();
        let mut i: usize = 0;
        while i < inputs.len()
            invariant
                0 <= i <= inputs.len(),
                self@ == phase_after(start, inputs@.take(i as int)),
                asked@ == actions(start, inputs@.take(i as int)),
            decreases inputs.len() - i,
        {
            let step = self.step(&inputs[i]);
            proof {
                assert(inputs@.take(i + 1) =~= inputs@.take(i as int).push(inputs@[i as int]));
                run_push(start, inputs@.take(i as int), inputs@[i as int]);
            }
            asked.push(step.action);
            i = i + 1;
        }
        proof {
            assert(inputs@.take(inputs.len() as int) =~= inputs@);
        }
        asked
    }
}

proof fn occurrences_cons(first: Action, rest: Seq<Action>, wanted: Action)
    ensures
        occurrences(seq![first] + rest, wanted) == (if first == wanted {
            1nat
        } else {
            0nat
        }) + occurrences(rest, wanted),
{
    let all = seq![first] + rest;
    assert(all[0] == first);
    assert(all.drop_first() =~= rest);
}

/// True until the rendering context has been asked to become current.
pub open spec fn before_activation(phase: Phase) -> bool {
    phase is Probing || phase is OpeningDisplay || phase is SelectingConfig
        || phase is CreatingSurface || phase is CreatingContext
}

proof fn activations_from(phase: Phase, inputs: Seq<Completion>)
    ensures
        !before_activation(phase) ==> occurrences(actions(phase, inputs), Action::MakeCurrent)
            == 0,
        before_activation(phase) ==> occurrences(actions(phase, inputs), Action::MakeCurrent)
            <= 1,
        before_activation(phase) && occurrences(actions(phase, inputs), Action::Receive) > 0
            ==> occurrences(actions(phase, inputs), Action::MakeCurrent) == 1,
        before_activation(phase) && phase_after(phase, inputs).lifecycle()
            == Lifecycle::Running ==> occurrences(actions(phase, inputs), Action::MakeCurrent)
            == 1,
        phase.lifecycle() == Lifecycle::Terminating ==> occurrences(
            actions(phase, inputs),
            Action::Receive,
        ) == 0 && phase_after(phase, inputs).lifecycle() == Lifecycle::Terminating,
    decreases inputs.len(),
{
    if inputs.len() > 0 {
        let (after, asked) = next(phase, inputs[0]);
        let rest = inputs.drop_first();
        activations_from(after, rest);
        occurrences_cons(asked, actions(after, rest), Action::MakeCurrent);
        occurrences_cons(asked, actions(after, rest), Action::Receive);
    }
}

/// The rendering context is made current at most once in a run, whatever the outside world
/// answers, and exactly once in every run that enters the event loop: one that asks for a
/// `Receive`, or one that ends in the running state.
pub proof fn activation_happens_once(inputs: Seq<Completion>)
    ensures
        occurrences(actions(Phase::Probing, inputs), Action::MakeCurrent) <= 1,
        occurrences(actions(Phase::Probing, inputs), Action::Receive) > 0 ==> occurrences(
            actions(Phase::Probing, inputs),
            Action::MakeCurrent,
        ) == 1,
        phase_after(Phase::Probing, inputs).lifecycle() == Lifecycle::Running ==> occurrences(
            actions(Phase::Probing, inputs),
            Action::MakeCurrent,
        ) == 1,
{
    activations_from(Phase::Probing, inputs);
}

/// Nothing leads back from the terminating state.
pub proof fn terminating_is_absorbing(phase: Phase, inputs: Seq<Completion>)
    requires
        phase.lifecycle() == Lifecycle::Terminating,
    ensures
        phase_after(phase, inputs).lifecycle() == Lifecycle::Terminating,
{
    activations_from(phase, inputs);
}

/// The `k`-th action of a teardown that starts with `newest` as the most recently
/// constructed resource: the releases in `release_order`, then `Exit` for ever.
pub open spec fn teardown_action(newest: Option<Resource>, k: int) -> Action {
    if 0 <= k < release_order(newest).len() {
        Action::Release { resource: release_order(newest)[k] }
    } else {
        Action::Exit
    }
}

proof fn teardown_from(phase: Phase, inputs: Seq<Completion>, i: int)
    requires
        phase.lifecycle() == Lifecycle::Terminating,
        0 <= i < inputs.len(),
    ensures
        actions(phase, inputs).len() == inputs.len(),
        actions(phase, inputs)[i] == teardown_action(phase.newest_held(), i),
    decreases inputs.len(),
{
    actions_len(phase, inputs);
    let (after, asked) = next(phase, inputs[0]);
    let rest = inputs.drop_first();
    actions_len(after, rest);
    match phase.newest_held() {
        Some(r) => {
            release_order_unfold(r);
        },
        None => {
            assert(release_order(None).len() == 0);
        },
    }
    if i > 0 {
        teardown_from(after, rest, i - 1);
        assert(actions(phase, inputs)[i] == actions(after, rest)[i - 1]);
    }
}

/// On every way out, what is held is released newest first, down to the oldest, and then
/// the thread exits.
///
/// When a completion makes a coordinator leave, the action it answers with and every
/// action after it follow `teardown_action` for the resources held at that moment: those
/// of the phase, less the rendering context when it was its activation that failed.
pub proof fn held_resources_are_released_newest_first(
    phase: Phase,
    input: Completion,
    rest: Seq<Completion>,
    k: int,
)
    requires
        phase.lifecycle() != Lifecycle::Terminating,
        next(phase, input).0.lifecycle() == Lifecycle::Terminating,
        0 <= k <= rest.len(),
    ensures
        actions(phase, seq![input] + rest).len() == rest.len() + 1,
        actions(phase, seq![input] + rest)[k] == teardown_action(
            if phase is Activating && input is Failed {
                Some(Resource::WindowSurface)
            } else {
                phase.newest_held()
            },
            k,
        ),
{
    let inputs = seq![input] + rest;
    let (after, asked) = next(phase, input);
    let held = if phase is Activating && input is Failed {
        Some(Resource::WindowSurface)
    } else {
        phase.newest_held()
    };
    assert(inputs[0] == input);
    assert(inputs.drop_first() =~= rest);
    actions_len(phase, inputs);
    actions_len(after, rest);
    match held {
        Some(r) => {
            release_order_unfold(r);
        },
        None => {
            assert(release_order(None).len() == 0);
        },
    }
    if k > 0 {
        teardown_from(after, rest, k - 1);
        assert(actions(phase, inputs)[k] == actions(after, rest)[k - 1]);
    }
}

/// A coordinator that leaves its running state releases the render bridge, the playback
/// engine, the rendering context, the window surface and the GPU display, in this order,
/// and then exits.
pub proof fn running_coordinator_releases_bridge_first_display_last(
    phase: Phase,
    input: Completion,
    rest: Seq<Completion>,
)
    requires
        phase.lifecycle() == Lifecycle::Running,
        next(phase, input).0.lifecycle() == Lifecycle::Terminating,
        rest.len() >= 5,
    ensures
        actions(phase, seq![input] + rest).take(6) == seq![
            Action::Release { resource: Resource::RenderBridge },
            Action::Release { resource: Resource::PlaybackEngine },
            Action::Release { resource: Resource::RenderingContext },
            Action::Release { resource: Resource::WindowSurface },
            Action::Release { resource: Resource::GpuDisplay },
            Action::Exit,
        ],
{
    let run = actions(phase, seq![input] + rest);
    reveal_with_fuel(release_order, 6);
    held_resources_are_released_newest_first(phase, input, rest, 0);
    held_resources_are_released_newest_first(phase, input, rest, 1);
    held_resources_are_released_newest_first(phase, input, rest, 2);
    held_resources_are_released_newest_first(phase, input, rest, 3);
    held_resources_are_released_newest_first(phase, input, rest, 4);
    held_resources_are_released_newest_first(phase, input, rest, 5);
    assert(run.take(6) =~= seq![
        Action::Release { resource: Resource::RenderBridge },
        Action::Release { resource: Resource::PlaybackEngine },
        Action::Release { resource: Resource::RenderingContext },
        Action::Release { resource: Resource::WindowSurface },
        Action::Release { resource: Resource::GpuDisplay },
        Action::Exit,
    ]);
}

/// A window that reports a zero width or height is turned away with `HandleUnavailable`
/// before anything is asked of the GPU: every action of such a run is `Exit`.
pub proof fn zero_sized_window_is_turned_away(size: PixelSize, rest: Seq<Completion>, k: int)
    requires
        size.has_zero_dimension(),
        0 <= k <= rest.len(),
    ensures
        next(Phase::Probing, Completion::Probed(size)) == (
            Phase::Terminated { cause: Cause::Setup(SetupError::HandleUnavailable) },
            Action::Exit,
        ),
        actions(Phase::Probing, seq![Completion::Probed(size)] + rest).len() == rest.len() + 1,
        actions(Phase::Probing, seq![Completion::Probed(size)] + rest)[k] == Action::Exit,
{
    held_resources_are_released_newest_first(Phase::Probing, Completion::Probed(size), rest, k);
    assert(release_order(None).len() == 0);
}

/// No surface is ever asked for with a zero width or height, from whatever phase a run
/// starts and whatever it is fed.
pub proof fn surfaces_are_never_zero_sized(phase: Phase, inputs: Seq<Completion>, i: int)
    requires
        0 <= i < inputs.len(),
    ensures
        actions(phase, inputs).len() == inputs.len(),
        actions(phase, inputs)[i] matches Action::CreateSurface { size, .. }
            ==> !size.has_zero_dimension(),
{
    actions_index(phase, inputs, i);
}

/// The completions of a setup in which the window is usable, the native binding opens the
/// display, `configs` configurations fit, and every later step succeeds.
pub open spec fn smooth_setup(size: PixelSize, configs: usize) -> Seq<Completion> {
    seq![
        Completion::Probed(size),
        Completion::Done,
        Completion::Configs(configs),
        Completion::Done,
        Completion::Done,
        Completion::Done,
        Completion::Done,
        Completion::Done,
        Completion::Done,
        Completion::Done,
    ]
}

/// When nothing fails, the objects are constructed in one fixed order: display,
/// configuration, surface, context, activation, engine, bridge, callbacks, and the load
/// command. The surface gets the size that was probed and the first configuration found.
/// The coordinator is idle afterwards, waiting for its first event.
pub proof fn setup_follows_construction_order(size: PixelSize, configs: usize)
    requires
        !size.has_zero_dimension(),
        configs > 0,
    ensures
        actions(Phase::Probing, smooth_setup(size, configs)) == seq![
            Action::CreateDisplay { binding: ApiBinding::Native },
            Action::SelectConfig,
            Action::CreateSurface { config: 0, size },
            Action::CreateContext,
            Action::MakeCurrent,
            Action::CreateEngine,
            Action::CreateBridge,
            Action::InstallCallbacks,
            Action::Load,
            Action::Receive,
        ],
        phase_after(Phase::Probing, smooth_setup(size, configs)) == Phase::Idle,
{
    let done = Completion::Done;
    let s0 = Seq::<Completion>::empty();
    let s1 = s0.push(Completion::Probed(size));
    let s2 = s1.push(done);
    let s3 = s2.push(Completion::Configs(configs));
    let s4 = s3.push(done);
    let s5 = s4.push(done);
    let s6 = s5.push(done);
    let s7 = s6.push(done);
    let s8 = s7.push(done);
    let s9 = s8.push(done);
    let s10 = s9.push(done);
    assert(actions(Phase::Probing, s0) =~= Seq::<Action>::empty());
    run_push(Phase::Probing, s0, Completion::Probed(size));
    run_push(Phase::Probing, s1, done);
    run_push(Phase::Probing, s2, Completion::Configs(configs));
    run_push(Phase::Probing, s3, done);
    run_push(Phase::Probing, s4, done);
    run_push(Phase::Probing, s5, done);
    run_push(Phase::Probing, s6, done);
    run_push(Phase::Probing, s7, done);
    run_push(Phase::Probing, s8, done);
    run_push(Phase::Probing, s9, done);
    assert(s10 =~= smooth_setup(size, configs));
    assert(actions(Phase::Probing, s10) =~= seq![
        Action::CreateDisplay { binding: ApiBinding::Native },
        Action::SelectConfig,
        Action::CreateSurface { config: 0, size },
        Action::CreateContext,
        Action::MakeCurrent,
        Action::CreateEngine,
        Action::CreateBridge,
        Action::InstallCallbacks,
        Action::Load,
        Action::Receive,
    ]);
}

/// A frame is drawn and presented only under the current context: when a run asks for a
/// `Render` or a `SwapBuffers`, the context has been made current exactly once before,
/// and nothing has been released yet.
pub proof fn drawing_happens_under_the_current_context(inputs: Seq<Completion>, i: int)
    requires
        0 <= i < inputs.len(),
        actions(Phase::Probing, inputs)[i] is Render || actions(Phase::Probing, inputs)[i]
            == Action::SwapBuffers,
    ensures
        occurrences(actions(Phase::Probing, inputs.take(i)), Action::MakeCurrent) == 1,
        forall|j: int|
            0 <= j < i ==> !(#[trigger] actions(Phase::Probing, inputs)[j] is Release)
                && actions(Phase::Probing, inputs)[j] != Action::Exit,
{
    let start = Phase::Probing;
    actions_index(start, inputs, i);
    let here = phase_after(start, inputs.take(i));
    assert(here.lifecycle() == Lifecycle::Running);
    activation_happens_once(inputs.take(i));
    assert forall|j: int| 0 <= j < i implies !(#[trigger] actions(start, inputs)[j] is Release)
        && actions(start, inputs)[j] != Action::Exit by {
        actions_index(start, inputs, j);
        let before = inputs.take(j);
        let upto = inputs.take(j + 1);
        assert(upto =~= before.push(inputs[j]));
        run_push(start, before, inputs[j]);
        if actions(start, inputs)[j] is Release || actions(start, inputs)[j] == Action::Exit {
            assert(phase_after(start, upto).lifecycle() == Lifecycle::Terminating);
            assert(inputs.take(i) =~= upto + inputs.subrange(j + 1, i));
            run_concat(start, upto, inputs.subrange(j + 1, i));
            terminating_is_absorbing(phase_after(start, upto), inputs.subrange(j + 1, i));
        }
    }
}

impl Lifecycle {
    /// The position of this state in the order in which a run passes through them.
    pub open spec fn order(self) -> nat {
        match self {
            Lifecycle::Starting => 0,
            Lifecycle::Running => 1,
            Lifecycle::Terminating => 2,
        }
    }
}

/// A run moves from starting to running to terminating and never back.
pub proof fn lifecycle_never_goes_back(phase: Phase, inputs: Seq<Completion>)
    ensures
        phase.lifecycle().order() <= phase_after(phase, inputs).lifecycle().order(),
    decreases inputs.len(),
{
    if inputs.len() > 0 {
        lifecycle_never_goes_back(next(phase, inputs[0]).0, inputs.drop_first());
    }
}

/// A teardown comes to its end, and remembers why it began: a coordinator that is on its
/// way out has released everything after five more completions at the latest, with the
/// cause it left for.
pub proof fn teardown_finishes(phase: Phase, inputs: Seq<Completion>)
    requires
        phase.lifecycle() == Lifecycle::Terminating,
    ensures
        phase_after(phase, inputs).cause() == phase.cause(),
        inputs.len() >= 5 ==> phase_after(phase, inputs) is Terminated,
        match phase.newest_held() {
            Some(r) => inputs.len() > r.rank() + 1,
            None => inputs.len() > 0 || phase is Terminated,
        } ==> phase_after(phase, inputs) is Terminated,
    decreases inputs.len(),
{
    if inputs.len() > 0 {
        teardown_finishes(next(phase, inputs[0]).0, inputs.drop_first());
    }
}

} // verus!
