//! The objects the render thread owns, and the order in which it gives them up.

use vstd::prelude::*;

verus! {

/// An object owned by the render thread. The variants are listed in construction order.
#[derive(Clone, Copy, Debug, PartialEq, Eq, Structural)]
pub enum Resource {
    /// The connection to the platform's graphics driver stack.
    GpuDisplay,
    /// The drawable bound to the host window.
    WindowSurface,
    /// The thread-affine rendering context.
    RenderingContext,
    /// The media engine instance.
    PlaybackEngine,
    /// The mediator that lets the engine draw into the rendering context.
    RenderBridge,
}

impl Resource {
    /// Position in construction order, starting at zero.
    pub open spec fn rank(self) -> nat {
        match self {
            Resource::GpuDisplay => 0,
            Resource::WindowSurface => 1,
            Resource::RenderingContext => 2,
            Resource::PlaybackEngine => 3,
            Resource::RenderBridge => 4,
        }
    }

    /// The resource constructed immediately before this one, if any.
    pub open spec fn before(self) -> Option<Resource> {
        match self {
            Resource::GpuDisplay => None,
            Resource::WindowSurface => Some(Resource::GpuDisplay),
            Resource::RenderingContext => Some(Resource::WindowSurface),
            Resource::PlaybackEngine => Some(Resource::RenderingContext),
            Resource::RenderBridge => Some(Resource::PlaybackEngine),
        }
    }

    /// Position in construction order, starting at zero.
    pub fn construction_rank(self) -> (r: u8)
        ensures
            r == self.rank(),
    {
        match self {
            Resource::GpuDisplay => 0,
            Resource::WindowSurface => 1,
            Resource::RenderingContext => 2,
            Resource::PlaybackEngine => 3,
            Resource::RenderBridge => 4,
        }
    }

    /// The resource constructed immediately before this one, if any.
    pub fn predecessor(self) -> (p: Option<Resource>)
        ensures
            p == self.before(),
    {
        match self {
            Resource::GpuDisplay => None,
            Resource::WindowSurface => Some(Resource::GpuDisplay),
            Resource::RenderingContext => Some(Resource::WindowSurface),
            Resource::PlaybackEngine => Some(Resource::RenderingContext),
            Resource::RenderBridge => Some(Resource::PlaybackEngine),
        }
    }
}

/// The order in which everything is given up when `newest` is the most recently constructed
/// resource: `newest` first, then each earlier resource in turn. Empty when nothing is held.
pub open spec fn release_order(newest: Option<Resource>) -> Seq<Resource>
    decreases
        match newest {
            Some(r) => r.rank() + 1,
            None => 0,
        },
{
    match newest {
        None => Seq::empty(),
        Some(r) => seq![r] + release_order(r.before()),
    }
}

/// Unfolds `release_order` one step.
pub proof fn release_order_unfold(r: Resource)
    ensures
        release_order(Some(r)) == seq![r] + release_order(r.before()),
        release_order(None) == Seq::<Resource>::empty(),
        release_order(Some(r)).len() == r.rank() + 1,
        release_order(Some(r))[0] == r,
{
    reveal_with_fuel(release_order, 6);
}

/// The resources to release, in order, when `newest` is the most recently constructed one.
pub fn release_plan(newest: Option<Resource>) -> (plan: Vec<Resource>)
    ensures
        plan@ == release_order(newest),
{
    let mut plan: Vec<Resource> = Vec::new();
    let mut next = newest;
    while next.is_some()
        invariant
            plan@ + release_order(next) == release_order(newest),
        decreases
            match next {
                Some(r) => r.rank() + 1,
                None => 0,
            },
    {
        let r = next.unwrap();
        proof {
            release_order_unfold(r);
            assert(plan@.push(r) + release_order(r.before()) =~= plan@ + release_order(Some(r)));
        }
        plan.push(r);
        next = r.predecessor();
    }
    proof {
        assert(plan@ + release_order(None) =~= plan@);
    }
    plan
}

} // verus!
