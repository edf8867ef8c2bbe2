use vstd::prelude::*;

use crate::bounce::{next_rays, spawned_by, spawned_upto, step_segments, Outcome, Ray, Segment};
use crate::tracer::TraceState;

verus! {

/// The outcomes of a step in which the scene acts on each ray as `trace` says.
pub open spec fn traced_outcomes<P>(trace: spec_fn(Ray<P>) -> Outcome<P>, rays: Seq<Ray<P>>) -> Seq<
    Outcome<P>,
> {
    rays.map_values(trace)
}

/// The segments that steps `step .. max_steps` draw, starting from the active
/// rays `rays`, in a scene that acts on each ray as `trace` says.
pub open spec fn run<P>(
    trace: spec_fn(Ray<P>) -> Outcome<P>,
    rays: Seq<Ray<P>>,
    step: nat,
    max_steps: nat,
) -> Seq<Segment<P>>
    decreases max_steps - step,
{
    if step < max_steps {
        let outcomes = traced_outcomes(trace, rays);
        step_segments(step as u8, rays, outcomes) + run(trace, next_rays(outcomes), step + 1, max_steps)
    } else {
        seq![]
    }
}

/// The state of a tracer started on `rays` after `k` steps, each fed the
/// outcomes that `trace` gives its active rays.
pub open spec fn traced<P>(
    trace: spec_fn(Ray<P>) -> Outcome<P>,
    rays: Seq<Ray<P>>,
    max_steps: nat,
    k: nat,
) -> TraceState<P>
    decreases k,
{
    if k == 0 {
        TraceState::start(rays, max_steps)
    } else {
        let s = traced(trace, rays, max_steps, (k - 1) as nat);
        s.advance(traced_outcomes(trace, s.active))
    }
}

/// The number of (ray, step) pairs active over `steps` steps from `rays`.
pub open spec fn active_pairs<P>(trace: spec_fn(Ray<P>) -> Outcome<P>, rays: Seq<Ray<P>>, steps: nat) -> nat
    decreases steps,
{
    if steps == 0 {
        0
    } else {
        rays.len() + active_pairs(trace, next_rays(traced_outcomes(trace, rays)), (steps - 1) as nat)
    }
}

proof fn lemma_traced_on_path<P>(
    trace: spec_fn(Ray<P>) -> Outcome<P>,
    rays: Seq<Ray<P>>,
    max_steps: nat,
    k: nat,
)
    requires
        k <= max_steps,
    ensures
        traced(trace, rays, max_steps, k).step == k,
        traced(trace, rays, max_steps, k).max_steps == max_steps,
        traced(trace, rays, max_steps, k).lines + run(
            trace,
            traced(trace, rays, max_steps, k).active,
            k,
            max_steps,
        ) == run(trace, rays, 0, max_steps),
    decreases k,
{
    if k == 0 {
        assert(seq![] + run(trace, rays, 0, max_steps) =~= run(trace, rays, 0, max_steps));
    } else {
        let k1 = (k - 1) as nat;
        lemma_traced_on_path(trace, rays, max_steps, k1);
        let s = traced(trace, rays, max_steps, k1);
        let o = traced_outcomes(trace, s.active);
        let segs = step_segments(k1 as u8, s.active, o);
        let rest = run(trace, next_rays(o), k, max_steps);
        assert(run(trace, s.active, k1, max_steps) == segs + rest);
        assert((s.lines + segs) + rest =~= s.lines + (segs + rest));
    }
}

/// A tracer fed, at every step, the outcomes that one scene gives its active
/// rays ends the frame holding exactly the segments that the whole simulation
/// of that scene draws.
pub proof fn lemma_tracer_draws_run<P>(
    trace: spec_fn(Ray<P>) -> Outcome<P>,
    rays: Seq<Ray<P>>,
    max_steps: nat,
)
    ensures
        traced(trace, rays, max_steps, max_steps).done(),
        traced(trace, rays, max_steps, max_steps).lines == run(trace, rays, 0, max_steps),
{
    lemma_traced_on_path(trace, rays, max_steps, max_steps);
    let s = traced(trace, rays, max_steps, max_steps);
    assert(s.lines + seq![] =~= s.lines);
}

/// The segment sequence of a frame has exactly one entry per (ray, step) pair
/// that was active at that step, and the entries of one step start at the
/// origins of that step's rays, in order, tagged with the step.
pub proof fn lemma_one_segment_per_active_ray<P>(
    trace: spec_fn(Ray<P>) -> Outcome<P>,
    rays: Seq<Ray<P>>,
    step: nat,
    max_steps: nat,
)
    requires
        step < max_steps,
    ensures
        run(trace, rays, step, max_steps).len() == active_pairs(trace, rays, (max_steps - step) as nat),
        forall|i: int|
            0 <= i < rays.len() ==> {
                &&& #[trigger] run(trace, rays, step, max_steps)[i].start == rays[i].origin
                &&& run(trace, rays, step, max_steps)[i].step == step as u8
            },
    decreases max_steps - step,
{
    lemma_run_len(trace, rays, step, max_steps);
}

proof fn lemma_run_len<P>(trace: spec_fn(Ray<P>) -> Outcome<P>, rays: Seq<Ray<P>>, step: nat, max_steps: nat)
    ensures
        run(trace, rays, step, max_steps).len() == active_pairs(
            trace,
            rays,
            if step <= max_steps { (max_steps - step) as nat } else { 0 },
        ),
    decreases max_steps - step,
{
    if step < max_steps {
        lemma_run_len(trace, next_rays(traced_outcomes(trace, rays)), step + 1, max_steps);
    }
}

proof fn lemma_no_hits_spawn_nothing<P>(outcomes: Seq<Outcome<P>>, n: nat)
    requires
        n <= outcomes.len(),
        forall|i: int| 0 <= i < outcomes.len() ==> outcomes[i] is Escape,
    ensures
        spawned_upto(outcomes, n) == Seq::<Ray<P>>::empty(),
    decreases n,
{
    if n > 0 {
        lemma_no_hits_spawn_nothing(outcomes, (n - 1) as nat);
        assert(spawned_by(outcomes[n - 1]) =~= Seq::<Ray<P>>::empty());
        assert(spawned_upto(outcomes, n) =~= Seq::<Ray<P>>::empty());
    }
}

proof fn lemma_run_of_nothing<P>(trace: spec_fn(Ray<P>) -> Outcome<P>, step: nat, max_steps: nat)
    ensures
        run(trace, Seq::<Ray<P>>::empty(), step, max_steps) == Seq::<Segment<P>>::empty(),
    decreases max_steps - step,
{
    if step < max_steps {
        let none = Seq::<Ray<P>>::empty();
        let o = traced_outcomes(trace, none);
        lemma_no_hits_spawn_nothing(o, 0);
        assert(next_rays(o) =~= none);
        lemma_run_of_nothing(trace, step + 1, max_steps);
        assert(run(trace, none, step, max_steps) =~= Seq::<Segment<P>>::empty());
    }
}

/// In a scene that no ray hits (a scene without spheres), a frame draws one
/// escape segment per initial ray, all in step 0 and in the order of the
/// rays, and no further bounces.
pub proof fn lemma_no_hits_single_pass<P>(
    trace: spec_fn(Ray<P>) -> Outcome<P>,
    rays: Seq<Ray<P>>,
    max_steps: nat,
)
    requires
        max_steps >= 1,
        forall|r: Ray<P>| #[trigger] trace(r) is Escape,
    ensures
        run(trace, rays, 0, max_steps) == Seq::new(
            rays.len(),
            |i: int|
                Segment { start: rays[i].origin, end: trace(rays[i])->Escape_end, step: 0u8 },
        ),
{
    let o = traced_outcomes(trace, rays);
    lemma_no_hits_spawn_nothing(o, o.len());
    lemma_run_of_nothing(trace, 1, max_steps);
    assert(run(trace, rays, 0, max_steps) =~= Seq::new(
        rays.len(),
        |i: int|
            Segment { start: rays[i].origin, end: trace(rays[i])->Escape_end, step: 0u8 },
    ));
}

/// The simulation is deterministic: two scenes that act alike on every ray
/// give the same initial rays the same segment sequence.
pub proof fn lemma_run_deterministic<P>(
    trace1: spec_fn(Ray<P>) -> Outcome<P>,
    trace2: spec_fn(Ray<P>) -> Outcome<P>,
    rays: Seq<Ray<P>>,
    max_steps: nat,
)
    requires
        forall|r: Ray<P>| #[trigger] trace1(r) == trace2(r),
    ensures
        run(trace1, rays, 0, max_steps) == run(trace2, rays, 0, max_steps),
{
    assert(trace1 =~= trace2);
}

} // verus!
