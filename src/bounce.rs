use vstd::prelude::*;

verus! {

/// A ray: a point of origin and a direction along which geometry is tested.
/// The direction need not have unit length.
#[derive(Clone, Copy, Debug, PartialEq, Eq)]
pub struct Ray<P> {
    pub origin: P,
    pub direction: P,
}

/// A drawable line from `start` to `end`, tagged with the bounce step that produced it.
#[derive(Clone, Copy, Debug, PartialEq, Eq)]
pub struct Segment<P> {
    pub start: P,
    pub end: P,
    pub step: u8,
}

/// What the scene geometry made of one ray in one step.
#[derive(Clone, Copy, Debug, PartialEq, Eq)]
pub enum Outcome<P> {
    /// The ray struck a surface at `at` and bounces off along `reflected`.
    Hit { at: P, reflected: P },
    /// The ray left the scene; its escape line ends at `end`.
    Escape { end: P },
}

/// The segment that one ray draws in step `step`, given its outcome.
pub open spec fn segment_for<P>(step: u8, ray: Ray<P>, outcome: Outcome<P>) -> Segment<P> {
    match outcome {
        Outcome::Hit { at, .. } => Segment { start: ray.origin, end: at, step },
        Outcome::Escape { end } => Segment { start: ray.origin, end, step },
    }
}

/// The ray that bounces off a hit; an escaping ray spawns nothing.
pub open spec fn spawned_by<P>(outcome: Outcome<P>) -> Seq<Ray<P>> {
    match outcome {
        Outcome::Hit { at, reflected } => seq![Ray { origin: at, direction: reflected }],
        Outcome::Escape { .. } => seq![],
    }
}

/// One segment per active ray, in the order of the rays.
pub open spec fn step_segments<P>(step: u8, rays: Seq<Ray<P>>, outcomes: Seq<Outcome<P>>) -> Seq<
    Segment<P>,
> {
    Seq::new(rays.len(), |i: int| segment_for(step, rays[i], outcomes[i]))
}

/// The rays active in the next step: those spawned by the first `n` outcomes, in order.
pub open spec fn spawned_upto<P>(outcomes: Seq<Outcome<P>>, n: nat) -> Seq<Ray<P>>
    decreases n,
{
    if n == 0 {
        seq![]
    } else {
        spawned_upto(outcomes, (n - 1) as nat) + spawned_by(outcomes[n - 1])
    }
}

/// The rays active in the next step.
pub open spec fn next_rays<P>(outcomes: Seq<Outcome<P>>) -> Seq<Ray<P>> {
    spawned_upto(outcomes, outcomes.len())
}

/// The segment one ray draws in step `step`.
pub fn segment_of<P: Copy>(step: u8, ray: &Ray<P>, outcome: &Outcome<P>) -> (r: Segment<P>)
    ensures
        r == segment_for(step, *ray, *outcome),
{
    match outcome {
        Outcome::Hit { at, .. } => Segment { start: ray.origin, end: *at, step },
        Outcome::Escape { end } => Segment { start: ray.origin, end: *end, step },
    }
}

/// Runs one bounce step: appends one segment per active ray to `lines`, in the
/// order of the rays, and returns the rays that the hits spawn.
pub fn bounce_step<P: Copy>(
    step: u8,
    rays: &Vec<Ray<P>>,
    outcomes: &Vec<Outcome<P>>,
    lines: &mut Vec<Segment<P>>,
) -> (next: Vec<Ray<P>>)
    requires
        outcomes.len() == rays.len(),
    ensures
        final(lines)@ == old(lines)@ + step_segments(step, rays@, outcomes@),
        next@ == next_rays(outcomes@),
{
    let ghost start = lines@;
    let mut next: Vec<Ray<P>> = Vec::new();
    let mut i: usize = 0;
    while i < rays.len()
        invariant
            outcomes.len() == rays.len(),
            i <= rays.len(),
            lines@ == start + step_segments(step, rays@.take(i as int), outcomes@),
            next@ == spawned_upto(outcomes@, i as nat),
        decreases rays.len() - i,
    {
        let seg = segment_of(step, &rays[i], &outcomes[i]);
        lines.push(seg);
        match &outcomes[i] {
            Outcome::Hit { at, reflected } => {
                next.push(Ray { origin: *at, direction: *reflected });
            },
            Outcome::Escape { .. } => {},
        }
        assert(step_segments(step, rays@.take(i + 1), outcomes@) =~= step_segments(
            step,
            rays@.take(i as int),
            outcomes@,
        ).push(seg));
        assert(spawned_upto(outcomes@, (i + 1) as nat) =~= next@);
        i = i + 1;
    }
    assert(rays@.take(rays.len() as int) =~= rays@);
    next
}

} // verus!
