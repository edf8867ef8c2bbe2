use vstd::prelude::*;

use crate::bounce::{bounce_step, next_rays, step_segments, Outcome, Ray, Segment};

verus! {

/// The number of bounce steps that one frame runs.
pub const BOUNCE_STEPS: u8 = 3;

/// The abstract state of a frame's simulation.
pub struct TraceState<P> {
    /// The bounce step about to run (0-based).
    pub step: nat,
    /// The fixed number of steps of the frame.
    pub max_steps: nat,
    /// The rays that the coming step tests, in order.
    pub active: Seq<Ray<P>>,
    /// Every segment drawn so far, in the order drawn.
    pub lines: Seq<Segment<P>>,
}

impl<P> TraceState<P> {
    /// The state before the first step: every initial ray active, nothing drawn.
    pub open spec fn start(rays: Seq<Ray<P>>, max_steps: nat) -> Self {
        TraceState { step: 0, max_steps, active: rays, lines: seq![] }
    }

    /// The step counter never passes the step budget, and every segment
    /// drawn carries the tag of a step that has already run.
    pub open spec fn wf(self) -> bool {
        &&& self.step <= self.max_steps
        &&& self.max_steps <= u8::MAX
        &&& forall|i: int| 0 <= i < self.lines.len() ==> self.lines[i].step < self.step
    }

    /// All steps of the frame have run.
    pub open spec fn done(self) -> bool {
        self.step >= self.max_steps
    }

    /// The state after one step whose active rays met `outcomes`, one per ray.
    pub open spec fn advance(self, outcomes: Seq<Outcome<P>>) -> Self {
        TraceState {
            step: self.step + 1,
            max_steps: self.max_steps,
            active: next_rays(outcomes),
            lines: self.lines + step_segments(self.step as u8, self.active, outcomes),
        }
    }
}

/// The simulation of one frame, advanced one bounce step at a time.
///
/// Each step, the caller works out what the scene does to every active ray and
/// hands the outcomes to `advance`; the tracer records one segment per active
/// ray and keeps the reflected rays for the next step. The frame runs a fixed
/// number of steps, whether or not any ray is still active.
pub struct Tracer<P> {
    step: u8,
    max_steps: u8,
    active: Vec<Ray<P>>,
    lines: Vec<Segment<P>>,
}

impl<P> View for Tracer<P> {
    type V = TraceState<P>;

    closed spec fn view(&self) -> TraceState<P> {
        TraceState {
            step: self.step as nat,
            max_steps: self.max_steps as nat,
            active: self.active@,
            lines: self.lines@,
        }
    }
}

impl<P> Tracer<P> {
    #[verifier::type_invariant]
    spec fn inv(self) -> bool {
        self@.wf()
    }
}

impl<P: Copy> Tracer<P> {
    /// Starts a frame with the initial rays, to run `max_steps` bounce steps.
    pub fn new(rays: Vec<Ray<P>>, max_steps: u8) -> (r: Self)
        ensures
            r@ == TraceState::start(rays@, max_steps as nat),
            r@.wf(),
    {
        Tracer { step: 0, max_steps, active: rays, lines: Vec::new() }
    }

    /// Whether every step of the frame has run.
    pub fn is_done(&self) -> (r: bool)
        ensures
            r == self@.done(),
    {
        self.step >= self.max_steps
    }

    /// The bounce step about to run.
    pub fn step(&self) -> (r: u8)
        ensures
            r as nat == self@.step,
    {
        self.step
    }

    /// The number of steps the frame runs.
    pub fn max_steps(&self) -> (r: u8)
        ensures
            r as nat == self@.max_steps,
    {
        self.max_steps
    }

    /// The rays that the coming step tests, in order.
    pub fn active(&self) -> (r: &Vec<Ray<P>>)
        ensures
            r@ == self@.active,
    {
        &self.active
    }

    /// The segments drawn so far, in the order drawn.
    pub fn lines(&self) -> (r: &Vec<Segment<P>>)
        ensures
            r@ == self@.lines,
    {
        &self.lines
    }

    /// Ends the frame, handing over the segments drawn.
    pub fn into_lines(self) -> (r: Vec<Segment<P>>)
        ensures
            r@ == self@.lines,
    {
        self.lines
    }

    /// Runs one bounce step. `outcomes[i]` is what the scene made of the
    /// `i`-th active ray: each active ray draws one segment, tagged with the
    /// current step, and each hit spawns the reflected ray for the next step.
    pub fn advance(&mut self, outcomes: Vec<Outcome<P>>)
        requires
            !old(self)@.done(),
            outcomes.len() == old(self)@.active.len(),
        ensures
            final(self)@ == old(self)@.advance(outcomes@),
            final(self)@.wf(),
    {
        proof {
            use_type_invariant(&*self);
        }
        let ghost before = self@;
        let mut lines: Vec<Segment<P>> = Vec::new();
        std::mem::swap(&mut lines, &mut self.lines);
        let next = bounce_step(self.step, &self.active, &outcomes, &mut lines);
        self.step = self.step + 1;
        assert forall|i: int| 0 <= i < lines@.len() implies lines@[i].step < self.step by {
            if i >= before.lines.len() {
                assert(lines@[i] == step_segments(
                    (self.step - 1) as u8,
                    self.active@,
                    outcomes@,
                )[i - before.lines.len()]);
            }
        }
        self.lines = lines;
        self.active = next;
    }
}

} // verus!
