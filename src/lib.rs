/// One bounce step: the segments that the active rays draw and the rays that hits spawn.
pub mod bounce;
/// The simulation of a whole frame as a function of the scene, and the laws it obeys.
pub mod simulation;
/// A frame's simulation, advanced one step at a time.
pub mod tracer;
