use ray_bounce::bounce::{bounce_step, Outcome, Ray, Segment};
use ray_bounce::tracer::{Tracer, BOUNCE_STEPS};

type P3 = [f32; 3];

fn ray(origin: P3, direction: P3) -> Ray<P3> {
    Ray { origin, direction }
}

fn run_frame<F: Fn(&Ray<P3>) -> Outcome<P3>>(rays: Vec<Ray<P3>>, scene: F) -> Vec<Segment<P3>> {
    let mut tracer = Tracer::new(rays, BOUNCE_STEPS);
    while !tracer.is_done() {
        let outcomes: Vec<Outcome<P3>> = tracer.active().iter().map(|r| scene(r)).collect();
        tracer.advance(outcomes);
    }
    tracer.into_lines()
}

fn escape(r: &Ray<P3>) -> Outcome<P3> {
    let d = r.direction;
    let len = (d[0] * d[0] + d[1] * d[1] + d[2] * d[2]).sqrt();
    Outcome::Escape {
        end: [
            r.origin[0] + 1000.0 * d[0] / len,
            r.origin[1] + 1000.0 * d[1] / len,
            r.origin[2] + 1000.0 * d[2] / len,
        ],
    }
}

#[test]
fn empty_scene_draws_one_escape_per_ray() {
    let rays = vec![
        ray([0.0, 0.0, -5.0], [0.0, 0.0, 1.0]),
        ray([1.0, 2.0, 3.0], [1.0, 1.0, 0.0]),
        ray([-0.5, 0.0, 0.0], [0.0, 2.0, 0.0]),
    ];
    let lines = run_frame(rays.clone(), escape);
    assert_eq!(lines.len(), 3);
    for (line, r) in lines.iter().zip(rays.iter()) {
        assert_eq!(line.step, 0);
        assert_eq!(line.start, r.origin);
    }
    assert_eq!(lines[0].end, [0.0, 0.0, 995.0]);
    assert_eq!(lines[2].end, [-0.5, 1000.0, 0.0]);
}

#[test]
fn head_on_sphere_scenario() {
    // Sphere at the origin with radius 1, seen from (0,0,-5) along +z: the ray
    // hits at (0,0,-1), bounces straight back, and escapes.
    let scene = |r: &Ray<P3>| {
        if r.origin == [0.0, 0.0, -5.0] && r.direction == [0.0, 0.0, 1.0] {
            Outcome::Hit { at: [0.0, 0.0, -1.0], reflected: [0.0, 0.0, -1.0] }
        } else {
            escape(r)
        }
    };
    let lines = run_frame(vec![ray([0.0, 0.0, -5.0], [0.0, 0.0, 1.0])], scene);
    assert_eq!(
        lines,
        vec![
            Segment { start: [0.0, 0.0, -5.0], end: [0.0, 0.0, -1.0], step: 0 },
            Segment { start: [0.0, 0.0, -1.0], end: [0.0, 0.0, -1001.0], step: 1 },
        ]
    );
    let s = &lines[1];
    let len = ((s.end[0] - s.start[0]).powi(2) + (s.end[1] - s.start[1]).powi(2)
        + (s.end[2] - s.start[2]).powi(2))
    .sqrt();
    assert_eq!(len, 1000.0);
}

#[test]
fn reflected_ray_starts_at_hit() {
    let mut tracer = Tracer::new(vec![ray([0.0, 0.0, -5.0], [0.0, 0.0, 1.0])], BOUNCE_STEPS);
    tracer.advance(vec![Outcome::Hit { at: [0.0, 0.0, -1.0], reflected: [0.0, 0.0, -1.0] }]);
    assert_eq!(tracer.step(), 1);
    assert_eq!(tracer.active(), &vec![ray([0.0, 0.0, -1.0], [0.0, 0.0, -1.0])]);
    assert_eq!(tracer.lines().len(), 1);
}

#[test]
fn frame_runs_fixed_steps_after_all_escape() {
    let mut tracer = Tracer::new(vec![ray([0.0, 0.0, 0.0], [1.0, 0.0, 0.0])], BOUNCE_STEPS);
    assert_eq!(tracer.max_steps(), 3);
    tracer.advance(vec![Outcome::Escape { end: [1000.0, 0.0, 0.0] }]);
    assert!(tracer.active().is_empty());
    assert!(!tracer.is_done());
    tracer.advance(vec![]);
    assert!(!tracer.is_done());
    tracer.advance(vec![]);
    assert!(tracer.is_done());
    assert_eq!(tracer.step(), 3);
    assert_eq!(tracer.lines().len(), 1);
}

#[test]
fn repeated_frames_are_identical() {
    let rays: Vec<Ray<P3>> = (0..8)
        .map(|i| ray([i as f32 * 0.1, 0.0, -5.0], [0.0, 0.0, 1.0]))
        .collect();
    let scene = |r: &Ray<P3>| {
        if r.direction[2] > 0.0 && r.origin[0] < 0.45 {
            Outcome::Hit { at: [r.origin[0], 0.0, -1.0], reflected: [0.3, 0.0, -1.0] }
        } else {
            escape(r)
        }
    };
    let a = run_frame(rays.clone(), scene);
    let b = run_frame(rays, scene);
    assert_eq!(a.len(), 13);
    let bits = |v: &Vec<Segment<P3>>| -> Vec<u32> {
        v.iter()
            .flat_map(|s| s.start.iter().chain(s.end.iter()).map(|x| x.to_bits()).chain([s.step as u32]))
            .collect()
    };
    assert_eq!(bits(&a), bits(&b));
}

#[test]
fn bounce_step_keeps_ray_order() {
    let rays: Vec<Ray<i64>> = vec![
        Ray { origin: 1, direction: 10 },
        Ray { origin: 2, direction: 20 },
        Ray { origin: 3, direction: 30 },
    ];
    let outcomes = vec![
        Outcome::Hit { at: 11, reflected: -10 },
        Outcome::Escape { end: 1002 },
        Outcome::Hit { at: 33, reflected: -30 },
    ];
    let mut lines = vec![Segment { start: 0, end: 0, step: 0 }];
    let next = bounce_step(2, &rays, &outcomes, &mut lines);
    assert_eq!(
        lines,
        vec![
            Segment { start: 0, end: 0, step: 0 },
            Segment { start: 1, end: 11, step: 2 },
            Segment { start: 2, end: 1002, step: 2 },
            Segment { start: 3, end: 33, step: 2 },
        ]
    );
    assert_eq!(
        next,
        vec![Ray { origin: 11, direction: -10 }, Ray { origin: 33, direction: -30 }]
    );
}

#[test]
fn empty_frame_draws_nothing() {
    let lines = run_frame(vec![], escape);
    assert!(lines.is_empty());
}
