//! The library driven by `f32` geometry: the layout decides which point goes
//! where, the points come from the path.

use cgmath::{Basis2, Deg, InnerSpace, Rotation, Rotation2, Vector2};
use svgtess::{interior_count, Anchor, ArcSweep, Direction, JointType, StrokeBuilder, Turn};

type Point = Vector2<f32>;

fn to_right(v1: Point, v2: Point) -> bool {
    cgmath::dot(v1, Vector2::new(-v2.y, v2.x)) > 0.0
}

fn meet(pa0: Point, pa1: Point, pb0: Point, pb1: Point) -> Point {
    let a1 = pa1.y - pa0.y;
    let b1 = pa0.x - pa1.x;
    let c1 = (a1 * pa0.x) + (b1 * pa0.y);
    let a2 = pb1.y - pb0.y;
    let b2 = pb0.x - pb1.x;
    let c2 = (a2 * pb0.x) + (b2 * pb0.y);
    let determinant = (a1 * b2) - (a2 * b1);
    Vector2::new((b2 * c1 - b1 * c2) / determinant, (a1 * c2 - a2 * c1) / determinant)
}

fn normal(side: Direction, edge: Point) -> Point {
    let quarter = side.normal_turns() as f32;
    Vector2::new(-edge.y * quarter, edge.x * quarter).normalize()
}

struct Joint {
    cap: [Point; 2],
    outer_first: Point,
    inner: Point,
    tip: Point,
    arc: Vec<Point>,
    outer_second: Point,
}

fn place(vertices: &mut Vec<Point>, layout: &[Anchor], from: usize, joint: &Joint) {
    for anchor in &layout[from..] {
        vertices.push(match *anchor {
            Anchor::CapOuter => joint.cap[0],
            Anchor::CapInner => joint.cap[1],
            Anchor::OuterFirst => joint.outer_first,
            Anchor::InnerJoint => joint.inner,
            Anchor::MiterTip => joint.tip,
            Anchor::Arc(step) => joint.arc[step as usize - 1],
            Anchor::OuterSecond => joint.outer_second,
        });
    }
}

fn stroke(points: &[Point], thickness: f32, jtype: JointType) -> (Vec<Point>, Vec<u16>, Vec<Anchor>) {
    let joints = interior_count(points.len()).unwrap();
    let half = 0.5 * thickness;
    let start_edge = points[1] - points[0];
    let next_edge = if joints > 0 { points[2] - points[1] } else { Vector2::unit_x() };
    let first = Direction::of_turn(to_right(start_edge, next_edge));
    let start_normal = normal(first, start_edge);
    let zero = Vector2::new(0.0, 0.0);
    let mut at = Joint {
        cap: [points[0] + start_normal * half, points[0] - start_normal * half],
        outer_first: zero,
        inner: zero,
        tip: zero,
        arc: Vec::new(),
        outer_second: zero,
    };
    let mut vertices = Vec::new();
    let mut builder = StrokeBuilder::begin(jtype, first);
    place(&mut vertices, builder.layout(), 0, &at);
    at.cap = [points[1] + start_normal * half, points[1] - start_normal * half];
    for i in 0..joints {
        let edge1 = points[i + 1] - points[i];
        let edge2 = points[i + 2] - points[i + 1];
        let side = Direction::of_turn(to_right(edge1, edge2));
        let n1 = normal(side, edge1);
        let n2 = normal(side, edge2);
        let (before_last, last) = builder.latest();
        let pa0 = vertices[before_last as usize];
        let pb0 = vertices[last as usize];
        let pa1 = points[i + 1] + n1 * half;
        let pb1 = points[i + 1] - n1 * half;
        let pc0 = points[i + 1] + n2 * half;
        let pc1 = points[i + 2] + n2 * half;
        let pd0 = points[i + 1] - n2 * half;
        let pd1 = points[i + 2] - n2 * half;
        let inner = meet(pb0, pb1, pd0, pd1);
        at = Joint {
            cap: [pc1, pd1],
            outer_first: inner + n1 * thickness,
            inner,
            tip: meet(pa0, pa1, pc0, pc1),
            arc: Vec::new(),
            outer_second: inner + n2 * thickness,
        };
        let mut turn = Turn { side, sweep: 0 };
        if jtype == JointType::Round {
            let step: Basis2<f32> = Rotation2::from_angle(Deg(0.5 * side.sweep_step() as f32));
            let target = n2 * thickness;
            let mut sample = step.rotate_vector(n1 * thickness);
            at.arc.push(inner + sample);
            let mut sweep = ArcSweep::begin(side);
            while sweep.advance(to_right(sample, target)) {
                sample = step.rotate_vector(sample);
                at.arc.push(inner + sample);
            }
            turn = sweep.turn();
        }
        let placed = builder.vertex_count();
        builder.join(turn).unwrap();
        place(&mut vertices, builder.layout(), placed, &at);
    }
    let placed = builder.vertex_count();
    let mesh = builder.finish().unwrap();
    place(&mut vertices, &mesh.layout, placed, &at);
    assert_eq!(vertices.len(), mesh.layout.len());
    (vertices, mesh.indices, mesh.layout)
}

fn p(x: f32, y: f32) -> Point {
    Vector2::new(x, y)
}

fn close(a: Point, b: Point) -> bool {
    (a - b).magnitude() < 1e-4
}

fn signed_area(a: Point, b: Point, c: Point) -> f32 {
    0.5 * ((b.x - a.x) * (c.y - a.y) - (c.x - a.x) * (b.y - a.y))
}

const STYLES: [JointType; 3] = [JointType::Miter, JointType::Bevel, JointType::Round];

#[test]
fn straight_stroke_is_a_rectangle() {
    for jtype in STYLES {
        let (vertices, indices, _) = stroke(&[p(0.0, 0.0), p(10.0, 0.0)], 1.0, jtype);
        assert_eq!(vertices, vec![p(0.0, -0.5), p(0.0, 0.5), p(10.0, -0.5), p(10.0, 0.5)]);
        assert_eq!(indices, vec![1, 3, 2, 2, 0, 1]);
        let area: f32 = indices
            .chunks(3)
            .map(|t| {
                signed_area(vertices[t[0] as usize], vertices[t[1] as usize], vertices[t[2] as usize])
                    .abs()
            })
            .sum();
        assert!((area - 10.0).abs() < 1e-4);
    }
}

#[test]
fn right_angle_miter_reaches_the_corner_of_the_outer_rails() {
    let path = [p(0.0, 0.0), p(10.0, 0.0), p(10.0, 10.0)];
    let (vertices, _, layout) = stroke(&path, 2.0, JointType::Miter);
    let tip = layout.iter().position(|a| *a == Anchor::MiterTip).unwrap();
    // The outer rails are y = -1 and x = 11.
    assert!(close(vertices[tip], p(11.0, -1.0)));
    let inner = layout.iter().position(|a| *a == Anchor::InnerJoint).unwrap();
    assert!(close(vertices[inner], p(9.0, 1.0)));
    assert!(close(vertices[2], p(9.0, -1.0)));
    assert!(close(vertices[5], p(11.0, 1.0)));
    assert!(close(vertices[6], p(11.0, 10.0)));
    assert!(close(vertices[7], p(9.0, 10.0)));
}

#[test]
fn right_angle_bevel_cuts_the_corner() {
    let path = [p(0.0, 0.0), p(10.0, 0.0), p(10.0, 10.0)];
    let (vertices, indices, layout) = stroke(&path, 2.0, JointType::Bevel);
    assert!(!layout.contains(&Anchor::MiterTip));
    let expected =
        [p(0.0, -1.0), p(0.0, 1.0), p(9.0, -1.0), p(9.0, 1.0), p(11.0, 1.0), p(11.0, 10.0), p(9.0, 10.0)];
    assert_eq!(vertices.len(), expected.len());
    for (got, want) in vertices.iter().zip(expected.iter()) {
        assert!(close(*got, *want), "{:?} is not {:?}", got, want);
    }
    // No vertex reaches the miter tip: all stay short of the corner of the outer rails.
    for vertex in &vertices {
        assert!((vertex - p(11.0, -1.0)).magnitude() >= 2.0 - 1e-4);
    }
    assert_eq!(indices[6..9], [3, 4, 2]);
}

#[test]
fn right_angle_round_fan_lies_on_a_circle_in_even_steps() {
    let path = [p(0.0, 0.0), p(10.0, 0.0), p(10.0, 10.0)];
    let (vertices, indices, layout) = stroke(&path, 2.0, JointType::Round);
    let centre = vertices[5];
    assert!(close(centre, p(9.0, 1.0)));
    let rim: Vec<usize> = (0..layout.len())
        .filter(|i| matches!(layout[*i], Anchor::Arc(_)) || *i == 4 || layout[*i] == Anchor::OuterSecond)
        .collect();
    assert!((rim.len() as i32 - 182).abs() <= 1);
    for i in &rim {
        assert!(((vertices[*i] - centre).magnitude() - 2.0).abs() < 1e-3);
    }
    let arc: Vec<Point> = rim[..rim.len() - 1].iter().map(|i| vertices[*i] - centre).collect();
    for pair in arc.windows(2) {
        let between = (cgmath::dot(pair[0], pair[1]) / 4.0).min(1.0).acos().to_degrees();
        assert!((between - 0.5).abs() < 0.05, "step of {} degrees", between);
    }
    for index in &indices {
        assert!((*index as usize) < vertices.len());
    }
}

#[test]
fn stroke_is_the_same_every_time() {
    let path = [p(0.0, 0.0), p(4.0, 1.0), p(6.0, 5.0), p(3.0, 8.0), p(7.0, 9.0)];
    for jtype in STYLES {
        let (vertices, indices, layout) = stroke(&path, 0.5, jtype);
        let (again, indices_again, layout_again) = stroke(&path, 0.5, jtype);
        assert_eq!(layout, layout_again);
        assert_eq!(indices, indices_again);
        assert_eq!(vertices.len(), again.len());
        for (a, b) in vertices.iter().zip(again.iter()) {
            assert_eq!(a.x.to_bits(), b.x.to_bits());
            assert_eq!(a.y.to_bits(), b.y.to_bits());
        }
    }
}

#[test]
fn every_index_of_a_stroke_names_a_vertex() {
    let path = [p(0.0, 0.0), p(4.0, 1.0), p(6.0, 5.0), p(3.0, 8.0), p(7.0, 9.0), p(7.0, 2.0)];
    for jtype in STYLES {
        let (vertices, indices, _) = stroke(&path, 0.3, jtype);
        assert_eq!(indices.len() % 3, 0);
        assert!(indices.iter().all(|i| (*i as usize) < vertices.len()));
    }
}

#[test]
fn stroke_without_thickness_collapses_onto_the_path() {
    let path = [p(0.0, 0.0), p(10.0, 0.0), p(10.0, 10.0)];
    for jtype in STYLES {
        let (vertices, indices, _) = stroke(&path, 0.0, jtype);
        assert_eq!(indices.len(), 3 * (vertices.len() - 2));
        assert!(close(vertices[0], p(0.0, 0.0)));
        assert!(close(vertices[1], p(0.0, 0.0)));
        for vertex in &vertices[2..vertices.len() - 2] {
            assert!(close(*vertex, p(10.0, 0.0)));
        }
        assert!(close(vertices[vertices.len() - 1], p(10.0, 10.0)));
    }
}

#[test]
fn stroke_over_a_point_twice_still_ends() {
    let path = [p(0.0, 0.0), p(1.0, 0.0), p(1.0, 0.0), p(2.0, 0.0)];
    let (vertices, indices, _) = stroke(&path, 1.0, JointType::Round);
    assert_eq!(indices.len(), 3 * (vertices.len() - 2));
    assert!(indices.iter().all(|i| (*i as usize) < vertices.len()));
}

/// The triangles of a stroke: the anchors of the corners, the signed area,
/// and whether two corners are one point.
fn windings(path: &[Point], jtype: JointType) -> Vec<([Anchor; 3], f32, bool)> {
    let (vertices, indices, layout) = stroke(path, 2.0, jtype);
    indices
        .chunks(3)
        .map(|t| {
            let [a, b, c] = [t[0] as usize, t[1] as usize, t[2] as usize];
            let [pa, pb, pc] = [vertices[a], vertices[b], vertices[c]];
            (
                [layout[a], layout[b], layout[c]],
                signed_area(pa, pb, pc),
                pa == pb || pb == pc || pa == pc,
            )
        })
        .collect()
}

const LEFT_BEND: [(f32, f32); 5] = [(0.0, 0.0), (10.0, 0.0), (17.0, 7.0), (17.0, 17.0), (10.0, 24.0)];

#[test]
fn convex_miter_and_bevel_strokes_wind_one_way() {
    for mirror in [1.0f32, -1.0] {
        let path: Vec<Point> = LEFT_BEND.iter().map(|(x, y)| p(*x, *y * mirror)).collect();
        for jtype in [JointType::Miter, JointType::Bevel] {
            let areas = windings(&path, jtype);
            assert_eq!(areas.len(), if jtype == JointType::Miter { 14 } else { 11 });
            for (_, area, flat) in &areas {
                // A left bend winds every triangle clockwise, a right bend the other way.
                assert!(!flat);
                assert!(*area * mirror < -1e-3, "{:?}", areas);
            }
        }
    }
}

#[test]
fn convex_round_stroke_winds_one_way_but_for_the_end_of_each_fan() {
    for mirror in [1.0f32, -1.0] {
        let path: Vec<Point> = LEFT_BEND.iter().map(|(x, y)| p(*x, *y * mirror)).collect();
        let areas = windings(&path, JointType::Round);
        let mut slivers = 0;
        let mut flat = 0;
        for (corners, area, ties_copy) in &areas {
            let closes_fan = matches!(corners, [Anchor::InnerJoint, Anchor::OuterSecond, Anchor::Arc(_)]);
            if closes_fan {
                // The last sample has passed the target, so the triangle that
                // closes the fan is a sliver that may wind either way.
                assert!(area.abs() < 0.05);
                slivers += 1;
            } else if *ties_copy {
                // The inner joint and its copy are one point.
                assert_eq!(corners[1..], [Anchor::InnerJoint, Anchor::InnerJoint]);
                assert_eq!(*area, 0.0);
                flat += 1;
            } else {
                assert!(*area * mirror < -1e-3, "{:?} has area {}", corners, area);
            }
        }
        assert_eq!(slivers, 3);
        assert_eq!(flat, 3);
    }
}
