//! The mathematical model of a stroke mesh and the plain data around it.
//!
//! A stroke is modelled as a list of anchors, one per vertex in buffer
//! order, and a flat list of positions into it, three per triangle. The
//! functions here say what the start cap, each joint and the end cap add to
//! both lists.

use vstd::prelude::*;
use crate::joint::{Direction, JointType};

verus! {

/// The largest number of vertices a mesh may hold, so that every position
/// fits a 16-bit index.
pub const VERTEX_LIMIT: usize = 65535;

/// What a vertex of the mesh stands for.
#[derive(Clone, Copy, Debug, PartialEq, Eq, Structural)]
pub enum Anchor {
    /// An end point of the path, offset by half the thickness to the outer
    /// side of the nearest turn.
    CapOuter,
    /// An end point of the path, offset by half the thickness to the inner
    /// side.
    CapInner,
    /// The inner joint moved out by the full thickness along the normal of
    /// the incoming segment.
    OuterFirst,
    /// The point where the inner rails of two neighbouring segments meet.
    InnerJoint,
    /// The point where the outer rails of two neighbouring segments meet.
    MiterTip,
    /// A point of the arc around the inner joint, the given number of sweep
    /// steps past the first outer anchor. Counted from one.
    Arc(u16),
    /// The inner joint moved out by the full thickness along the normal of
    /// the outgoing segment.
    OuterSecond,
}

/// What the geometry reports of one interior vertex.
#[derive(Clone, Copy, Debug, PartialEq, Eq, Structural)]
pub struct Turn {
    /// The side to which the path turns.
    pub side: Direction,
    /// How many times the arc sweep went on after its first sample. Only a
    /// round joint reads it.
    pub sweep: u16,
}

/// Why a mesh could not be built.
#[derive(Clone, Copy, Debug, PartialEq, Eq, Structural)]
pub enum MeshError {
    /// The path has fewer than two points.
    TooFewPoints,
    /// The mesh would hold more than [`VERTEX_LIMIT`] vertices.
    VertexLimit,
}

/// A finished mesh as a mathematical value.
#[verifier::ext_equal]
pub struct Outline {
    /// The anchor of each vertex, in buffer order.
    pub layout: Seq<Anchor>,
    /// Positions into `layout`, three per triangle.
    pub indices: Seq<int>,
}

/// A mesh under construction as a mathematical value.
#[verifier::ext_equal]
pub struct Stroke {
    /// The joint style of the whole stroke.
    pub style: JointType,
    /// The anchor of each vertex placed so far.
    pub layout: Seq<Anchor>,
    /// The triangles emitted so far.
    pub indices: Seq<int>,
    /// For each triangle, the number of vertices that were in place when
    /// it was appended.
    pub placed: Seq<int>,
    /// Position of the inner vertex that the next triangles attach to.
    pub inner: int,
    /// Position of the outer vertex that the next triangles attach to.
    pub outer: int,
    /// Direction of the turn before the next one.
    pub heading: Direction,
}

/// An index buffer read as positions.
pub open spec fn widen(indices: Seq<u16>) -> Seq<int> {
    indices.map_values(|i: u16| i as int)
}

/// Corner `c` of triangle `t` in an index buffer.
pub open spec fn corner(indices: Seq<int>, t: int, c: int) -> int {
    indices[3 * t + c]
}

/// Every triangle of an index buffer has three different corners.
pub open spec fn proper(indices: Seq<int>) -> bool {
    forall|t: int|
        0 <= t && 3 * t < indices.len() ==> {
            &&& #[trigger] corner(indices, t, 0) != corner(indices, t, 1)
            &&& corner(indices, t, 1) != corner(indices, t, 2)
            &&& corner(indices, t, 0) != corner(indices, t, 2)
        }
}

/// Position `p` is a corner of some triangle of an index buffer.
pub open spec fn used(indices: Seq<int>, p: int) -> bool {
    exists|i: int| 0 <= i < indices.len() && #[trigger] indices[i] == p
}

/// What corner `c` of triangle `t` stands for.
pub open spec fn named(layout: Seq<Anchor>, indices: Seq<int>, t: int, c: int) -> Anchor {
    layout[corner(indices, t, c)]
}

/// What the `j`-th vertex on the rim of a round joint stands for.
pub open spec fn rim_anchor(j: nat, sweep: nat) -> Anchor {
    if j == 0 {
        Anchor::OuterFirst
    } else if j <= sweep + 1 {
        Anchor::Arc(j as u16)
    } else {
        Anchor::OuterSecond
    }
}

/// Number of vertices, and of triangles, that one joint adds.
pub open spec fn joint_size(style: JointType, sweep: nat) -> nat {
    match style {
        JointType::Miter => 4,
        JointType::Bevel => 3,
        JointType::Round => 6 + sweep,
    }
}

/// The arc samples of a round joint, in sweep order.
pub open spec fn arc_layout(samples: nat) -> Seq<Anchor>
    decreases samples,
{
    if samples == 0 {
        Seq::empty()
    } else {
        arc_layout((samples - 1) as nat).push(Anchor::Arc(samples as u16))
    }
}

/// The vertices that one joint adds, in buffer order.
pub open spec fn joint_layout(style: JointType, sweep: nat) -> Seq<Anchor> {
    match style {
        JointType::Miter => seq![
            Anchor::OuterFirst,
            Anchor::InnerJoint,
            Anchor::MiterTip,
            Anchor::OuterSecond,
        ],
        JointType::Bevel => seq![Anchor::OuterFirst, Anchor::InnerJoint, Anchor::OuterSecond],
        JointType::Round => seq![
            Anchor::OuterFirst,
            Anchor::InnerJoint,
            Anchor::OuterFirst,
            Anchor::InnerJoint,
        ] + arc_layout(sweep + 1) + seq![Anchor::OuterSecond],
    }
}

/// The two triangles that tie a new pair of vertices, an outer one at
/// `base` and an inner one at `base + 1`, to the rail behind them. The
/// second triangle closes on the old outer vertex where the path keeps
/// turning the same way, and on the old inner vertex where it does not.
pub open spec fn stitch(outer: int, inner: int, base: int, same: bool) -> Seq<int> {
    seq![outer, inner, base + 1, base + 1, base, if same { outer } else { inner }]
}

/// Position of the `j`-th vertex on the rim of a round joint that starts at
/// `base`: the second copy of the first outer anchor, then the arc samples,
/// then the second outer anchor.
pub open spec fn rim(base: int, j: nat) -> int {
    if j == 0 {
        base + 2
    } else {
        base + 3 + j
    }
}

/// The first `count` triangles of the fan of a round joint that starts at
/// `base`. Each joins the centre at `base + 3` to two neighbours on the rim.
pub open spec fn fan(base: int, count: nat) -> Seq<int>
    decreases count,
{
    if count == 0 {
        Seq::empty()
    } else {
        fan(base, (count - 1) as nat) + seq![
            base + 3,
            rim(base, count),
            rim(base, (count - 1) as nat),
        ]
    }
}

/// The triangles that fill the outer corner of a joint whose vertices start
/// at `base`. `outer` is the outer vertex that the rail behind ended on.
pub open spec fn wedge(style: JointType, outer: int, base: int, sweep: nat) -> Seq<int> {
    match style {
        JointType::Miter => seq![base + 1, base + 3, base, base + 3, base + 2, base],
        JointType::Bevel => seq![base + 1, base + 2, base],
        JointType::Round => stitch(outer, base + 1, base + 2, true) + fan(base, sweep + 2),
    }
}

/// For each of the first `count` triangles of the fan of a round joint
/// that starts at `base`, the number of vertices in place when it is
/// appended: each follows the rim vertex that it closes on.
pub open spec fn fan_marks(base: int, count: nat) -> Seq<int>
    decreases count,
{
    if count == 0 {
        Seq::empty()
    } else {
        fan_marks(base, (count - 1) as nat).push(base + 4 + count)
    }
}

/// For each triangle of a joint that starts at `base`, the number of
/// vertices in place when it is appended. The two triangles of the tie
/// follow the first two vertices of the joint; those of the corner follow
/// the vertices that the corner adds.
pub open spec fn joint_marks(style: JointType, base: int, sweep: nat) -> Seq<int> {
    seq![base + 2, base + 2] + match style {
        JointType::Miter => seq![base + 4, base + 4],
        JointType::Bevel => seq![base + 3],
        JointType::Round => seq![base + 4, base + 4] + fan_marks(base, sweep + 2),
    }
}

impl Stroke {
    /// The stroke after the start cap: two vertices and no triangle.
    pub open spec fn started(style: JointType, first: Direction) -> Stroke {
        Stroke {
            style,
            layout: seq![Anchor::CapOuter, Anchor::CapInner],
            indices: Seq::empty(),
            placed: Seq::empty(),
            inner: 1,
            outer: 0,
            heading: first,
        }
    }

    /// The stroke after one more joint.
    pub open spec fn joined(self, turn: Turn) -> Stroke {
        let base = self.layout.len() as int;
        let sweep = turn.sweep as nat;
        Stroke {
            style: self.style,
            layout: self.layout + joint_layout(self.style, sweep),
            indices: self.indices + stitch(
                self.outer,
                self.inner,
                base,
                turn.side == self.heading,
            ) + wedge(self.style, self.outer, base, sweep),
            placed: self.placed + joint_marks(self.style, base, sweep),
            inner: if self.style is Round {
                base + 3
            } else {
                base + 1
            },
            outer: base + joint_size(self.style, sweep) - 1,
            heading: turn.side,
        }
    }

    /// The stroke after the end cap: two more vertices and the two
    /// triangles that close the band.
    pub open spec fn capped(self) -> Stroke {
        let base = self.layout.len() as int;
        Stroke {
            layout: self.layout + seq![Anchor::CapOuter, Anchor::CapInner],
            indices: self.indices + seq![
                self.inner,
                base + 1,
                base,
                base,
                self.outer,
                self.inner,
            ],
            placed: self.placed + seq![base + 2, base + 2],
            ..self
        }
    }

    /// The mesh that the stroke holds.
    pub open spec fn outline(self) -> Outline {
        Outline { layout: self.layout, indices: self.indices }
    }

    /// No triangle refers forward: each names only vertices that were in
    /// place when it was appended.
    pub open spec fn causal(self) -> bool {
        &&& self.indices.len() == 3 * self.placed.len()
        &&& forall|t: int|
            0 <= t < self.placed.len() ==> #[trigger] self.placed[t] <= self.layout.len()
        &&& forall|t: int, c: int|
            0 <= t < self.placed.len() && 0 <= c < 3 ==> 0 <= #[trigger] corner(
                self.indices,
                t,
                c,
            ) < self.placed[t]
    }

    /// Once the stroke holds a triangle, it holds no vertex that no
    /// triangle names; before that it holds the start cap alone.
    pub open spec fn covered(self) -> bool {
        self.placed.len() > 0 ==> forall|p: int|
            0 <= p < self.layout.len() ==> #[trigger] used(self.indices, p)
    }

    /// The stroke is between two steps: no triangle refers forward, there
    /// are two triangles fewer than vertices, and the two positions that
    /// the next triangles attach to are in place.
    pub open spec fn sound(self) -> bool {
        &&& self.layout.len() >= 2
        &&& 0 <= self.inner < self.layout.len()
        &&& 0 <= self.outer < self.layout.len()
        &&& self.inner != self.outer
        &&& self.placed.len() == self.layout.len() - 2
        &&& self.causal()
    }
}

impl Outline {
    /// Every triangle is whole and names only vertices of the mesh.
    pub open spec fn sound(self) -> bool {
        &&& self.layout.len() >= 4
        &&& self.indices.len() == 3 * (self.layout.len() - 2)
        &&& forall|i: int|
            0 <= i < self.indices.len() ==> 0 <= #[trigger] self.indices[i] < self.layout.len()
    }
}

/// The heading that a stroke starts with: the side of its first turn. A
/// path without interior vertices has none, and left stands in.
pub open spec fn first_heading(turns: Seq<Turn>) -> Direction {
    if turns.len() > 0 {
        turns[0].side
    } else {
        Direction::Left
    }
}

/// The stroke after the start cap and the first `n` joints.
pub open spec fn stroke_after(style: JointType, turns: Seq<Turn>, n: nat) -> Stroke
    decreases n,
{
    if n == 0 {
        Stroke::started(style, first_heading(turns))
    } else {
        stroke_after(style, turns, (n - 1) as nat).joined(turns[n - 1])
    }
}

/// The whole stroke: the start cap, every joint, the end cap.
pub open spec fn finished(style: JointType, turns: Seq<Turn>) -> Stroke {
    stroke_after(style, turns, turns.len()).capped()
}

/// The mesh of a whole stroke.
pub open spec fn outline(style: JointType, turns: Seq<Turn>) -> Outline {
    finished(style, turns).outline()
}

/// Number of vertices in place after the start cap and the first `n`
/// joints.
pub open spec fn vertices_after(style: JointType, turns: Seq<Turn>, n: nat) -> nat
    decreases n,
{
    if n == 0 {
        2
    } else {
        vertices_after(style, turns, (n - 1) as nat) + joint_size(style, turns[n - 1].sweep as nat)
    }
}

/// Sum of the sweeps of the first `n` turns.
pub open spec fn sweep_total(turns: Seq<Turn>, n: nat) -> nat
    decreases n,
{
    if n == 0 {
        0
    } else {
        sweep_total(turns, (n - 1) as nat) + turns[n - 1].sweep as nat
    }
}

/// Number of vertices in the mesh of a whole stroke.
pub open spec fn vertex_total(style: JointType, turns: Seq<Turn>) -> nat {
    vertices_after(style, turns, turns.len()) + 2
}

/// A finished mesh: the anchor of each vertex in buffer order, and the
/// index buffer, three positions per triangle.
#[derive(Debug)]
pub struct StrokeMesh {
    pub layout: Vec<Anchor>,
    pub indices: Vec<u16>,
}

impl View for StrokeMesh {
    type V = Outline;

    open spec fn view(&self) -> Outline {
        Outline { layout: self.layout@, indices: widen(self.indices@) }
    }
}

} // verus!
