//! Building a stroke mesh one joint at a time.

use vstd::prelude::*;
use crate::joint::{Direction, JointType};
use crate::laws::{capped_is_sound, joined_keeps_sound, sound_as_stored, sound_in_range};
use crate::mesh::{
    arc_layout, corner, fan, fan_marks, joint_size, rim, wedge, widen, Anchor,
    MeshError, Stroke, StrokeMesh, Turn, VERTEX_LIMIT,
};

verus! {

/// The seam that the next joint attaches to: the positions of the last
/// inner joint and of the last outer anchor.
#[derive(Clone, Copy, Debug, PartialEq, Eq, Structural)]
pub struct RailState {
    pub inner_joint: u16,
    pub outer_anchor: u16,
}

/// A stroke mesh under construction. Vertices and triangles are only ever
/// appended.
pub struct StrokeBuilder {
    style: JointType,
    layout: Vec<Anchor>,
    indices: Vec<u16>,
    /// For each triangle, the number of vertices that were in place when
    /// it was appended.
    placed: Ghost<Seq<int>>,
    rail: RailState,
    heading: Direction,
}

impl View for StrokeBuilder {
    type V = Stroke;

    closed spec fn view(&self) -> Stroke {
        Stroke {
            style: self.style,
            layout: self.layout@,
            indices: widen(self.indices@),
            placed: self.placed@,
            inner: self.rail.inner_joint as int,
            outer: self.rail.outer_anchor as int,
            heading: self.heading,
        }
    }
}

impl StrokeBuilder {
    /// The builder is between two joints: its mesh is sound and fits
    /// 16-bit indices.
    pub open spec fn wf(&self) -> bool {
        &&& self@.sound()
        &&& self@.layout.len() <= VERTEX_LIMIT
    }

    /// Starts a stroke: places the two vertices of the start cap. `first`
    /// is the side of the first turn, or of the stand-in turn where the
    /// path has no interior vertex.
    pub fn begin(style: JointType, first: Direction) -> (builder: StrokeBuilder)
        ensures
            builder.wf(),
            builder@ == Stroke::started(style, first),
    {
        let mut layout: Vec<Anchor> = Vec::new();
        layout.push(Anchor::CapOuter);
        layout.push(Anchor::CapInner);
        let builder = StrokeBuilder {
            style,
            layout,
            indices: Vec::new(),
            placed: Ghost(Seq::empty()),
            rail: RailState { inner_joint: 1, outer_anchor: 0 },
            heading: first,
        };
        builder
    }

    /// Adds the joint at the next interior vertex: the first outer anchor
    /// and the inner joint, two triangles that tie them to the rail behind,
    /// and the corner that the style calls for.
    ///
    /// Fails, and changes nothing, where the joint would take the mesh
    /// past [`VERTEX_LIMIT`].
    pub fn join(&mut self, turn: Turn) -> (result: Result<(), MeshError>)
        requires
            old(self).wf(),
        ensures
            final(self).wf(),
            result is Ok <==> old(self)@.layout.len() + joint_size(
                old(self)@.style,
                turn.sweep as nat,
            ) <= VERTEX_LIMIT,
            result is Ok ==> final(self)@ == old(self)@.joined(turn),
            result is Err ==> final(self)@ == old(self)@,
            result matches Err(error) ==> error == MeshError::VertexLimit,
    {
        let room: usize = VERTEX_LIMIT - self.layout.len();
        let need: usize = match self.style {
            JointType::Miter => 4,
            JointType::Bevel => 3,
            JointType::Round => 6 + turn.sweep as usize,
        };
        if need > room {
            return Err(MeshError::VertexLimit);
        }
        let same: bool = turn.side == self.heading;
        let behind_outer: u16 = self.rail.outer_anchor;
        let behind_inner: u16 = self.rail.inner_joint;
        let outer_first: u16 = self.place(Anchor::OuterFirst);
        let inner: u16 = self.place(Anchor::InnerJoint);
        self.triangle(behind_outer, behind_inner, inner);
        self.triangle(
            inner,
            outer_first,
            if same {
                behind_outer
            } else {
                behind_inner
            },
        );
        self.rail.inner_joint = inner;
        match self.style {
            JointType::Miter => self.miter_corner(outer_first, inner),
            JointType::Bevel => self.bevel_corner(outer_first, inner),
            JointType::Round => self.round_corner(behind_outer, outer_first, inner, turn.sweep),
        }
        self.heading = turn.side;
        proof {
            joined_keeps_sound(old(self)@, turn);
        }
        Ok(())
    }

    /// Ends the stroke: places the two vertices of the end cap and the two
    /// triangles that close the band.
    ///
    /// Fails where the cap would take the mesh past [`VERTEX_LIMIT`].
    pub fn finish(self) -> (result: Result<StrokeMesh, MeshError>)
        requires
            self.wf(),
        ensures
            result is Ok <==> self@.layout.len() + 2 <= VERTEX_LIMIT,
            result matches Ok(mesh) ==> {
                &&& mesh@ == self@.capped().outline()
                &&& mesh@.sound()
                &&& mesh.layout@.len() == self@.layout.len() + 2
                &&& mesh.indices@.len() % 3 == 0
                &&& forall|i: int|
                    0 <= i < mesh.indices@.len() ==> #[trigger] mesh.indices@[i]
                        < mesh.layout@.len()
            },
            result matches Err(error) ==> error == MeshError::VertexLimit,
    {
        let mut builder = self;
        if builder.layout.len() > VERTEX_LIMIT - 2 {
            return Err(MeshError::VertexLimit);
        }
        let inner: u16 = builder.rail.inner_joint;
        let outer: u16 = builder.rail.outer_anchor;
        let end_outer: u16 = builder.place(Anchor::CapOuter);
        let end_inner: u16 = builder.place(Anchor::CapInner);
        builder.triangle(inner, end_inner, end_outer);
        builder.triangle(end_outer, outer, inner);
        let mesh = StrokeMesh { layout: builder.layout, indices: builder.indices };
        assert(mesh@.indices =~= self@.capped().indices);
        proof {
            capped_is_sound(self@);
            sound_in_range(self@.capped());
            sound_as_stored(mesh.layout@, mesh.indices@);
        }
        Ok(mesh)
    }

    /// The joint style of the stroke.
    pub fn style(&self) -> (style: JointType)
        ensures
            style == self@.style,
    {
        self.style
    }

    /// The side of the turn before the next one.
    pub fn heading(&self) -> (heading: Direction)
        ensures
            heading == self@.heading,
    {
        self.heading
    }

    /// The seam that the next joint attaches to.
    pub fn rail(&self) -> (rail: RailState)
        ensures
            rail.inner_joint == self@.inner,
            rail.outer_anchor == self@.outer,
    {
        self.rail
    }

    /// Number of vertices placed so far.
    pub fn vertex_count(&self) -> (count: usize)
        ensures
            count == self@.layout.len(),
    {
        self.layout.len()
    }

    /// Positions of the two vertices placed last, in the order they were
    /// placed. The next joint runs its inner rail from there.
    pub fn latest(&self) -> (latest: (u16, u16))
        requires
            self.wf(),
        ensures
            latest.0 == self@.layout.len() - 2,
            latest.1 == self@.layout.len() - 1,
    {
        let count: usize = self.layout.len();
        ((count - 2) as u16, (count - 1) as u16)
    }

    /// The anchor of each vertex placed so far, in buffer order.
    pub fn layout(&self) -> (layout: &Vec<Anchor>)
        ensures
            layout@ == self@.layout,
    {
        &self.layout
    }

    /// The triangles emitted so far, three positions each.
    pub fn indices(&self) -> (indices: &Vec<u16>)
        ensures
            widen(indices@) == self@.indices,
    {
        &self.indices
    }

    /// What holds between any two steps, also in the middle of a joint:
    /// the mesh fits 16-bit indices, the seam is in place, and no triangle
    /// refers forward.
    spec fn inv(&self) -> bool {
        &&& 2 <= self.layout@.len() <= VERTEX_LIMIT
        &&& self.rail.inner_joint < self.layout@.len()
        &&& self.rail.outer_anchor < self.layout@.len()
        &&& self@.causal()
    }

    /// Appends one vertex and returns its position.
    fn place(&mut self, anchor: Anchor) -> (at: u16)
        requires
            old(self).inv(),
            old(self).layout@.len() < VERTEX_LIMIT,
        ensures
            final(self).inv(),
            at == old(self)@.layout.len(),
            final(self)@ == (Stroke { layout: old(self)@.layout.push(anchor), ..old(self)@ }),
    {
        let at: u16 = self.layout.len() as u16;
        self.layout.push(anchor);
        at
    }

    /// Appends one triangle and notes how many vertices are in place. Its
    /// corners must be among them: no triangle refers forward.
    fn triangle(&mut self, a: u16, b: u16, c: u16)
        requires
            old(self).inv(),
            a < old(self).layout@.len(),
            b < old(self).layout@.len(),
            c < old(self).layout@.len(),
        ensures
            final(self).inv(),
            final(self)@ == (Stroke {
                indices: old(self)@.indices + seq![a as int, b as int, c as int],
                placed: old(self)@.placed.push(old(self)@.layout.len() as int),
                ..old(self)@
            }),
    {
        self.indices.push(a);
        self.indices.push(b);
        self.indices.push(c);
        self.placed = Ghost(self.placed@.push(self.layout@.len() as int));
        proof {
            let before = old(self)@;
            let after = self@;
            assert forall|t: int, k: int| 0 <= t < after.placed.len() && 0 <= k < 3 implies 0
                <= #[trigger] corner(after.indices, t, k) < after.placed[t] by {
                if t < before.placed.len() {
                    assert(corner(after.indices, t, k) == corner(before.indices, t, k));
                }
            }
        }
    }

    /// The corner of a miter joint whose first two vertices are in place:
    /// the tip and the second outer anchor, and the two triangles between
    /// them and the first outer anchor.
    fn miter_corner(&mut self, outer_first: u16, inner: u16)
        requires
            old(self).inv(),
            old(self).layout@.len() + 2 <= VERTEX_LIMIT,
            outer_first + 2 == old(self).layout@.len(),
            inner == outer_first + 1,
        ensures
            final(self).inv(),
            final(self)@ == (Stroke {
                layout: old(self)@.layout + seq![Anchor::MiterTip, Anchor::OuterSecond],
                indices: old(self)@.indices + wedge(
                    JointType::Miter,
                    old(self)@.outer,
                    outer_first as int,
                    0,
                ),
                placed: old(self)@.placed + seq![outer_first + 4, outer_first + 4],
                inner: inner as int,
                outer: outer_first + 3,
                ..old(self)@
            }),
    {
        let tip: u16 = self.place(Anchor::MiterTip);
        let outer_second: u16 = self.place(Anchor::OuterSecond);
        self.triangle(inner, outer_second, outer_first);
        self.triangle(outer_second, tip, outer_first);
        self.rail = RailState { inner_joint: inner, outer_anchor: outer_second };
    }

    /// The corner of a bevel joint whose first two vertices are in place:
    /// the second outer anchor, and the one triangle that cuts the corner.
    fn bevel_corner(&mut self, outer_first: u16, inner: u16)
        requires
            old(self).inv(),
            old(self).layout@.len() + 1 <= VERTEX_LIMIT,
            outer_first + 2 == old(self).layout@.len(),
            inner == outer_first + 1,
        ensures
            final(self).inv(),
            final(self)@ == (Stroke {
                layout: old(self)@.layout + seq![Anchor::OuterSecond],
                indices: old(self)@.indices + wedge(
                    JointType::Bevel,
                    old(self)@.outer,
                    outer_first as int,
                    0,
                ),
                placed: old(self)@.placed + seq![outer_first + 3],
                inner: inner as int,
                outer: outer_first + 2,
                ..old(self)@
            }),
    {
        let outer_second: u16 = self.place(Anchor::OuterSecond);
        self.triangle(inner, outer_second, outer_first);
        self.rail = RailState { inner_joint: inner, outer_anchor: outer_second };
    }

    /// The corner of a round joint whose first two vertices are in place: a
    /// second copy of both, tied to the rail behind, then the arc samples
    /// and the second outer anchor, each closing one triangle of the fan
    /// around the copy of the inner joint.
    fn round_corner(&mut self, behind: u16, outer_first: u16, inner: u16, sweep: u16)
        requires
            old(self).inv(),
            old(self).layout@.len() + 4 + sweep <= VERTEX_LIMIT,
            outer_first + 2 == old(self).layout@.len(),
            inner == outer_first + 1,
            behind < outer_first,
        ensures
            final(self).inv(),
            final(self)@ == (Stroke {
                layout: old(self)@.layout + seq![Anchor::OuterFirst, Anchor::InnerJoint]
                    + arc_layout((sweep + 1) as nat) + seq![Anchor::OuterSecond],
                indices: old(self)@.indices + wedge(
                    JointType::Round,
                    behind as int,
                    outer_first as int,
                    sweep as nat,
                ),
                placed: old(self)@.placed + seq![outer_first + 4, outer_first + 4] + fan_marks(
                    outer_first as int,
                    (sweep + 2) as nat,
                ),
                inner: outer_first + 3,
                outer: outer_first + 5 + sweep,
                ..old(self)@
            }),
    {
        let ghost base: int = outer_first as int;
        let outer_copy: u16 = self.place(Anchor::OuterFirst);
        let centre: u16 = self.place(Anchor::InnerJoint);
        self.triangle(behind, inner, centre);
        self.triangle(centre, outer_copy, behind);
        let ghost tied: Stroke = self@;
        let mut taken: u16 = 0;
        let mut last: u16 = outer_copy;
        while taken <= sweep
            invariant
                self.inv(),
                taken <= sweep + 1,
                tied.layout.len() == base + 4,
                tied.layout.len() + 2 + sweep <= VERTEX_LIMIT,
                centre == base + 3,
                last == rim(base, taken as nat),
                self@ == (Stroke {
                    layout: tied.layout + arc_layout(taken as nat),
                    indices: tied.indices + fan(base, taken as nat),
                    placed: tied.placed + fan_marks(base, taken as nat),
                    ..tied
                }),
                self@.layout.len() == base + 4 + taken,
            decreases sweep + 1 - taken,
        {
            let sample: u16 = self.place(Anchor::Arc(taken + 1));
            self.triangle(centre, sample, last);
            last = sample;
            taken = taken + 1;
        }
        let outer_second: u16 = self.place(Anchor::OuterSecond);
        self.triangle(centre, outer_second, last);
        self.rail = RailState { inner_joint: centre, outer_anchor: outer_second };
    }
}

} // verus!
