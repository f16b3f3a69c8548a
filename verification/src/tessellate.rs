//! The mesh of a whole stroke in one call.

use vstd::prelude::*;
use crate::builder::StrokeBuilder;
use crate::joint::{Direction, JointType};
use crate::laws::{stroke_after_is_sound, vertices_only_grow};
use crate::mesh::{
    outline, stroke_after, vertex_total, MeshError, StrokeMesh, Turn, VERTEX_LIMIT,
};

verus! {

/// Number of interior vertices, and so of joints, of a path of `points`
/// points. A path has at least two points.
pub fn interior_count(points: usize) -> (result: Result<usize, MeshError>)
    ensures
        result is Ok <==> points >= 2,
        result matches Ok(joints) ==> joints == points - 2,
        result matches Err(error) ==> error == MeshError::TooFewPoints,
{
    if points < 2 {
        Err(MeshError::TooFewPoints)
    } else {
        Ok(points - 2)
    }
}

/// Builds the mesh of a stroke along a path with one interior vertex per
/// entry of `turns`: the start cap, each joint in path order, the end cap.
/// The first joint counts as turning the same way as the one before it.
///
/// Fails exactly where the mesh would hold more than [`VERTEX_LIMIT`]
/// vertices.
pub fn path_tessellate(turns: &Vec<Turn>, jtype: JointType) -> (result: Result<StrokeMesh, MeshError>)
    ensures
        result is Ok <==> vertex_total(jtype, turns@) <= VERTEX_LIMIT,
        result matches Ok(mesh) ==> {
            &&& mesh@ == outline(jtype, turns@)
            &&& mesh@.sound()
            &&& mesh.layout@.len() == vertex_total(jtype, turns@)
            &&& mesh.indices@.len() % 3 == 0
            &&& forall|i: int|
                0 <= i < mesh.indices@.len() ==> #[trigger] mesh.indices@[i] < mesh.layout@.len()
        },
        result matches Err(error) ==> error == MeshError::VertexLimit,
{
    let first: Direction = if turns.len() > 0 {
        turns[0].side
    } else {
        Direction::Left
    };
    let mut builder = StrokeBuilder::begin(jtype, first);
    let mut done: usize = 0;
    while done < turns.len()
        invariant
            done <= turns.len(),
            builder.wf(),
            builder@ == stroke_after(jtype, turns@, done as nat),
        decreases turns.len() - done,
    {
        proof {
            stroke_after_is_sound(jtype, turns@, done as nat);
        }
        match builder.join(turns[done]) {
            Ok(()) => {},
            Err(error) => {
                proof {
                    vertices_only_grow(jtype, turns@, (done + 1) as nat, turns@.len());
                }
                return Err(error);
            },
        }
        done = done + 1;
    }
    proof {
        stroke_after_is_sound(jtype, turns@, done as nat);
    }
    builder.finish()
}

} // verus!
