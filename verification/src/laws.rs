//! What holds of every stroke mesh.

use vstd::prelude::*;
use crate::joint::JointType;
use crate::mesh::{
    arc_layout, corner, fan, fan_marks, finished, first_heading, joint_layout, joint_marks,
    joint_size, outline, proper, rim, stroke_after, sweep_total, used, vertex_total,
    vertices_after, wedge, widen, Anchor, Outline, Stroke, Turn,
};

verus! {

/// The arc of a round joint holds one vertex per sample, and the vertex at
/// place `k` is the sample `k + 1` sweep steps past the first outer anchor.
pub proof fn arc_layout_by_position(samples: nat)
    ensures
        arc_layout(samples).len() == samples,
        forall|k: int|
            0 <= k < samples ==> #[trigger] arc_layout(samples)[k] == Anchor::Arc((k + 1) as u16),
    decreases samples,
{
    if samples > 0 {
        arc_layout_by_position((samples - 1) as nat);
    }
}

/// The fan of a round joint is a run of whole triangles. Triangle `t` joins
/// the centre, the rim vertex after the `t`-th and the `t`-th rim vertex.
pub proof fn fan_by_position(base: int, count: nat)
    ensures
        fan(base, count).len() == 3 * count,
        forall|t: int|
            0 <= t < count ==> {
                &&& #[trigger] corner(fan(base, count), t, 0) == base + 3
                &&& corner(fan(base, count), t, 1) == rim(base, (t + 1) as nat)
                &&& corner(fan(base, count), t, 2) == rim(base, t as nat)
            },
    decreases count,
{
    if count > 0 {
        let shorter = fan(base, (count - 1) as nat);
        fan_by_position(base, (count - 1) as nat);
        assert forall|t: int| 0 <= t < count implies {
            &&& #[trigger] corner(fan(base, count), t, 0) == base + 3
            &&& corner(fan(base, count), t, 1) == rim(base, (t + 1) as nat)
            &&& corner(fan(base, count), t, 2) == rim(base, t as nat)
        } by {
            if t < count - 1 {
                assert(corner(shorter, t, 0) == base + 3);
            }
        }
    }
}

/// Triangle `k` of the fan of a round joint is appended right after the
/// rim vertex that it closes on.
pub proof fn fan_marks_by_position(base: int, count: nat)
    ensures
        fan_marks(base, count).len() == count,
        forall|k: int| 0 <= k < count ==> #[trigger] fan_marks(base, count)[k] == base + 5 + k,
    decreases count,
{
    if count > 0 {
        fan_marks_by_position(base, (count - 1) as nat);
    }
}

/// A joint adds as many triangles as it adds vertices: two in the tie and
/// the rest in the corner.
pub proof fn joint_adds_in_step(style: JointType, outer: int, base: int, sweep: nat)
    ensures
        joint_layout(style, sweep).len() == joint_size(style, sweep),
        joint_marks(style, base, sweep).len() == joint_size(style, sweep),
        wedge(style, outer, base, sweep).len() == 3 * (joint_size(style, sweep) - 2),
{
    arc_layout_by_position(sweep + 1);
    fan_by_position(base, sweep + 2);
    fan_marks_by_position(base, sweep + 2);
}

/// A sound stroke stays sound when a joint is added, and grows by the
/// size of the joint: no triangle of the joint names a vertex that was not
/// in place when the triangle was appended.
pub proof fn joined_keeps_sound(stroke: Stroke, turn: Turn)
    requires
        stroke.sound(),
    ensures
        stroke.joined(turn).sound(),
        stroke.joined(turn).layout.len() == stroke.layout.len() + joint_size(
            stroke.style,
            turn.sweep as nat,
        ),
{
    let base = stroke.layout.len() as int;
    let sweep = turn.sweep as nat;
    let next = stroke.joined(turn);
    let before = stroke.placed.len() as int;
    joint_adds_in_step(stroke.style, stroke.outer, base, sweep);
    fan_by_position(base, sweep + 2);
    fan_marks_by_position(base, sweep + 2);
    assert forall|t: int, c: int| 0 <= t < next.placed.len() && 0 <= c < 3 implies 0
        <= #[trigger] corner(next.indices, t, c) < next.placed[t] by {
        if t < before {
            assert(corner(next.indices, t, c) == corner(stroke.indices, t, c));
        } else if stroke.style is Round && t >= before + 4 {
            assert(corner(fan(base, sweep + 2), t - before - 4, 0) == base + 3);
        }
    }
}

/// The end cap keeps a sound stroke sound and adds two vertices.
pub proof fn capped_is_sound(stroke: Stroke)
    requires
        stroke.sound(),
    ensures
        stroke.capped().sound(),
        stroke.capped().layout.len() == stroke.layout.len() + 2,
{
    let next = stroke.capped();
    assert forall|t: int, c: int| 0 <= t < next.placed.len() && 0 <= c < 3 implies 0
        <= #[trigger] corner(next.indices, t, c) < next.placed[t] by {
        if t < stroke.placed.len() {
            assert(corner(next.indices, t, c) == corner(stroke.indices, t, c));
        }
    }
}

/// In a sound stroke the index buffer is a run of whole triangles, two
/// fewer than there are vertices, and every index names a vertex that is
/// in place.
pub proof fn sound_in_range(stroke: Stroke)
    requires
        stroke.sound(),
    ensures
        stroke.indices.len() % 3 == 0,
        stroke.indices.len() == 3 * (stroke.layout.len() - 2),
        forall|i: int|
            0 <= i < stroke.indices.len() ==> 0 <= #[trigger] stroke.indices[i]
                < stroke.layout.len(),
        stroke.layout.len() >= 4 ==> stroke.outline().sound(),
{
    assert forall|i: int| 0 <= i < stroke.indices.len() implies 0 <= #[trigger] stroke.indices[i]
        < stroke.layout.len() by {
        let t = i / 3;
        let c = i % 3;
        assert(corner(stroke.indices, t, c) == stroke.indices[i]);
    }
}

/// In a sound mesh the index buffer as it is stored, in 16 bits, is a run
/// of whole triangles and names only vertices of the mesh.
pub proof fn sound_as_stored(layout: Seq<Anchor>, indices: Seq<u16>)
    requires
        (Outline { layout, indices: widen(indices) }).sound(),
    ensures
        indices.len() % 3 == 0,
        indices.len() == 3 * (layout.len() - 2),
        forall|i: int| 0 <= i < indices.len() ==> #[trigger] indices[i] < layout.len(),
{
    let mesh = Outline { layout, indices: widen(indices) };
    assert forall|i: int| 0 <= i < indices.len() implies #[trigger] indices[i] < layout.len() by {
        assert(mesh.indices[i] == indices[i] as int);
    }
}

/// After any number of joints the stroke is sound, keeps its style, and
/// holds the vertices of the start cap and of each joint so far.
pub proof fn stroke_after_is_sound(style: JointType, turns: Seq<Turn>, n: nat)
    ensures
        stroke_after(style, turns, n).sound(),
        stroke_after(style, turns, n).style == style,
        stroke_after(style, turns, n).layout.len() == vertices_after(style, turns, n),
    decreases n,
{
    if n > 0 {
        stroke_after_is_sound(style, turns, (n - 1) as nat);
        joined_keeps_sound(stroke_after(style, turns, (n - 1) as nat), turns[n - 1]);
    }
}

/// The vertex count never falls from one joint to the next.
pub proof fn vertices_only_grow(style: JointType, turns: Seq<Turn>, m: nat, n: nat)
    requires
        m <= n,
    ensures
        vertices_after(style, turns, m) <= vertices_after(style, turns, n),
    decreases n,
{
    if m < n {
        vertices_only_grow(style, turns, m, (n - 1) as nat);
    }
}

/// The whole stroke is sound, whatever the style and the turns: no
/// triangle names a vertex that was not in place when the triangle was
/// appended.
pub proof fn finished_is_sound(style: JointType, turns: Seq<Turn>)
    ensures
        finished(style, turns).sound(),
        finished(style, turns).layout.len() == vertex_total(style, turns),
{
    stroke_after_is_sound(style, turns, turns.len());
    capped_is_sound(stroke_after(style, turns, turns.len()));
}

/// In the mesh of any stroke, the index buffer is a run of whole
/// triangles, two fewer than there are vertices, and every index names a
/// vertex of the mesh.
pub proof fn outline_is_sound(style: JointType, turns: Seq<Turn>)
    ensures
        outline(style, turns).sound(),
        outline(style, turns).indices.len() % 3 == 0,
        outline(style, turns).layout.len() == vertex_total(style, turns),
        forall|i: int|
            0 <= i < outline(style, turns).indices.len() ==> 0 <= #[trigger] outline(
                style,
                turns,
            ).indices[i] < outline(style, turns).layout.len(),
{
    finished_is_sound(style, turns);
    sound_in_range(finished(style, turns));
}

/// Each joint is tied in by the side of the turn before it: the heading
/// after a joint is the side of its turn, and the first joint meets its own
/// side.
pub proof fn heading_is_latest_side(style: JointType, turns: Seq<Turn>, n: nat)
    requires
        n <= turns.len(),
    ensures
        stroke_after(style, turns, n).heading == if n == 0 {
            first_heading(turns)
        } else {
            turns[n - 1].side
        },
        turns.len() > 0 ==> stroke_after(style, turns, 0).heading == turns[0].side,
{
}

/// The vertex count in closed form: two for the start cap, then four for
/// each miter joint, three for each bevel joint, and six for each round
/// joint besides its sweep.
pub proof fn vertices_by_style(style: JointType, turns: Seq<Turn>, n: nat)
    ensures
        vertices_after(style, turns, n) == match style {
            JointType::Miter => 2 + 4 * n,
            JointType::Bevel => 2 + 3 * n,
            JointType::Round => 2 + 6 * n + sweep_total(turns, n),
        },
    decreases n,
{
    if n > 0 {
        vertices_by_style(style, turns, (n - 1) as nat);
    }
}

/// A joint only appends: the vertices and triangles from before it stay
/// where they were.
pub proof fn joined_only_appends(stroke: Stroke, turn: Turn)
    ensures
        stroke.layout.is_prefix_of(stroke.joined(turn).layout),
        stroke.indices.is_prefix_of(stroke.joined(turn).indices),
        stroke.placed.is_prefix_of(stroke.joined(turn).placed),
{
}

/// The mesh of a stroke holds the stroke after each of its joints as a
/// prefix: vertices and triangles are never moved, changed or taken back.
pub proof fn outline_only_appends(style: JointType, turns: Seq<Turn>, n: nat)
    requires
        n <= turns.len(),
    ensures
        stroke_after(style, turns, n).layout.is_prefix_of(outline(style, turns).layout),
        stroke_after(style, turns, n).indices.is_prefix_of(outline(style, turns).indices),
    decreases turns.len() - n,
{
    if n < turns.len() {
        outline_only_appends(style, turns, n + 1);
        joined_only_appends(stroke_after(style, turns, n), turns[n as int]);
    }
}

/// The mesh depends on nothing but the style and the turns: equal inputs
/// give equal meshes.
pub proof fn outline_is_determined(
    style_a: JointType,
    turns_a: Seq<Turn>,
    style_b: JointType,
    turns_b: Seq<Turn>,
)
    requires
        style_a == style_b,
        turns_a =~= turns_b,
    ensures
        outline(style_a, turns_a) == outline(style_b, turns_b),
        vertex_total(style_a, turns_a) == vertex_total(style_b, turns_b),
{
}

/// A joint keeps every triangle proper: no triangle of the joint names the
/// same vertex twice.
pub proof fn joined_keeps_proper(stroke: Stroke, turn: Turn)
    requires
        stroke.sound(),
        proper(stroke.indices),
    ensures
        proper(stroke.joined(turn).indices),
{
    let base = stroke.layout.len() as int;
    let sweep = turn.sweep as nat;
    let next = stroke.joined(turn);
    let before = stroke.placed.len() as int;
    joint_adds_in_step(stroke.style, stroke.outer, base, sweep);
    fan_by_position(base, sweep + 2);
    assert forall|t: int| 0 <= t && 3 * t < next.indices.len() implies {
        &&& #[trigger] corner(next.indices, t, 0) != corner(next.indices, t, 1)
        &&& corner(next.indices, t, 1) != corner(next.indices, t, 2)
        &&& corner(next.indices, t, 0) != corner(next.indices, t, 2)
    } by {
        if t < before {
            assert(corner(stroke.indices, t, 0) != corner(stroke.indices, t, 1));
        } else if stroke.style is Round && t >= before + 4 {
            assert(corner(fan(base, sweep + 2), t - before - 4, 0) == base + 3);
        }
    }
}

/// After any number of joints every triangle has three different corners.
pub proof fn strokes_are_proper(style: JointType, turns: Seq<Turn>, n: nat)
    ensures
        proper(stroke_after(style, turns, n).indices),
    decreases n,
{
    if n > 0 {
        strokes_are_proper(style, turns, (n - 1) as nat);
        stroke_after_is_sound(style, turns, (n - 1) as nat);
        joined_keeps_proper(stroke_after(style, turns, (n - 1) as nat), turns[n - 1]);
    }
}

/// In the mesh of any stroke every triangle has three different corners.
pub proof fn outline_is_proper(style: JointType, turns: Seq<Turn>)
    ensures
        proper(outline(style, turns).indices),
{
    strokes_are_proper(style, turns, turns.len());
    stroke_after_is_sound(style, turns, turns.len());
    let stroke = stroke_after(style, turns, turns.len());
    let mesh = stroke.capped();
    assert forall|t: int| 0 <= t && 3 * t < mesh.indices.len() implies {
        &&& #[trigger] corner(mesh.indices, t, 0) != corner(mesh.indices, t, 1)
        &&& corner(mesh.indices, t, 1) != corner(mesh.indices, t, 2)
        &&& corner(mesh.indices, t, 0) != corner(mesh.indices, t, 2)
    } by {
        if t < stroke.placed.len() {
            assert(corner(stroke.indices, t, 0) != corner(stroke.indices, t, 1));
        }
    }
}

/// A joint leaves no vertex unused: its tie names both ends of the seam
/// behind and both of its first vertices, and its corner names every vertex
/// that the corner adds.
pub proof fn joined_is_covered(stroke: Stroke, turn: Turn)
    requires
        stroke.sound(),
        stroke.covered(),
    ensures
        forall|p: int|
            0 <= p < stroke.joined(turn).layout.len() ==> #[trigger] used(
                stroke.joined(turn).indices,
                p,
            ),
{
    let base = stroke.layout.len() as int;
    let sweep = turn.sweep as nat;
    let next = stroke.joined(turn);
    let tie = stroke.indices.len() as int;
    let filling = tie + 6;
    joint_adds_in_step(stroke.style, stroke.outer, base, sweep);
    fan_by_position(base, sweep + 2);
    assert forall|p: int| 0 <= p < next.layout.len() implies #[trigger] used(next.indices, p) by {
        let at = if p == stroke.outer {
            tie
        } else if p == stroke.inner {
            tie + 1
        } else if p < base {
            choose|i: int| 0 <= i < stroke.indices.len() && stroke.indices[i] == p
        } else if p == base {
            tie + 4
        } else if p == base + 1 {
            tie + 2
        } else if stroke.style is Miter {
            if p == base + 2 {
                filling + 4
            } else {
                filling + 1
            }
        } else if stroke.style is Bevel {
            filling + 1
        } else if p == base + 2 {
            filling + 4
        } else if p == base + 3 {
            filling + 2
        } else {
            filling + 6 + 3 * (p - base - 4) + 1
        };
        if p < base && p != stroke.outer && p != stroke.inner {
            assert(used(stroke.indices, p));
        }
        if stroke.style is Round && p >= base + 4 {
            let k = p - base - 4;
            assert(corner(fan(base, sweep + 2), k, 0) == base + 3);
            assert(next.indices[at] == corner(fan(base, sweep + 2), k, 1));
        }
        assert(next.indices[at] == p);
    }
}

/// After any number of joints the stroke is covered.
pub proof fn strokes_are_covered(style: JointType, turns: Seq<Turn>, n: nat)
    ensures
        stroke_after(style, turns, n).covered(),
    decreases n,
{
    if n > 0 {
        strokes_are_covered(style, turns, (n - 1) as nat);
        stroke_after_is_sound(style, turns, (n - 1) as nat);
        joined_is_covered(stroke_after(style, turns, (n - 1) as nat), turns[n - 1]);
    }
}

/// The mesh of any stroke is compact: every vertex is a corner of some
/// triangle.
pub proof fn outline_is_compact(style: JointType, turns: Seq<Turn>)
    ensures
        forall|p: int|
            0 <= p < outline(style, turns).layout.len() ==> #[trigger] used(
                outline(style, turns).indices,
                p,
            ),
{
    let stroke = stroke_after(style, turns, turns.len());
    let mesh = stroke.capped();
    let cap = stroke.indices.len() as int;
    let base = stroke.layout.len() as int;
    strokes_are_covered(style, turns, turns.len());
    stroke_after_is_sound(style, turns, turns.len());
    assert forall|p: int| 0 <= p < mesh.layout.len() implies #[trigger] used(mesh.indices, p) by {
        let at = if p == stroke.inner {
            cap
        } else if p == stroke.outer {
            cap + 4
        } else if p < base {
            choose|i: int| 0 <= i < stroke.indices.len() && stroke.indices[i] == p
        } else if p == base {
            cap + 2
        } else {
            cap + 1
        };
        if p < base && p != stroke.outer && p != stroke.inner {
            assert(used(stroke.indices, p));
        }
        assert(mesh.indices[at] == p);
    }
}

} // verus!
