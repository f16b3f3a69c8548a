//! What each corner of each triangle stands for.
//!
//! The index buffer is built from positions; these laws say which anchors
//! the positions lead to, joint by joint.

use vstd::prelude::*;
use crate::joint::{Direction, JointType};
use crate::laws::{
    arc_layout_by_position, fan_by_position, outline_only_appends, stroke_after_is_sound,
};
use crate::mesh::{corner, fan, named, outline, rim_anchor, stroke_after, Anchor, Stroke, Turn};

verus! {

/// A stroke starts with the two vertices of its cap, and its seam lies on
/// them.
pub proof fn start_names(style: JointType, first: Direction)
    ensures
        Stroke::started(style, first).sound(),
        Stroke::started(style, first).layout =~= seq![Anchor::CapOuter, Anchor::CapInner],
        Stroke::started(style, first).layout[Stroke::started(style, first).outer]
            == Anchor::CapOuter,
        Stroke::started(style, first).layout[Stroke::started(style, first).inner]
            == Anchor::CapInner,
{
}

/// After a joint the seam lies on its inner joint and its second outer
/// anchor; of a round joint, on the copy of the inner joint that the fan
/// turns around.
pub proof fn rail_names(stroke: Stroke, turn: Turn)
    requires
        stroke.sound(),
    ensures
        stroke.joined(turn).layout[stroke.joined(turn).inner] == Anchor::InnerJoint,
        stroke.joined(turn).layout[stroke.joined(turn).outer] == Anchor::OuterSecond,
        stroke.joined(turn).inner == if stroke.style is Round {
            stroke.layout.len() + 3
        } else {
            stroke.layout.len() + 1
        },
        stroke.joined(turn).outer == stroke.joined(turn).layout.len() - 1,
{
    arc_layout_by_position((turn.sweep + 1) as nat);
}

/// After a joint the two vertices placed last are its second outer anchor
/// and the vertex before it: the tip of a miter joint, the inner joint of a
/// bevel joint, the last arc sample of a round joint.
pub proof fn latest_names(stroke: Stroke, turn: Turn)
    requires
        stroke.sound(),
    ensures
        ({
            let next = stroke.joined(turn);
            let end = next.layout.len() as int;
            &&& next.layout[end - 1] == Anchor::OuterSecond
            &&& next.layout[end - 2] == match stroke.style {
                JointType::Miter => Anchor::MiterTip,
                JointType::Bevel => Anchor::InnerJoint,
                JointType::Round => Anchor::Arc((turn.sweep + 1) as u16),
            }
        }),
{
    arc_layout_by_position((turn.sweep + 1) as nat);
}

/// The first two triangles of a joint tie its first outer anchor and its
/// inner joint to the seam behind: one spans the old seam and the new inner
/// joint, the other the two new vertices and one end of the old seam, the
/// outer end where the path keeps turning the same way.
pub proof fn stitch_names(stroke: Stroke, turn: Turn)
    requires
        stroke.sound(),
    ensures
        ({
            let next = stroke.joined(turn);
            let t = stroke.layout.len() - 2;
            let behind_outer = stroke.layout[stroke.outer];
            let behind_inner = stroke.layout[stroke.inner];
            &&& named(next.layout, next.indices, t, 0) == behind_outer
            &&& named(next.layout, next.indices, t, 1) == behind_inner
            &&& named(next.layout, next.indices, t, 2) == Anchor::InnerJoint
            &&& named(next.layout, next.indices, t + 1, 0) == Anchor::InnerJoint
            &&& named(next.layout, next.indices, t + 1, 1) == Anchor::OuterFirst
            &&& named(next.layout, next.indices, t + 1, 2) == if turn.side == stroke.heading {
                behind_outer
            } else {
                behind_inner
            }
        }),
{
    arc_layout_by_position((turn.sweep + 1) as nat);
}

/// The corner of a miter joint is two triangles on its first outer anchor:
/// one with the inner joint and the second outer anchor, one with the
/// second outer anchor and the tip.
pub proof fn miter_names(stroke: Stroke, turn: Turn)
    requires
        stroke.sound(),
        stroke.style is Miter,
    ensures
        ({
            let next = stroke.joined(turn);
            let t = stroke.layout.len() as int;
            &&& named(next.layout, next.indices, t, 0) == Anchor::InnerJoint
            &&& named(next.layout, next.indices, t, 1) == Anchor::OuterSecond
            &&& named(next.layout, next.indices, t, 2) == Anchor::OuterFirst
            &&& named(next.layout, next.indices, t + 1, 0) == Anchor::OuterSecond
            &&& named(next.layout, next.indices, t + 1, 1) == Anchor::MiterTip
            &&& named(next.layout, next.indices, t + 1, 2) == Anchor::OuterFirst
        }),
{
}

/// The corner of a bevel joint is one triangle: the inner joint, the second
/// outer anchor and the first.
pub proof fn bevel_names(stroke: Stroke, turn: Turn)
    requires
        stroke.sound(),
        stroke.style is Bevel,
    ensures
        ({
            let next = stroke.joined(turn);
            let t = stroke.layout.len() as int;
            &&& named(next.layout, next.indices, t, 0) == Anchor::InnerJoint
            &&& named(next.layout, next.indices, t, 1) == Anchor::OuterSecond
            &&& named(next.layout, next.indices, t, 2) == Anchor::OuterFirst
        }),
{
}

/// A round joint first ties a second copy of its first outer anchor and of
/// its inner joint to the outer end of the seam behind and to the inner
/// joint itself. Then triangle `k` of its fan joins the copy of the inner
/// joint to two neighbours on the rim, which runs from the copy of the
/// first outer anchor over the arc samples to the second outer anchor.
pub proof fn round_names(stroke: Stroke, turn: Turn, k: nat)
    requires
        stroke.sound(),
        stroke.style is Round,
        k < turn.sweep + 2,
    ensures
        ({
            let next = stroke.joined(turn);
            let t = stroke.layout.len() as int;
            let behind_outer = stroke.layout[stroke.outer];
            let sweep = turn.sweep as nat;
            &&& named(next.layout, next.indices, t, 0) == behind_outer
            &&& named(next.layout, next.indices, t, 1) == Anchor::InnerJoint
            &&& named(next.layout, next.indices, t, 2) == Anchor::InnerJoint
            &&& named(next.layout, next.indices, t + 1, 0) == Anchor::InnerJoint
            &&& named(next.layout, next.indices, t + 1, 1) == Anchor::OuterFirst
            &&& named(next.layout, next.indices, t + 1, 2) == behind_outer
            &&& named(next.layout, next.indices, t + 2 + k, 0) == Anchor::InnerJoint
            &&& named(next.layout, next.indices, t + 2 + k, 1) == rim_anchor((k + 1) as nat, sweep)
            &&& named(next.layout, next.indices, t + 2 + k, 2) == rim_anchor(k, sweep)
        }),
{
    let base = stroke.layout.len() as int;
    let sweep = turn.sweep as nat;
    arc_layout_by_position(sweep + 1);
    fan_by_position(base, sweep + 2);
    assert(corner(fan(base, sweep + 2), k as int, 0) == base + 3);
}

/// The end cap closes the band with two triangles between the seam and the
/// two cap vertices.
pub proof fn cap_names(stroke: Stroke)
    requires
        stroke.sound(),
    ensures
        ({
            let mesh = stroke.capped();
            let t = stroke.layout.len() - 2;
            let behind_outer = stroke.layout[stroke.outer];
            let behind_inner = stroke.layout[stroke.inner];
            &&& named(mesh.layout, mesh.indices, t, 0) == behind_inner
            &&& named(mesh.layout, mesh.indices, t, 1) == Anchor::CapInner
            &&& named(mesh.layout, mesh.indices, t, 2) == Anchor::CapOuter
            &&& named(mesh.layout, mesh.indices, t + 1, 0) == Anchor::CapOuter
            &&& named(mesh.layout, mesh.indices, t + 1, 1) == behind_outer
            &&& named(mesh.layout, mesh.indices, t + 1, 2) == behind_inner
        }),
{
}

/// What a corner stands for never changes: a triangle of the stroke after
/// some of its joints is the same triangle, between the same anchors, in
/// the finished mesh.
pub proof fn names_are_kept(style: JointType, turns: Seq<Turn>, n: nat, t: int, c: int)
    requires
        n <= turns.len(),
        0 <= t < stroke_after(style, turns, n).placed.len(),
        0 <= c < 3,
    ensures
        corner(outline(style, turns).indices, t, c) == corner(
            stroke_after(style, turns, n).indices,
            t,
            c,
        ),
        named(outline(style, turns).layout, outline(style, turns).indices, t, c) == named(
            stroke_after(style, turns, n).layout,
            stroke_after(style, turns, n).indices,
            t,
            c,
        ),
{
    let stroke = stroke_after(style, turns, n);
    outline_only_appends(style, turns, n);
    stroke_after_is_sound(style, turns, n);
    assert(0 <= corner(stroke.indices, t, c) < stroke.placed[t]);
}

} // verus!
