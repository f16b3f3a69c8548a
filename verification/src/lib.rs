//! Stroke tessellation, the combinatorial half.
//!
//! A stroke is the band of uniform thickness drawn along an open polyline.
//! Its mesh has two parts: where each vertex lies, which is floating-point
//! geometry, and which vertices exist and how triangles connect them, which
//! is a matter of counting. This crate holds the second part and proves it:
//! every vertex is named by the [`Anchor`] it stands for, every triangle is
//! given by positions in that list, and no triangle ever names a vertex that
//! has not been placed.
//!
//! The caller supplies, for each interior vertex of the polyline, the side
//! to which the path turns there and, for round joints, how long the arc
//! sweep ran. It gets back the vertex layout and the index buffer, and fills
//! in coordinates itself.
//!
//! - [`joint`]: joint styles, turn directions and the signs that follow
//!   from a direction.
//! - [`sweep`]: the arc sweep of a round joint, which always ends.
//! - [`mesh`]: the mathematical model of a stroke mesh.
//! - [`builder`]: a mesh built joint by joint.
//! - [`tessellate`]: the mesh of a whole stroke in one call.
//! - [`laws`], [`names`]: what holds of every mesh, and what each corner of
//!   each triangle stands for.

pub mod builder;
pub mod joint;
pub mod laws;
pub mod mesh;
pub mod names;
pub mod sweep;
pub mod tessellate;

pub use builder::{RailState, StrokeBuilder};
pub use joint::{Direction, JointType};
pub use mesh::{Anchor, MeshError, StrokeMesh, Turn, VERTEX_LIMIT};
pub use sweep::{ArcSweep, MAX_ARC_SAMPLES};
pub use tessellate::{interior_count, path_tessellate};
