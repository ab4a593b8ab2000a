//! A skeleton loading placeholder: a pure, time-parameterized renderer that
//! turns a target region, a shape configuration and an elapsed-time sample
//! into an ordered list of colored primitives for a host painter to draw.
//!
//! All coordinates are integer units; time is measured in milliseconds.

pub mod fill;
pub mod geometry;
pub mod output;
pub mod render;

pub use fill::HasSkeleton;
pub use geometry::Color;
pub use geometry::Region;
pub use output::CircleShape;
pub use output::Mesh;
pub use output::Primitive;
pub use output::RenderOutput;
pub use output::RoundedRect;
pub use output::Vertex;
pub use render::Skeleton;
pub use render::SkeletonError;
pub use render::SkeletonShapeType;
