//! Identity model of a small 3D scene graph: randomly named anchors grouped
//! into typed elements, which a scene owns and resolves by id.

pub mod ids;
pub mod anchor;
pub mod element;
pub mod scene;
pub mod greeting;
pub mod salutation;

pub use anchor::Anchor;
pub use element::{Element, GeometryType};
pub use ids::get_id;
pub use scene::Scene;
