//! Per-vertex texture coordinates for the faces of map brushes.
//!
//! The library holds the decisions of the two texture projections used by
//! id-Tech-style map editors: which texture size a face is mapped with, which
//! world plane a face is projected onto, and how the per-face results are
//! assembled. The floating-point arithmetic of the projections is supplied by
//! the caller, as the per-vertex function handed to [`face_uvs::new`].
pub mod face_uvs;
pub mod projection;
pub mod texture;

pub use face_uvs::{face_uv_list, FaceId, FaceUvError, FaceUvs, FaceUvsTag};
pub use projection::{dominant_axis, DegenerateNormal, ProjectionAxis};
pub use texture::{resolve_texture_size, ResolvedTextureSize, TextureId, TextureSize, TextureSizes};
