//! A small rendering core: entity identifiers, 2D transforms, the byte layout
//! of per-instance GPU data, and the per-frame render protocol.

mod ids;
mod transform;
mod layout;
mod entity;
mod frame;

pub use ids::{
    allocated_not_released, lemma_live_is_unreleased, lemma_second_release_fails, live_after,
    IdError, IdEvent, IdentityAllocator, MAX_DRAWS,
};
pub use transform::{
    lemma_update_idempotent, neg_bits, rotation_matrix, scale_matrix, Mat2, Transform2D, Turn,
    Vector2, F32_ONE, F32_SIGN, F32_ZERO,
};
pub use layout::{
    byte_of, format_size, instance_formats, le_bytes, lemma_instance_layout_packed,
    packed_attributes, raw_words, size_before, BufferLayout, RawEntity2D, StepMode,
    VertexAttribute, VertexFormat, FIRST_INSTANCE_LOCATION, RAW_ENTITY_SIZE,
};
pub use entity::{lemma_fresh_snapshot, raw_of, unit_quad, Entity2D, Vertex2D};
pub use frame::{
    black, frame_commands, recoverable, BindGroup, FrameRenderer, FrameState, RenderCommand, Rgba,
    SurfaceError,
};
