use std::collections::HashSet;
use strfive::{
    Entity2D, FrameRenderer, FrameState, IdError, IdentityAllocator, RawEntity2D, RenderCommand,
    StepMode, SurfaceError, Turn, Vector2, VertexFormat, F32_ONE, F32_ZERO,
};

fn turn(theta: f32) -> Turn {
    Turn { cos: theta.cos().to_bits(), sin: theta.sin().to_bits() }
}

fn f(bits: u32) -> f32 {
    f32::from_bits(bits)
}

fn spawn(ids: &mut IdentityAllocator, pos: (u32, u32), theta: f32, scale: f32, origin: (u32, u32)) -> Entity2D {
    Entity2D::new(
        ids,
        0,
        Vector2::new(pos.0, pos.1),
        theta.to_bits(),
        turn(theta),
        scale.to_bits(),
        Vector2::new(origin.0, origin.1),
    )
    .expect("identifier space not exhausted")
}

#[test]
fn live_set_tracks_allocations_and_releases() {
    let mut ids = IdentityAllocator::with_space(16);
    let mut model: HashSet<u32> = HashSet::new();
    let mut order: Vec<u32> = Vec::new();
    for step in 0..200u32 {
        if step % 3 == 2 && !order.is_empty() {
            let id = order.remove((step as usize * 7) % order.len());
            assert_eq!(ids.release(id), Ok(()));
            model.remove(&id);
        } else {
            match ids.allocate() {
                Some(id) => {
                    assert!(id < 16);
                    assert!(model.insert(id));
                    order.push(id);
                }
                None => assert_eq!(model.len(), 16),
            }
        }
        assert_eq!(ids.len(), model.len());
        for v in 0..16u32 {
            assert_eq!(ids.is_live(v), model.contains(&v));
        }
    }
}

#[test]
fn allocation_avoids_live_values_in_small_space() {
    let mut ids = IdentityAllocator::with_space(8);
    let mut seen: HashSet<u32> = HashSet::new();
    for _ in 0..8 {
        let id = ids.allocate().unwrap();
        assert!(id < 8);
        assert!(seen.insert(id));
    }
    assert_eq!(ids.allocate(), None);
    assert_eq!(ids.len(), 8);
}

#[test]
fn single_value_space_gives_zero() {
    let mut ids = IdentityAllocator::with_space(1);
    assert_eq!(ids.allocate(), Some(0));
    assert_eq!(ids.allocate(), None);
}

#[test]
fn full_space_allocator_starts_empty() {
    let mut ids = IdentityAllocator::new();
    assert_eq!(ids.bound(), u32::MAX);
    assert_eq!(ids.len(), 0);
    let id = ids.allocate().unwrap();
    assert!(id < u32::MAX);
    assert!(ids.is_live(id));
}

#[test]
fn releasing_unknown_id_fails() {
    let mut ids = IdentityAllocator::with_space(4);
    assert_eq!(ids.release(3), Err(IdError::NotLive));
    assert_eq!(ids.len(), 0);
}

#[test]
fn update_twice_gives_identical_bytes() {
    let mut ids = IdentityAllocator::new();
    let mut e = spawn(&mut ids, (3, 4), 0.0, 1.0, (0, 0));
    e.set_rotation(1.25f32.to_bits(), turn(1.25));
    e.set_scale(2.5f32.to_bits());
    e.update();
    let once = e.to_raw().to_bytes();
    e.update();
    let twice = e.to_raw().to_bytes();
    assert_eq!(once, twice);
    assert_eq!(f(e.to_raw().scale.m00), 2.5);
}

#[test]
fn setters_leave_transform_until_update() {
    let mut ids = IdentityAllocator::new();
    let mut e = spawn(&mut ids, (1, 1), 0.0, 1.0, (0, 0));
    e.set_scale(3.0f32.to_bits());
    e.set_position(7, 9);
    assert_eq!(f(e.to_raw().scale.m00), 1.0);
    assert_eq!(e.to_raw().position, Vector2::new(7, 9));
    e.update();
    assert_eq!(f(e.to_raw().scale.m00), 3.0);
    assert_eq!(f(e.scale()), 3.0);
}

#[test]
fn fresh_entity_snapshot_matches_closed_form() {
    let mut ids = IdentityAllocator::new();
    let theta = 0.7f32;
    let e = spawn(&mut ids, (5, 6), theta, 2.0, (1, 2));
    let raw = e.to_raw();
    assert_eq!(raw.position, Vector2::new(5, 6));
    assert_eq!(raw.origin, Vector2::new(1, 2));
    assert_eq!(f(raw.rotation.m00), theta.cos());
    assert_eq!(f(raw.rotation.m01), -theta.sin());
    assert_eq!(f(raw.rotation.m10), theta.sin());
    assert_eq!(f(raw.rotation.m11), theta.cos());
    assert_eq!(f(raw.scale.m00), 2.0);
    assert_eq!(f(raw.scale.m01), 0.0);
    assert_eq!(f(raw.scale.m10), 0.0);
    assert_eq!(f(raw.scale.m11), 2.0);
    assert_eq!(f(e.rotation()), theta);
}

#[test]
fn destroy_releases_id_once() {
    let mut ids = IdentityAllocator::new();
    let e = spawn(&mut ids, (0, 0), 0.0, 1.0, (0, 0));
    let id = e.id();
    assert!(ids.is_live(id));
    assert_eq!(e.destroy(&mut ids), Ok(()));
    assert!(!ids.is_live(id));
    assert_eq!(ids.release(id), Err(IdError::NotLive));
}

#[test]
fn end_to_end_identity_snapshot() {
    let mut ids = IdentityAllocator::new();
    let e = spawn(&mut ids, (10, 20), 0.0, 1.0, (0, 0));
    let raw = e.to_raw();
    assert_eq!(raw.position.to_raw(), [10, 20]);
    assert_eq!([f(raw.rotation.m00), f(raw.rotation.m01)], [1.0, 0.0]);
    assert_eq!([f(raw.rotation.m10), f(raw.rotation.m11)], [0.0, 1.0]);
    assert_eq!([f(raw.scale.m00), f(raw.scale.m01)], [1.0, 0.0]);
    assert_eq!([f(raw.scale.m10), f(raw.scale.m11)], [0.0, 1.0]);
    assert_eq!(raw.origin.to_raw(), [0, 0]);
}

#[test]
fn fourth_entity_gets_fresh_id() {
    let mut ids = IdentityAllocator::new();
    let a = spawn(&mut ids, (0, 0), 0.0, 1.0, (0, 0));
    let b = spawn(&mut ids, (0, 0), 0.0, 1.0, (0, 0));
    let c = spawn(&mut ids, (0, 0), 0.0, 1.0, (0, 0));
    let before: HashSet<u32> = [a.id(), b.id(), c.id()].into_iter().collect();
    assert_eq!(before.len(), 3);
    assert_eq!(b.destroy(&mut ids), Ok(()));
    let d = spawn(&mut ids, (0, 0), 0.0, 1.0, (0, 0));
    assert_ne!(d.id(), a.id());
    assert_ne!(d.id(), c.id());
    assert_eq!(ids.len(), 3);
}

#[test]
fn entity_geometry_is_unit_quad() {
    let mut ids = IdentityAllocator::new();
    let e = spawn(&mut ids, (0, 0), 0.0, 1.0, (0, 0));
    let v = e.vertices();
    assert_eq!(v[0].position, Vector2::new(F32_ZERO, F32_ZERO));
    assert_eq!(v[1].position, Vector2::new(F32_ONE, F32_ZERO));
    assert_eq!(v[2].position, Vector2::new(F32_ONE, F32_ONE));
    assert_eq!(v[3].position, Vector2::new(F32_ZERO, F32_ONE));
    assert_eq!(e.texture_id(), 0);
}

#[test]
fn instance_layout_is_packed() {
    let d = RawEntity2D::descriptor();
    assert_eq!(d.array_stride, 48);
    assert_eq!(d.step_mode, StepMode::Instance);
    let offsets: Vec<u64> = d.attributes.iter().map(|a| a.offset).collect();
    let slots: Vec<u32> = d.attributes.iter().map(|a| a.shader_location).collect();
    assert_eq!(offsets, vec![0, 8, 16, 24, 32, 40]);
    assert_eq!(slots, vec![2, 3, 4, 5, 6, 7]);
    assert_eq!(d.attributes[0].format, VertexFormat::Uint32x2);
    assert_eq!(d.attributes[1].format, VertexFormat::Float32x2);
    assert_eq!(d.attributes[5].format, VertexFormat::Uint32x2);
}

#[test]
fn instance_bytes_are_little_endian_fields() {
    let mut ids = IdentityAllocator::new();
    let e = spawn(&mut ids, (0x0102_0304, 20), 0.0, 1.0, (7, 0xAABB_CCDD));
    let bytes = e.to_raw().to_bytes();
    assert_eq!(bytes.len(), 48);
    assert_eq!(&bytes[0..8], &[4, 3, 2, 1, 20, 0, 0, 0]);
    assert_eq!(&bytes[8..12], &1.0f32.to_le_bytes());
    assert_eq!(&bytes[24..28], &1.0f32.to_le_bytes());
    assert_eq!(&bytes[40..48], &[7, 0, 0, 0, 0xDD, 0xCC, 0xBB, 0xAA]);
    assert_eq!(e.to_raw().to_words()[11], 0xAABB_CCDD);
}

#[test]
fn frame_without_surface_texture_is_recoverable() {
    let mut r = FrameRenderer::new(36);
    r.initialized();
    let out = r.begin_frame(Err(SurfaceError::Timeout));
    assert_eq!(out, Err(SurfaceError::Timeout));
    assert!(SurfaceError::Timeout.is_recoverable());
    assert_eq!(r.state(), FrameState::Ready);
    assert!(r.begin_frame(Ok(())).is_ok());
}

#[test]
fn out_of_memory_is_fatal() {
    assert!(!SurfaceError::OutOfMemory.is_recoverable());
    assert!(SurfaceError::Lost.is_recoverable());
    assert!(SurfaceError::Outdated.is_recoverable());
}

#[test]
fn frame_commands_follow_binding_order() {
    let mut r = FrameRenderer::new(36);
    assert_eq!(r.state(), FrameState::Uninitialized);
    r.initialized();
    r.update();
    let cmds = r.begin_frame(Ok(())).unwrap();
    assert_eq!(r.state(), FrameState::Rendering);
    assert_eq!(cmds.len(), 12);
    assert_eq!(cmds[0], RenderCommand::CreateView);
    assert!(matches!(cmds[1], RenderCommand::BeginPass { clear } if clear.a == F32_ONE && clear.r == F32_ZERO));
    assert_eq!(cmds[2], RenderCommand::UpdateCamera);
    assert_eq!(cmds[3], RenderCommand::SetPipeline);
    assert!(matches!(cmds[4], RenderCommand::SetBindGroup { index: 0, .. }));
    assert!(matches!(cmds[5], RenderCommand::SetBindGroup { index: 1, .. }));
    assert_eq!(cmds[6], RenderCommand::SetVertexBuffer { slot: 0 });
    assert_eq!(cmds[7], RenderCommand::SetIndexBuffer);
    assert_eq!(cmds[8], RenderCommand::DrawIndexed { index_count: 36, instance_count: 1 });
    assert_eq!(cmds[11], RenderCommand::Present);
    r.finish_frame();
    assert_eq!(r.state(), FrameState::Ready);
    r.dispose();
    assert_eq!(r.state(), FrameState::Disposed);
}
