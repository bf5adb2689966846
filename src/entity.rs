use vstd::prelude::*;
use crate::ids::{IdError, IdentityAllocator};
use crate::layout::RawEntity2D;
use crate::transform::{rotation_matrix, scale_matrix, Transform2D, Turn, Vector2, F32_ONE, F32_ZERO};

verus! {

/// A vertex of an entity's local geometry: position and texture coordinate,
/// as single-precision bit patterns.
#[derive(Debug, Clone, Copy, PartialEq, Eq, Structural)]
pub struct Vertex2D {
    pub position: Vector2,
    pub tex_pos: Vector2,
}

/// The unit quad every entity is built on, corner by corner.
pub open spec fn unit_quad() -> Seq<Vertex2D> {
    seq![
        Vertex2D { position: Vector2 { x: F32_ZERO, y: F32_ZERO }, tex_pos: Vector2 { x: F32_ZERO, y: F32_ZERO } },
        Vertex2D { position: Vector2 { x: F32_ONE, y: F32_ZERO }, tex_pos: Vector2 { x: F32_ONE, y: F32_ZERO } },
        Vertex2D { position: Vector2 { x: F32_ONE, y: F32_ONE }, tex_pos: Vector2 { x: F32_ONE, y: F32_ONE } },
        Vertex2D { position: Vector2 { x: F32_ZERO, y: F32_ONE }, tex_pos: Vector2 { x: F32_ZERO, y: F32_ONE } },
    ]
}

/// The snapshot of an entity with the given fields and transform.
pub open spec fn raw_of(position: Vector2, transform: Transform2D, origin: Vector2) -> RawEntity2D {
    RawEntity2D {
        position,
        rotation: transform.rotation_spec(),
        scale: transform.scale_spec(),
        origin,
    }
}

/// A renderable object. `rotation` and `scale` are single-precision bit
/// patterns; `turn` holds the cosine and sine of `rotation`, which the caller
/// evaluates. The transform is brought up to date by `update`.
pub struct Entity2D {
    id: u32,
    position: Vector2,
    rotation: u32,
    turn: Turn,
    scale: u32,
    transformation: Transform2D,
    origin: Vector2,
    tex_id: u32,
    vertices: [Vertex2D; 4],
}

impl Entity2D {
    pub closed spec fn id_spec(&self) -> u32 {
        self.id
    }

    pub closed spec fn position_spec(&self) -> Vector2 {
        self.position
    }

    pub closed spec fn rotation_spec(&self) -> u32 {
        self.rotation
    }

    pub closed spec fn turn_spec(&self) -> Turn {
        self.turn
    }

    pub closed spec fn scale_spec(&self) -> u32 {
        self.scale
    }

    pub closed spec fn transform_spec(&self) -> Transform2D {
        self.transformation
    }

    pub closed spec fn origin_spec(&self) -> Vector2 {
        self.origin
    }

    pub closed spec fn texture_id_spec(&self) -> u32 {
        self.tex_id
    }

    pub closed spec fn vertices_spec(&self) -> Seq<Vertex2D> {
        self.vertices@
    }

    /// The transform agrees with the current rotation and scale.
    pub open spec fn is_current(&self) -> bool {
        &&& self.transform_spec().rotation_spec() == rotation_matrix(self.turn_spec())
        &&& self.transform_spec().scale_spec() == scale_matrix(self.scale_spec())
    }

    /// Creates an entity with a freshly allocated identifier and a transform
    /// computed from the given rotation and scale. `None`, with the allocator
    /// unchanged, exactly when every identifier of its space is live.
    pub fn new(
        ids: &mut IdentityAllocator,
        tex_id: u32,
        position: Vector2,
        rotation: u32,
        turn: Turn,
        scale: u32,
        origin: Vector2,
    ) -> (r: Option<Self>)
        requires
            old(ids).wf(),
        ensures
            final(ids).wf(),
            final(ids).space() == old(ids).space(),
            r is None <==> forall|v: u32| v < old(ids).space() ==> old(ids)@.contains(v),
            r is None ==> final(ids)@ == old(ids)@,
            match r {
                Some(e) => {
                    &&& !old(ids)@.contains(e.id_spec())
                    &&& final(ids)@ == old(ids)@.insert(e.id_spec())
                    &&& e.position_spec() == position
                    &&& e.rotation_spec() == rotation
                    &&& e.turn_spec() == turn
                    &&& e.scale_spec() == scale
                    &&& e.origin_spec() == origin
                    &&& e.texture_id_spec() == tex_id
                    &&& e.vertices_spec() == unit_quad()
                    &&& e.is_current()
                },
                None => true,
            },
    {
        match ids.allocate() {
            None => None,
            Some(id) => {
                let vertices = [
                    Vertex2D { position: Vector2 { x: F32_ZERO, y: F32_ZERO }, tex_pos: Vector2 { x: F32_ZERO, y: F32_ZERO } },
                    Vertex2D { position: Vector2 { x: F32_ONE, y: F32_ZERO }, tex_pos: Vector2 { x: F32_ONE, y: F32_ZERO } },
                    Vertex2D { position: Vector2 { x: F32_ONE, y: F32_ONE }, tex_pos: Vector2 { x: F32_ONE, y: F32_ONE } },
                    Vertex2D { position: Vector2 { x: F32_ZERO, y: F32_ONE }, tex_pos: Vector2 { x: F32_ZERO, y: F32_ONE } },
                ];
                assert(vertices@ =~= unit_quad());
                Some(Entity2D {
                    id,
                    position,
                    rotation,
                    turn,
                    scale,
                    transformation: Transform2D::new(turn, scale),
                    origin,
                    tex_id,
                    vertices,
                })
            },
        }
    }

    /// Returns the identifier to the allocator; the entity is gone afterwards.
    /// Fails with `NotLive`, changing nothing, when the identifier is not live
    /// there (it was released already, or belongs to another allocator).
    pub fn destroy(self, ids: &mut IdentityAllocator) -> (r: Result<(), IdError>)
        requires
            old(ids).wf(),
        ensures
            final(ids).wf(),
            final(ids).space() == old(ids).space(),
            r is Ok <==> old(ids)@.contains(self.id_spec()),
            r is Ok ==> final(ids)@ == old(ids)@.remove(self.id_spec()),
            r is Err ==> final(ids)@ == old(ids)@,
            !final(ids)@.contains(self.id_spec()),
    {
        ids.release(self.id)
    }

    pub fn id(&self) -> (r: u32)
        ensures
            r == self.id_spec(),
    {
        self.id
    }

    pub fn position(&self) -> (r: Vector2)
        ensures
            r == self.position_spec(),
    {
        self.position
    }

    pub fn rotation(&self) -> (r: u32)
        ensures
            r == self.rotation_spec(),
    {
        self.rotation
    }

    pub fn scale(&self) -> (r: u32)
        ensures
            r == self.scale_spec(),
    {
        self.scale
    }

    pub fn texture_id(&self) -> (r: u32)
        ensures
            r == self.texture_id_spec(),
    {
        self.tex_id
    }

    pub fn vertices(&self) -> (r: &[Vertex2D; 4])
        ensures
            r@ == self.vertices_spec(),
    {
        &self.vertices
    }

    /// Sets the rotation and its cosine and sine; the transform is left as it
    /// was until `update`.
    pub fn set_rotation(&mut self, rotation: u32, turn: Turn)
        ensures
            final(self).rotation_spec() == rotation,
            final(self).turn_spec() == turn,
            final(self).id_spec() == old(self).id_spec(),
            final(self).position_spec() == old(self).position_spec(),
            final(self).scale_spec() == old(self).scale_spec(),
            final(self).transform_spec() == old(self).transform_spec(),
            final(self).origin_spec() == old(self).origin_spec(),
            final(self).texture_id_spec() == old(self).texture_id_spec(),
            final(self).vertices_spec() == old(self).vertices_spec(),
    {
        self.rotation = rotation;
        self.turn = turn;
    }

    /// Sets the scale; the transform is left as it was until `update`.
    pub fn set_scale(&mut self, scale: u32)
        ensures
            final(self).scale_spec() == scale,
            final(self).id_spec() == old(self).id_spec(),
            final(self).position_spec() == old(self).position_spec(),
            final(self).rotation_spec() == old(self).rotation_spec(),
            final(self).turn_spec() == old(self).turn_spec(),
            final(self).transform_spec() == old(self).transform_spec(),
            final(self).origin_spec() == old(self).origin_spec(),
            final(self).texture_id_spec() == old(self).texture_id_spec(),
            final(self).vertices_spec() == old(self).vertices_spec(),
    {
        self.scale = scale;
    }

    pub fn set_position(&mut self, x: u32, y: u32)
        ensures
            final(self).position_spec() == (Vector2 { x, y }),
            final(self).id_spec() == old(self).id_spec(),
            final(self).rotation_spec() == old(self).rotation_spec(),
            final(self).turn_spec() == old(self).turn_spec(),
            final(self).scale_spec() == old(self).scale_spec(),
            final(self).transform_spec() == old(self).transform_spec(),
            final(self).origin_spec() == old(self).origin_spec(),
            final(self).texture_id_spec() == old(self).texture_id_spec(),
            final(self).vertices_spec() == old(self).vertices_spec(),
    {
        self.position.x = x;
        self.position.y = y;
    }

    /// Recomputes the transform from the current rotation and scale.
    pub fn update(&mut self)
        ensures
            final(self).is_current(),
            final(self).id_spec() == old(self).id_spec(),
            final(self).position_spec() == old(self).position_spec(),
            final(self).rotation_spec() == old(self).rotation_spec(),
            final(self).turn_spec() == old(self).turn_spec(),
            final(self).scale_spec() == old(self).scale_spec(),
            final(self).origin_spec() == old(self).origin_spec(),
            final(self).texture_id_spec() == old(self).texture_id_spec(),
            final(self).vertices_spec() == old(self).vertices_spec(),
    {
        self.transformation.update(self.turn, self.scale);
    }

    /// A snapshot of position, transform and origin for the GPU.
    pub fn to_raw(&self) -> (r: RawEntity2D)
        ensures
            r == raw_of(self.position_spec(), self.transform_spec(), self.origin_spec()),
    {
        RawEntity2D {
            position: self.position,
            rotation: self.transformation.rotation(),
            scale: self.transformation.scale(),
            origin: self.origin,
        }
    }
}

/// An entity snapshotted right after creation carries its inputs: position
/// and origin as given, and the closed-form rotation and scale matrices of its
/// turn and scale.
pub proof fn lemma_fresh_snapshot(e: Entity2D, position: Vector2, turn: Turn, scale: u32, origin: Vector2)
    requires
        e.position_spec() == position,
        e.turn_spec() == turn,
        e.scale_spec() == scale,
        e.origin_spec() == origin,
        e.is_current(),
    ensures
        raw_of(e.position_spec(), e.transform_spec(), e.origin_spec()) == (RawEntity2D {
            position,
            rotation: rotation_matrix(turn),
            scale: scale_matrix(scale),
            origin,
        }),
{
}

} // verus!
