use vstd::prelude::*;

verus! {

// Floating-point values cross this library as their IEEE-754 single-precision
// bit patterns; the library moves and composes them but does no arithmetic on them.
/// Bit pattern of `0.0`.
pub const F32_ZERO: u32 = 0x0000_0000;

/// Bit pattern of `1.0`.
pub const F32_ONE: u32 = 0x3F80_0000;

/// The sign bit of a single-precision value.
pub const F32_SIGN: u32 = 0x8000_0000;

/// A pair of coordinates.
#[derive(Debug, Clone, Copy, PartialEq, Eq, Structural)]
pub struct Vector2 {
    pub x: u32,
    pub y: u32,
}

impl Vector2 {
    pub fn new(x: u32, y: u32) -> (r: Self)
        ensures
            r.x == x,
            r.y == y,
    {
        Vector2 { x, y }
    }

    /// The coordinates in field order, as the GPU reads them.
    pub fn to_raw(&self) -> (r: [u32; 2])
        ensures
            r@ == seq![self.x, self.y],
    {
        let r = [self.x, self.y];
        assert(r@ =~= seq![self.x, self.y]);
        r
    }
}

/// A 2x2 matrix of single-precision bit patterns, row by row.
#[derive(Debug, Clone, Copy, PartialEq, Eq, Structural)]
pub struct Mat2 {
    pub m00: u32,
    pub m01: u32,
    pub m10: u32,
    pub m11: u32,
}

/// The cosine and sine of a rotation angle, as bit patterns. Evaluating the
/// trigonometric functions is floating-point work done by the caller.
#[derive(Debug, Clone, Copy, PartialEq, Eq, Structural)]
pub struct Turn {
    pub cos: u32,
    pub sin: u32,
}

/// The bit pattern of `-x`: IEEE-754 negation flips the sign bit alone.
pub open spec fn neg_bits(x: u32) -> u32 {
    x ^ F32_SIGN
}

/// `[[cos θ, -sin θ], [sin θ, cos θ]]`.
pub open spec fn rotation_matrix(t: Turn) -> Mat2 {
    Mat2 { m00: t.cos, m01: neg_bits(t.sin), m10: t.sin, m11: t.cos }
}

/// `[[s, 0], [0, s]]`.
pub open spec fn scale_matrix(s: u32) -> Mat2 {
    Mat2 { m00: s, m01: F32_ZERO, m10: F32_ZERO, m11: s }
}

fn negate(x: u32) -> (r: u32)
    ensures
        r == neg_bits(x),
{
    x ^ F32_SIGN
}

/// Rotation and uniform-scale matrices derived from a turn and a scale factor.
#[derive(Debug, Clone, Copy, PartialEq, Eq, Structural)]
pub struct Transform2D {
    rotation: Mat2,
    scale: Mat2,
}

impl Transform2D {
    pub closed spec fn rotation_spec(&self) -> Mat2 {
        self.rotation
    }

    pub closed spec fn scale_spec(&self) -> Mat2 {
        self.scale
    }

    pub fn new(turn: Turn, scale: u32) -> (r: Self)
        ensures
            r.rotation_spec() == rotation_matrix(turn),
            r.scale_spec() == scale_matrix(scale),
    {
        Transform2D {
            rotation: Mat2 { m00: turn.cos, m01: negate(turn.sin), m10: turn.sin, m11: turn.cos },
            scale: Mat2 { m00: scale, m01: F32_ZERO, m10: F32_ZERO, m11: scale },
        }
    }

    /// Recomputes both matrices from the given turn and scale; nothing of the
    /// previous state survives.
    pub fn update(&mut self, turn: Turn, scale: u32)
        ensures
            final(self).rotation_spec() == rotation_matrix(turn),
            final(self).scale_spec() == scale_matrix(scale),
    {
        *self = Transform2D::new(turn, scale);
    }

    pub fn rotation(&self) -> (r: Mat2)
        ensures
            r == self.rotation_spec(),
    {
        self.rotation
    }

    pub fn scale(&self) -> (r: Mat2)
        ensures
            r == self.scale_spec(),
    {
        self.scale
    }
}

/// Updating twice with the same turn and scale leaves a transform identical,
/// bit for bit, to updating once: it depends on its inputs alone.
pub proof fn lemma_update_idempotent(once: Transform2D, twice: Transform2D, turn: Turn, scale: u32)
    requires
        once.rotation_spec() == rotation_matrix(turn),
        once.scale_spec() == scale_matrix(scale),
        twice.rotation_spec() == rotation_matrix(turn),
        twice.scale_spec() == scale_matrix(scale),
    ensures
        once == twice,
{
}

} // verus!
