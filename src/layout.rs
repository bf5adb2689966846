use vstd::prelude::*;
use crate::transform::{Mat2, Vector2};

verus! {

/// Numeric format of one vertex attribute.
#[derive(Debug, Clone, Copy, PartialEq, Eq, Structural)]
pub enum VertexFormat {
    /// Two unsigned 32-bit integers.
    Uint32x2,
    /// Two single-precision floats.
    Float32x2,
}

/// How often the GPU advances through a vertex buffer.
#[derive(Debug, Clone, Copy, PartialEq, Eq, Structural)]
pub enum StepMode {
    /// Once per vertex.
    Vertex,
    /// Once per drawn instance.
    Instance,
}

/// One attribute of a vertex buffer: where it sits in a record, the shader
/// slot that reads it, and its format.
#[derive(Debug, Clone, Copy, PartialEq, Eq, Structural)]
pub struct VertexAttribute {
    pub offset: u64,
    pub shader_location: u32,
    pub format: VertexFormat,
}

/// The shape of a vertex buffer as the pipeline sees it.
pub struct BufferLayout {
    pub array_stride: u64,
    pub step_mode: StepMode,
    pub attributes: Vec<VertexAttribute>,
}

/// Size in bytes of an instance record.
pub const RAW_ENTITY_SIZE: u64 = 48;

/// The first shader slot of the instance attributes; the static vertex
/// layout holds the slots below it.
pub const FIRST_INSTANCE_LOCATION: u32 = 2;

/// Size in bytes of an attribute of the given format.
pub open spec fn format_size(f: VertexFormat) -> nat {
    match f {
        VertexFormat::Uint32x2 => 8,
        VertexFormat::Float32x2 => 8,
    }
}

/// The fields of an instance record in order: position, the two rotation
/// rows, the two scale rows, origin.
pub open spec fn instance_formats() -> Seq<VertexFormat> {
    seq![
        VertexFormat::Uint32x2,
        VertexFormat::Float32x2,
        VertexFormat::Float32x2,
        VertexFormat::Float32x2,
        VertexFormat::Float32x2,
        VertexFormat::Uint32x2,
    ]
}

/// Total size of the first `n` formats.
pub open spec fn size_before(fs: Seq<VertexFormat>, n: nat) -> nat
    decreases n,
{
    if n == 0 || n > fs.len() {
        0
    } else {
        size_before(fs, (n - 1) as nat) + format_size(fs[n - 1])
    }
}

/// The attribute list that a record of the given formats packs to: each at
/// the sum of the sizes before it, in consecutive slots from `first`.
pub open spec fn packed_attributes(fs: Seq<VertexFormat>, first: u32) -> Seq<VertexAttribute> {
    Seq::new(
        fs.len(),
        |i: int|
            VertexAttribute {
                offset: size_before(fs, i as nat) as u64,
                shader_location: (first + i) as u32,
                format: fs[i],
            },
    )
}

/// The GPU-facing snapshot of an entity. The matrices hold single-precision
/// bit patterns.
#[derive(Debug, Clone, Copy, PartialEq, Eq, Structural)]
pub struct RawEntity2D {
    pub position: Vector2,
    pub rotation: Mat2,
    pub scale: Mat2,
    pub origin: Vector2,
}

/// The record as 32-bit words in field order.
pub open spec fn raw_words(r: RawEntity2D) -> Seq<u32> {
    seq![
        r.position.x, r.position.y,
        r.rotation.m00, r.rotation.m01, r.rotation.m10, r.rotation.m11,
        r.scale.m00, r.scale.m01, r.scale.m10, r.scale.m11,
        r.origin.x, r.origin.y,
    ]
}

/// Byte `k` (0 = least significant) of `w`.
pub open spec fn byte_of(w: u32, k: int) -> u8 {
    ((w >> (8 * k) as u32) & 0xff) as u8
}

/// Words laid out little-endian, four bytes each.
pub open spec fn le_bytes(ws: Seq<u32>) -> Seq<u8> {
    Seq::new(4 * ws.len(), |i: int| byte_of(ws[i / 4], i % 4))
}

impl RawEntity2D {
    /// The instance-buffer layout that the shader reads a record with.
    pub fn descriptor() -> (r: BufferLayout)
        ensures
            r.array_stride == RAW_ENTITY_SIZE,
            r.step_mode == StepMode::Instance,
            r.attributes@ == packed_attributes(instance_formats(), FIRST_INSTANCE_LOCATION),
    {
        let mut attributes: Vec<VertexAttribute> = Vec::new();
        attributes.push(VertexAttribute { offset: 0, shader_location: 2, format: VertexFormat::Uint32x2 });
        attributes.push(VertexAttribute { offset: 8, shader_location: 3, format: VertexFormat::Float32x2 });
        attributes.push(VertexAttribute { offset: 16, shader_location: 4, format: VertexFormat::Float32x2 });
        attributes.push(VertexAttribute { offset: 24, shader_location: 5, format: VertexFormat::Float32x2 });
        attributes.push(VertexAttribute { offset: 32, shader_location: 6, format: VertexFormat::Float32x2 });
        attributes.push(VertexAttribute { offset: 40, shader_location: 7, format: VertexFormat::Uint32x2 });
        proof {
            let fs = instance_formats();
            reveal_with_fuel(size_before, 7);
            assert(size_before(fs, 6) == 48);
            assert(attributes@ =~= packed_attributes(fs, FIRST_INSTANCE_LOCATION));
        }
        BufferLayout { array_stride: RAW_ENTITY_SIZE, step_mode: StepMode::Instance, attributes }
    }

    /// The record as 32-bit words in field order.
    pub fn to_words(&self) -> (r: Vec<u32>)
        ensures
            r@ == raw_words(*self),
    {
        let r = vec![
            self.position.x, self.position.y,
            self.rotation.m00, self.rotation.m01, self.rotation.m10, self.rotation.m11,
            self.scale.m00, self.scale.m01, self.scale.m10, self.scale.m11,
            self.origin.x, self.origin.y,
        ];
        assert(r@ =~= raw_words(*self));
        r
    }

    /// The record as the bytes an instance buffer holds: its words,
    /// little-endian, with no padding.
    pub fn to_bytes(&self) -> (r: Vec<u8>)
        ensures
            r@ == le_bytes(raw_words(*self)),
            r@.len() == RAW_ENTITY_SIZE,
    {
        let ws = self.to_words();
        let mut r: Vec<u8> = Vec::new();
        let mut i: usize = 0;
        while i < ws.len()
            invariant
                ws@ == raw_words(*self),
                0 <= i <= ws@.len(),
                r@ =~= le_bytes(ws@.subrange(0, i as int)),
            decreases ws@.len() - i,
        {
            let w = ws[i];
            r.push((w & 0xff) as u8);
            r.push(((w >> 8u32) & 0xff) as u8);
            r.push(((w >> 16u32) & 0xff) as u8);
            r.push(((w >> 24u32) & 0xff) as u8);
            proof {
                assert(w >> 0u32 == w) by (bit_vector);
                let prev = ws@.subrange(0, i as int);
                let next = ws@.subrange(0, i + 1);
                assert forall|k: int| 0 <= k < 4 * next.len() implies
                    #[trigger] le_bytes(next)[k] == r@[k] by {
                    if k < 4 * prev.len() {
                        assert(next[k / 4] == prev[k / 4]);
                    }
                }
            }
            i = i + 1;
        }
        assert(ws@.subrange(0, ws@.len() as int) =~= ws@);
        r
    }
}

/// The instance attributes are packed: attribute `i` starts at byte `8 i`
/// and is read at shader slot `FIRST_INSTANCE_LOCATION + i`, and the stride is
/// the sum of all field sizes.
pub proof fn lemma_instance_layout_packed()
    ensures
        packed_attributes(instance_formats(), FIRST_INSTANCE_LOCATION).len() == 6,
        forall|i: int| 0 <= i < 6 ==> {
            let a = #[trigger] packed_attributes(instance_formats(), FIRST_INSTANCE_LOCATION)[i];
            a.offset == 8 * i && a.shader_location == FIRST_INSTANCE_LOCATION + i
        },
        size_before(instance_formats(), 6) == RAW_ENTITY_SIZE,
{
    reveal_with_fuel(size_before, 7);
    let fs = instance_formats();
    assert(size_before(fs, 1) == 8);
    assert(size_before(fs, 2) == 16);
    assert(size_before(fs, 3) == 24);
    assert(size_before(fs, 4) == 32);
    assert(size_before(fs, 5) == 40);
}

} // verus!
