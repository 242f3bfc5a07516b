//! Screen-space geometry: exact coordinates, the two quads that a frame
//! draws, and the layout of a vertex in a vertex buffer.
//!
//! Coordinates are kept as exact quotients of integers. A backend that
//! needs floating point divides numerator by denominator when it fills a
//! buffer, in a precision that holds both exactly, and rounds the quotient
//! once.

use vstd::prelude::*;

verus! {

/// An unsigned quotient `num / den`.
///
/// A zero denominator is representable: it stands for the quotient by a
/// degenerate window dimension and is never produced for a configured
/// surface.
#[derive(Clone, Copy, Debug, PartialEq, Eq, Structural)]
pub struct Ratio {
    pub num: u32,
    pub den: u32,
}

/// A signed quotient `num / den`, one coordinate of a vertex.
#[derive(Clone, Copy, Debug, PartialEq, Eq, Structural)]
pub struct Scalar {
    pub num: i64,
    pub den: u32,
}

impl Ratio {
    /// The quotient `1 / 1`.
    pub open spec fn unit() -> Ratio {
        Ratio { num: 1, den: 1 }
    }

    /// This quotient as a coordinate on the positive side of the origin.
    pub open spec fn positive(self) -> Scalar {
        Scalar { num: self.num as i64, den: self.den }
    }

    /// This quotient mirrored to the negative side of the origin.
    pub open spec fn negative(self) -> Scalar {
        Scalar { num: (-(self.num as int)) as i64, den: self.den }
    }

    /// Returns the coordinate `num / den`.
    pub fn to_positive(&self) -> (s: Scalar)
        ensures
            s == self.positive(),
    {
        Scalar { num: self.num as i64, den: self.den }
    }

    /// Returns the coordinate `-num / den`.
    pub fn to_negative(&self) -> (s: Scalar)
        ensures
            s == self.negative(),
    {
        Scalar { num: -(self.num as i64), den: self.den }
    }
}

impl Scalar {
    /// The coordinate `0 / 1`.
    pub open spec fn zero() -> Scalar {
        Scalar { num: 0, den: 1 }
    }

    /// The coordinate `1 / 1`.
    pub open spec fn one() -> Scalar {
        Scalar { num: 1, den: 1 }
    }
}

/// One corner of a quad: a position in normalized device coordinates and
/// the texture coordinate sampled there.
#[derive(Clone, Copy, Debug, PartialEq, Eq, Structural)]
pub struct Vertex {
    pub x: Scalar,
    pub y: Scalar,
    pub u: Scalar,
    pub v: Scalar,
}

/// Number of vertices in a quad drawn as a triangle strip.
pub const QUAD_VERTEX_COUNT: u32 = 4;

/// An axis-aligned rectangle centred on the origin of normalized device
/// coordinates, given by its half-extent along each axis.
#[derive(Clone, Copy, Debug, PartialEq, Eq, Structural)]
pub struct Quad {
    pub half_width: Ratio,
    pub half_height: Ratio,
}

/// The quad that covers the whole render target.
pub open spec fn full_screen_quad() -> Quad {
    Quad { half_width: Ratio::unit(), half_height: Ratio::unit() }
}

/// The quad that shows a bitmap of `bitmap` pixels at a constant on-screen
/// size in a window of `window` pixels: its half-extent is the bitmap's
/// size over the window's, axis by axis.
pub open spec fn text_quad(bitmap: (u32, u32), window: (u32, u32)) -> Quad {
    Quad {
        half_width: Ratio { num: bitmap.0, den: window.0 },
        half_height: Ratio { num: bitmap.1, den: window.1 },
    }
}

/// The four corners of `quad` in triangle-strip order: bottom left, top
/// left, bottom right, top right, with texture coordinates running from
/// `(0, 0)` to `(1, 1)`.
pub open spec fn quad_vertices(quad: Quad) -> Seq<Vertex> {
    seq![
        Vertex {
            x: quad.half_width.negative(),
            y: quad.half_height.negative(),
            u: Scalar::zero(),
            v: Scalar::zero(),
        },
        Vertex {
            x: quad.half_width.negative(),
            y: quad.half_height.positive(),
            u: Scalar::zero(),
            v: Scalar::one(),
        },
        Vertex {
            x: quad.half_width.positive(),
            y: quad.half_height.negative(),
            u: Scalar::one(),
            v: Scalar::zero(),
        },
        Vertex {
            x: quad.half_width.positive(),
            y: quad.half_height.positive(),
            u: Scalar::one(),
            v: Scalar::one(),
        },
    ]
}

impl Quad {
    /// Returns the quad that covers the whole render target.
    pub fn full_screen() -> (quad: Quad)
        ensures
            quad == full_screen_quad(),
    {
        Quad { half_width: Ratio { num: 1, den: 1 }, half_height: Ratio { num: 1, den: 1 } }
    }

    /// Returns the quad that encloses a bitmap of `bitmap` pixels in a
    /// window of `window` pixels.
    pub fn for_text(bitmap: (u32, u32), window: (u32, u32)) -> (quad: Quad)
        ensures
            quad == text_quad(bitmap, window),
    {
        Quad {
            half_width: Ratio { num: bitmap.0, den: window.0 },
            half_height: Ratio { num: bitmap.1, den: window.1 },
        }
    }

    /// Returns the contents of the vertex buffer that draws this quad.
    pub fn vertices(&self) -> (corners: Vec<Vertex>)
        ensures
            corners@ == quad_vertices(*self),
            corners@.len() == QUAD_VERTEX_COUNT,
    {
        let zero = Scalar { num: 0, den: 1 };
        let one = Scalar { num: 1, den: 1 };
        let left = self.half_width.to_negative();
        let right = self.half_width.to_positive();
        let bottom = self.half_height.to_negative();
        let top = self.half_height.to_positive();
        let mut corners: Vec<Vertex> = Vec::new();
        corners.push(Vertex { x: left, y: bottom, u: zero, v: zero });
        corners.push(Vertex { x: left, y: top, u: zero, v: one });
        corners.push(Vertex { x: right, y: bottom, u: one, v: zero });
        corners.push(Vertex { x: right, y: top, u: one, v: one });
        assert(corners@ =~= quad_vertices(*self));
        corners
    }
}

/// The type of one vertex attribute as a shader reads it.
#[derive(Clone, Copy, Debug, PartialEq, Eq, Structural)]
pub enum VertexFormat {
    /// One 32-bit float.
    Float32,
    /// Two 32-bit floats.
    Float32x2,
    /// Three 32-bit floats.
    Float32x3,
    /// Four 32-bit floats.
    Float32x4,
}

impl VertexFormat {
    /// Bytes that one attribute of this format occupies.
    pub open spec fn byte_size(self) -> nat {
        match self {
            VertexFormat::Float32 => 4,
            VertexFormat::Float32x2 => 8,
            VertexFormat::Float32x3 => 12,
            VertexFormat::Float32x4 => 16,
        }
    }

    /// Returns the bytes that one attribute of this format occupies.
    pub fn size(&self) -> (bytes: u64)
        ensures
            bytes == self.byte_size(),
    {
        match self {
            VertexFormat::Float32 => 4,
            VertexFormat::Float32x2 => 8,
            VertexFormat::Float32x3 => 12,
            VertexFormat::Float32x4 => 16,
        }
    }
}

/// Whether a vertex buffer advances once per vertex or once per instance.
#[derive(Clone, Copy, Debug, PartialEq, Eq, Structural)]
pub enum VertexStepMode {
    Vertex,
    Instance,
}

/// Where one attribute sits inside a vertex and which shader input reads it.
#[derive(Clone, Copy, Debug, PartialEq, Eq, Structural)]
pub struct VertexAttribute {
    pub format: VertexFormat,
    pub offset: u64,
    pub shader_location: u32,
}

/// How a pipeline reads one vertex buffer.
#[derive(Clone, Debug, PartialEq, Eq)]
pub struct VertexBufferLayout {
    pub array_stride: u64,
    pub step_mode: VertexStepMode,
    pub attributes: Vec<VertexAttribute>,
}

/// The mathematical content of a [`VertexBufferLayout`].
pub struct VertexBufferLayoutView {
    pub array_stride: u64,
    pub step_mode: VertexStepMode,
    pub attributes: Seq<VertexAttribute>,
}

impl View for VertexBufferLayout {
    type V = VertexBufferLayoutView;

    open spec fn view(&self) -> VertexBufferLayoutView {
        VertexBufferLayoutView {
            array_stride: self.array_stride,
            step_mode: self.step_mode,
            attributes: self.attributes@,
        }
    }
}

/// Bytes taken by the first `count` attributes of `attributes`.
pub open spec fn attributes_size(attributes: Seq<VertexAttribute>, count: nat) -> nat
    decreases count,
{
    if count == 0 || count > attributes.len() {
        0
    } else {
        attributes_size(attributes, (count - 1) as nat) + attributes[count - 1].format.byte_size()
    }
}

impl VertexBufferLayoutView {
    /// The attributes tile the vertex without gap or overlap: each starts
    /// where the one before it ends, the stride is their total size, and
    /// attribute `i` feeds shader location `i`.
    pub open spec fn packed(self) -> bool {
        &&& self.array_stride == attributes_size(self.attributes, self.attributes.len())
        &&& forall|i: int|
            0 <= i < self.attributes.len() ==> {
                &&& (#[trigger] self.attributes[i]).offset == attributes_size(
                    self.attributes,
                    i as nat,
                )
                &&& self.attributes[i].shader_location == i
            }
    }
}

/// The layout of a [`Vertex`] in a buffer: the position as two floats at
/// offset 0 for shader location 0, the texture coordinate as two floats
/// right behind it for shader location 1, advancing once per vertex.
pub open spec fn vertex_layout() -> VertexBufferLayoutView {
    VertexBufferLayoutView {
        array_stride: 16,
        step_mode: VertexStepMode::Vertex,
        attributes: seq![
            VertexAttribute { format: VertexFormat::Float32x2, offset: 0, shader_location: 0 },
            VertexAttribute { format: VertexFormat::Float32x2, offset: 8, shader_location: 1 },
        ],
    }
}

/// The vertex layout leaves no byte of a vertex unread and reads none twice.
pub proof fn lemma_vertex_layout_packed()
    ensures
        vertex_layout().packed(),
{
    let attributes = vertex_layout().attributes;
    reveal_with_fuel(attributes_size, 3);
    assert(attributes_size(attributes, 0) == 0);
    assert(attributes_size(attributes, 1) == 8);
    assert(attributes_size(attributes, 2) == 16);
}

impl Vertex {
    /// Returns the layout of a vertex buffer that holds values of this type.
    pub fn desc() -> (layout: VertexBufferLayout)
        ensures
            layout@ == vertex_layout(),
    {
        let position = VertexFormat::Float32x2;
        let coordinate = VertexFormat::Float32x2;
        let mut attributes: Vec<VertexAttribute> = Vec::new();
        attributes.push(VertexAttribute { format: position, offset: 0, shader_location: 0 });
        attributes.push(
            VertexAttribute { format: coordinate, offset: position.size(), shader_location: 1 },
        );
        let layout = VertexBufferLayout {
            array_stride: position.size() + coordinate.size(),
            step_mode: VertexStepMode::Vertex,
            attributes,
        };
        assert(layout@.attributes =~= vertex_layout().attributes);
        layout
    }
}

} // verus!
