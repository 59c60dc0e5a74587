//! Vertex data and the layout descriptions that tell the GPU how a vertex
//! buffer is laid out in memory.
//!
//! Scalar components are carried as opaque 32-bit words (the bit patterns of
//! the single-precision values the GPU consumes); the logic here never does
//! arithmetic on them, it only moves them into place.

use vstd::prelude::*;

verus! {

/// The shape of one vertex attribute as the GPU reads it.
#[derive(Clone, Copy, Debug, PartialEq, Eq, Structural)]
pub enum VertexFormat {
    Float32x2,
    Float32x3,
    Float32x4,
}

impl VertexFormat {
    /// Size in bytes of one attribute of this format.
    pub open spec fn size(self) -> int {
        match self {
            VertexFormat::Float32x2 => 8,
            VertexFormat::Float32x3 => 12,
            VertexFormat::Float32x4 => 16,
        }
    }
}

/// Whether a buffer advances per vertex or per instance.
#[derive(Clone, Copy, Debug, PartialEq, Eq, Structural)]
pub enum VertexStepMode {
    Vertex,
    Instance,
}

/// One attribute of a vertex buffer: its format, its byte offset inside one
/// element, and the shader location it is bound to.
#[derive(Clone, Copy, Debug, PartialEq, Eq, Structural)]
pub struct VertexAttribute {
    pub format: VertexFormat,
    pub offset: u64,
    pub shader_location: u32,
}

/// A complete vertex buffer layout: the stride between elements, the step
/// mode, and the attributes packed into each element.
#[derive(Debug)]
pub struct VertexBufferLayout {
    pub array_stride: u64,
    pub step_mode: VertexStepMode,
    pub attributes: Vec<VertexAttribute>,
}

impl VertexBufferLayout {
    /// A layout is well formed when its attributes do not overlap, appear in
    /// increasing offset order, all fit inside one stride, and are bound to
    /// pairwise distinct shader locations.
    pub open spec fn wf(self) -> bool {
        &&& forall|i: int|
            0 <= i && i + 1 < self.attributes@.len() ==> self.attributes@[i].offset
                + self.attributes@[i].format.size() <= self.attributes@[i + 1].offset
        &&& self.attributes@.len() > 0 ==> self.attributes@.last().offset
            + self.attributes@.last().format.size() <= self.array_stride
        &&& forall|i: int, j: int|
            0 <= i < j < self.attributes@.len()
                ==> self.attributes@[i].shader_location != self.attributes@[j].shader_location
    }
}

/// A kind of vertex that knows its own buffer layout and can receive the
/// pieces a mesh loader hands out: a position, and optionally a normal and a
/// texture coordinate.
pub trait VertexLayout: Sized {
    /// Whether this vertex kind has a slot that stores a normal.
    spec fn spec_supports_normal() -> bool;

    /// Whether this vertex kind has a slot that stores a texture coordinate.
    spec fn spec_supports_uv() -> bool;

    /// The three position words of this vertex.
    spec fn spec_position(self) -> Seq<u32>;

    /// The three words of the normal slot, or zeros when there is none.
    spec fn spec_normal(self) -> Seq<u32>;

    /// The two words of the texture coordinate slot, or zeros when there is
    /// none.
    spec fn spec_uv(self) -> Seq<u32>;

    /// The message reported when a normal is handed to a kind without a
    /// normal slot. Kinds that have the slot never report it.
    spec fn spec_normal_error() -> Seq<char>;

    /// The message reported when a texture coordinate is handed to a kind
    /// without a slot for one. Kinds that have the slot never report it.
    spec fn spec_uv_error() -> Seq<char>;

    /// Stride of one vertex of this kind, in bytes.
    spec fn spec_stride() -> int;

    /// The attributes of one vertex of this kind.
    spec fn spec_attributes() -> Seq<VertexAttribute>;

    /// A fresh vertex with every slot zeroed.
    fn new() -> (v: Self)
        ensures
            v.spec_position() == seq![0u32, 0u32, 0u32],
            v.spec_normal() == seq![0u32, 0u32, 0u32],
            v.spec_uv() == seq![0u32, 0u32],
    ;

    /// The buffer layout of this vertex kind.
    fn layout() -> (l: VertexBufferLayout)
        ensures
            l.array_stride == Self::spec_stride(),
            l.step_mode == VertexStepMode::Vertex,
            l.attributes@ == Self::spec_attributes(),
            l.wf(),
    ;

    /// Stores a position, leaving the other slots as they were.
    fn add_position(&mut self, position: [u32; 3])
        ensures
            final(self).spec_position() == position@,
            final(self).spec_normal() == old(self).spec_normal(),
            final(self).spec_uv() == old(self).spec_uv(),
    ;

    /// Stores a normal when this vertex kind has a slot for one, and reports
    /// an error otherwise, leaving the vertex untouched.
    fn try_add_normal(&mut self, normal: [u32; 3]) -> (r: Result<(), &'static str>)
        ensures
            Self::spec_supports_normal() ==> {
                &&& r is Ok
                &&& final(self).spec_normal() == normal@
                &&& final(self).spec_position() == old(self).spec_position()
                &&& final(self).spec_uv() == old(self).spec_uv()
            },
            !Self::spec_supports_normal() ==> (r matches Err(m) && m@ == Self::spec_normal_error())
                && *final(self) == *old(self),
    ;

    /// Stores a color. Colors ride in the normal slot, so this is the same
    /// operation as adding a normal.
    fn try_add_color(&mut self, color: [u32; 3]) -> (r: Result<(), &'static str>)
        ensures
            Self::spec_supports_normal() ==> {
                &&& r is Ok
                &&& final(self).spec_normal() == color@
                &&& final(self).spec_position() == old(self).spec_position()
                &&& final(self).spec_uv() == old(self).spec_uv()
            },
            !Self::spec_supports_normal() ==> (r matches Err(m) && m@ == Self::spec_normal_error())
                && *final(self) == *old(self),
    {
        self.try_add_normal(color)
    }

    /// Stores a texture coordinate when this vertex kind has a slot for one,
    /// and reports an error otherwise, leaving the vertex untouched.
    fn try_add_uv(&mut self, uv: [u32; 2]) -> (r: Result<(), &'static str>)
        ensures
            Self::spec_supports_uv() ==> {
                &&& r is Ok
                &&& final(self).spec_uv() == uv@
                &&& final(self).spec_position() == old(self).spec_position()
                &&& final(self).spec_normal() == old(self).spec_normal()
            },
            !Self::spec_supports_uv() ==> (r matches Err(m) && m@ == Self::spec_uv_error())
                && *final(self) == *old(self),
    ;
}

/// A vertex that carries a position and nothing else.
#[derive(Clone, Copy, Debug)]
pub struct BasicVertex {
    pub position: [u32; 3],
}

/// A vertex that carries a position and a color.
#[derive(Clone, Copy, Debug)]
pub struct ColoredVertex {
    pub position: [u32; 3],
    pub color: [u32; 3],
}

/// A vertex that carries a position and a texture coordinate.
#[derive(Clone, Copy, Debug)]
pub struct TexturedVertex {
    pub position: [u32; 3],
    pub uv: [u32; 2],
}

impl VertexLayout for BasicVertex {
    open spec fn spec_supports_normal() -> bool {
        false
    }

    open spec fn spec_supports_uv() -> bool {
        false
    }

    open spec fn spec_position(self) -> Seq<u32> {
        self.position@
    }

    open spec fn spec_normal(self) -> Seq<u32> {
        seq![0u32, 0u32, 0u32]
    }

    open spec fn spec_uv(self) -> Seq<u32> {
        seq![0u32, 0u32]
    }

    open spec fn spec_normal_error() -> Seq<char> {
        "BasicVertex doesn't support normals!"@
    }

    open spec fn spec_uv_error() -> Seq<char> {
        "BasicVertex doesn't support uvs!"@
    }

    open spec fn spec_stride() -> int {
        12
    }

    open spec fn spec_attributes() -> Seq<VertexAttribute> {
        seq![
            VertexAttribute { format: VertexFormat::Float32x3, offset: 0, shader_location: 0 },
        ]
    }

    fn new() -> (v: Self) {
        let v = BasicVertex { position: [0u32, 0u32, 0u32] };
        proof {
            assert(v.position@ =~= seq![0u32, 0u32, 0u32]);
        }
        v
    }

    fn layout() -> (l: VertexBufferLayout) {
        let mut attributes: Vec<VertexAttribute> = Vec::new();
        attributes.push(
            VertexAttribute { format: VertexFormat::Float32x3, offset: 0, shader_location: 0 },
        );
        let l = VertexBufferLayout {
            array_stride: 12,
            step_mode: VertexStepMode::Vertex,
            attributes,
        };
        proof {
            assert(l.attributes@ =~= Self::spec_attributes());
        }
        l
    }

    fn add_position(&mut self, position: [u32; 3]) {
        self.position = position;
    }

    fn try_add_normal(&mut self, normal: [u32; 3]) -> (r: Result<(), &'static str>) {
        Err("BasicVertex doesn't support normals!")
    }

    fn try_add_uv(&mut self, uv: [u32; 2]) -> (r: Result<(), &'static str>) {
        Err("BasicVertex doesn't support uvs!")
    }
}

impl VertexLayout for ColoredVertex {
    open spec fn spec_supports_normal() -> bool {
        true
    }

    open spec fn spec_supports_uv() -> bool {
        false
    }

    open spec fn spec_position(self) -> Seq<u32> {
        self.position@
    }

    open spec fn spec_normal(self) -> Seq<u32> {
        self.color@
    }

    open spec fn spec_uv(self) -> Seq<u32> {
        seq![0u32, 0u32]
    }

    open spec fn spec_normal_error() -> Seq<char> {
        "BasicVertex doesn't support normals!"@
    }

    open spec fn spec_uv_error() -> Seq<char> {
        "BasicVertex doesn't support uvs!"@
    }

    open spec fn spec_stride() -> int {
        24
    }

    open spec fn spec_attributes() -> Seq<VertexAttribute> {
        seq![
            VertexAttribute { format: VertexFormat::Float32x3, offset: 0, shader_location: 0 },
            VertexAttribute { format: VertexFormat::Float32x3, offset: 12, shader_location: 1 },
        ]
    }

    fn new() -> (v: Self) {
        let v = ColoredVertex { position: [0u32, 0u32, 0u32], color: [0u32, 0u32, 0u32] };
        proof {
            assert(v.position@ =~= seq![0u32, 0u32, 0u32]);
            assert(v.color@ =~= seq![0u32, 0u32, 0u32]);
        }
        v
    }

    fn layout() -> (l: VertexBufferLayout) {
        let mut attributes: Vec<VertexAttribute> = Vec::new();
        attributes.push(
            VertexAttribute { format: VertexFormat::Float32x3, offset: 0, shader_location: 0 },
        );
        attributes.push(
            VertexAttribute { format: VertexFormat::Float32x3, offset: 12, shader_location: 1 },
        );
        let l = VertexBufferLayout {
            array_stride: 24,
            step_mode: VertexStepMode::Vertex,
            attributes,
        };
        proof {
            assert(l.attributes@ =~= Self::spec_attributes());
        }
        l
    }

    fn add_position(&mut self, position: [u32; 3]) {
        self.position = position;
    }

    fn try_add_normal(&mut self, normal: [u32; 3]) -> (r: Result<(), &'static str>) {
        self.color = normal;
        Ok(())
    }

    fn try_add_uv(&mut self, uv: [u32; 2]) -> (r: Result<(), &'static str>) {
        Err("BasicVertex doesn't support uvs!")
    }
}

impl VertexLayout for TexturedVertex {
    open spec fn spec_supports_normal() -> bool {
        false
    }

    open spec fn spec_supports_uv() -> bool {
        true
    }

    open spec fn spec_position(self) -> Seq<u32> {
        self.position@
    }

    open spec fn spec_normal(self) -> Seq<u32> {
        seq![0u32, 0u32, 0u32]
    }

    open spec fn spec_uv(self) -> Seq<u32> {
        self.uv@
    }

    open spec fn spec_normal_error() -> Seq<char> {
        "BasicVertex doesn't support normals!"@
    }

    open spec fn spec_uv_error() -> Seq<char> {
        "BasicVertex doesn't support uvs!"@
    }

    open spec fn spec_stride() -> int {
        20
    }

    open spec fn spec_attributes() -> Seq<VertexAttribute> {
        seq![
            VertexAttribute { format: VertexFormat::Float32x3, offset: 0, shader_location: 0 },
            VertexAttribute { format: VertexFormat::Float32x2, offset: 12, shader_location: 1 },
        ]
    }

    fn new() -> (v: Self) {
        let v = TexturedVertex { position: [0u32, 0u32, 0u32], uv: [0u32, 0u32] };
        proof {
            assert(v.position@ =~= seq![0u32, 0u32, 0u32]);
            assert(v.uv@ =~= seq![0u32, 0u32]);
        }
        v
    }

    fn layout() -> (l: VertexBufferLayout) {
        let mut attributes: Vec<VertexAttribute> = Vec::new();
        attributes.push(
            VertexAttribute { format: VertexFormat::Float32x3, offset: 0, shader_location: 0 },
        );
        attributes.push(
            VertexAttribute { format: VertexFormat::Float32x2, offset: 12, shader_location: 1 },
        );
        let l = VertexBufferLayout {
            array_stride: 20,
            step_mode: VertexStepMode::Vertex,
            attributes,
        };
        proof {
            assert(l.attributes@ =~= Self::spec_attributes());
        }
        l
    }

    fn add_position(&mut self, position: [u32; 3]) {
        self.position = position;
    }

    fn try_add_normal(&mut self, normal: [u32; 3]) -> (r: Result<(), &'static str>) {
        Err("BasicVertex doesn't support normals!")
    }

    fn try_add_uv(&mut self, uv: [u32; 2]) -> (r: Result<(), &'static str>) {
        self.uv = uv;
        Ok(())
    }
}

/// Per-instance data: one model matrix, sixteen 32-bit words.
#[derive(Clone, Copy, Debug)]
pub struct BasicInstanceData {
    data: [[u32; 4]; 4],
}

/// The attributes a model matrix is chopped into: four four-word columns at
/// consecutive shader locations.
pub open spec fn matrix_attributes() -> Seq<VertexAttribute> {
    seq![
        VertexAttribute { format: VertexFormat::Float32x4, offset: 0, shader_location: 2 },
        VertexAttribute { format: VertexFormat::Float32x4, offset: 16, shader_location: 3 },
        VertexAttribute { format: VertexFormat::Float32x4, offset: 32, shader_location: 4 },
        VertexAttribute { format: VertexFormat::Float32x4, offset: 48, shader_location: 5 },
    ]
}

/// Builds the instance buffer layout for one model matrix: a matrix has to be
/// chopped into four-component columns, handed to consecutive shader
/// locations, and reassembled in the shader.
pub(crate) fn matrix_instance_layout() -> (l: VertexBufferLayout)
    ensures
        l.array_stride == 64,
        l.step_mode == VertexStepMode::Instance,
        l.attributes@ == matrix_attributes(),
        l.wf(),
{
    let mut attributes: Vec<VertexAttribute> = Vec::new();
    attributes.push(
        VertexAttribute { format: VertexFormat::Float32x4, offset: 0, shader_location: 2 },
    );
    attributes.push(
        VertexAttribute { format: VertexFormat::Float32x4, offset: 16, shader_location: 3 },
    );
    attributes.push(
        VertexAttribute { format: VertexFormat::Float32x4, offset: 32, shader_location: 4 },
    );
    attributes.push(
        VertexAttribute { format: VertexFormat::Float32x4, offset: 48, shader_location: 5 },
    );
    let l = VertexBufferLayout {
        array_stride: 64,
        step_mode: VertexStepMode::Instance,
        attributes,
    };
    proof {
        assert(l.attributes@ =~= matrix_attributes());
    }
    l
}

impl BasicInstanceData {
    /// The buffer layout of per-instance model matrices.
    pub fn layout() -> (l: VertexBufferLayout)
        ensures
            l.array_stride == 64,
            l.step_mode == VertexStepMode::Instance,
            l.attributes@ == matrix_attributes(),
            l.wf(),
    {
        matrix_instance_layout()
    }
}

} // verus!
