use vstd::prelude::*;
use vstd::std_specs::cmp::PartialEqSpecImpl;
use core::marker::PhantomData;

verus! {

/// A factor in the blend equation.
#[derive(Clone, Copy, PartialEq, Eq, Structural, Debug)]
pub enum BlendFac {
    Zero,
    One,
    SrcColor,
    OneMinusSrcColor,
    DestColor,
    OneMinusDestColor,
    SrcAlpha,
    OneMinusSrcAlpha,
    DestAlpha,
    OneMinusDestAlpha,
    SrcAlphaSaturate,
}

/// How the weighted source and destination are combined.
#[derive(Clone, Copy, PartialEq, Eq, Structural, Debug)]
pub enum BlendOp {
    Add,
    Sub,
    ReverseSub,
    Min,
    Max,
}

/// A comparison used by the stencil test.
#[derive(Clone, Copy, PartialEq, Eq, Structural, Debug)]
pub enum Cmp {
    Never,
    Less,
    Equal,
    LessOrEqual,
    Greater,
    NotEqual,
    GreaterOrEqual,
    Always,
}

/// What the stencil test does to the stencil buffer.
#[derive(Clone, Copy, PartialEq, Eq, Structural, Debug)]
pub enum StencilOp {
    Keep,
    Zero,
    Replace,
    Incr,
    IncrWrap,
    Decr,
    DecrWrap,
    Invert,
}

#[derive(Clone, Copy, Debug)]
pub struct BlendDesc {
    pub src: BlendFac,
    pub dest: BlendFac,
    pub op: BlendOp,
}

#[derive(Clone, Copy, Debug)]
pub struct BlendState {
    pub color: BlendDesc,
    pub alpha: BlendDesc,
}

#[derive(Clone, Copy, Debug)]
pub struct StencilState {
    pub cmp: Cmp,
    pub fail_op: StencilOp,
    pub depth_fail_op: StencilOp,
    pub pass_op: StencilOp,
}

/// How the vertices of a draw call are assembled. The width of points and
/// lines is the bit pattern of its single-precision value.
#[derive(Clone, Copy, PartialEq, Eq, Structural, Debug)]
pub enum Primitive {
    Point(u32),
    Line(u32),
    Triangle,
    LineStrip,
    TriangleFan,
    TriangleStrip,
}

/// The GL drawing mode of each primitive.
pub open spec fn spec_gl_mode(p: Primitive) -> u32 {
    match p {
        Primitive::Point(_) => 0x0000,
        Primitive::Line(_) => 0x0001,
        Primitive::Triangle => 0x0004,
        Primitive::LineStrip => 0x0003,
        Primitive::TriangleFan => 0x0006,
        Primitive::TriangleStrip => 0x0005,
    }
}

impl Primitive {
    /// The GL drawing mode passed to the draw call.
    pub fn gl_mode(&self) -> (r: u32)
        ensures
            r == spec_gl_mode(*self),
    {
        match self {
            Primitive::Point(_) => 0x0000,
            Primitive::Line(_) => 0x0001,
            Primitive::Triangle => 0x0004,
            Primitive::LineStrip => 0x0003,
            Primitive::TriangleFan => 0x0006,
            Primitive::TriangleStrip => 0x0005,
        }
    }

    /// The line width a draw call sets before drawing: only lines set one.
    pub fn line_width(&self) -> (r: Option<u32>)
        ensures
            r == (match *self {
                Primitive::Line(w) => Some(w),
                _ => None,
            }),
    {
        match self {
            Primitive::Line(w) => Some(*w),
            _ => None,
        }
    }
}

/// The two programmable stages a pipeline is built from.
#[derive(Clone, Copy, PartialEq, Eq, Structural, Debug)]
pub enum ShaderType {
    Vertex,
    Fragment,
}

/// The GL shader kind of each stage.
pub open spec fn spec_shader_kind(t: ShaderType) -> u32 {
    match t {
        ShaderType::Vertex => 0x8B31,
        ShaderType::Fragment => 0x8B30,
    }
}

/// The word that opens a compile error of each stage.
pub open spec fn spec_stage_label(t: ShaderType) -> Seq<char> {
    match t {
        ShaderType::Vertex => "vert error: "@,
        ShaderType::Fragment => "frag error: "@,
    }
}

impl ShaderType {
    /// The GL shader kind created for this stage.
    pub fn gl_kind(&self) -> (r: u32)
        ensures
            r == spec_shader_kind(*self),
    {
        match self {
            ShaderType::Vertex => 0x8B31,
            ShaderType::Fragment => 0x8B30,
        }
    }
}

/// Characters with the Unicode `White_Space` property.
pub open spec fn is_white_space(c: char) -> bool {
    let u = c as u32;
    ||| 0x09 <= u <= 0x0D
    ||| u == 0x20
    ||| u == 0x85
    ||| u == 0xA0
    ||| u == 0x1680
    ||| 0x2000 <= u <= 0x200A
    ||| u == 0x2028
    ||| u == 0x2029
    ||| u == 0x202F
    ||| u == 0x205F
    ||| u == 0x3000
}

/// `s` without its leading white space.
pub open spec fn trim_start_spec(s: Seq<char>) -> Seq<char>
    decreases s.len(),
{
    if s.len() > 0 && is_white_space(s[0]) {
        trim_start_spec(s.drop_first())
    } else {
        s
    }
}

/// `s` without its trailing white space.
pub open spec fn trim_end_spec(s: Seq<char>) -> Seq<char>
    decreases s.len(),
{
    if s.len() > 0 && is_white_space(s.last()) {
        trim_end_spec(s.drop_last())
    } else {
        s
    }
}

/// `s` without leading and trailing white space.
pub open spec fn trim_spec(s: Seq<char>) -> Seq<char> {
    trim_end_spec(trim_start_spec(s))
}

/// Calls `str::trim`, which std documents as removing the leading and
/// trailing characters that have the Unicode `White_Space` property.
#[verifier::external_body]
fn trim_str(s: &str) -> (r: &str)
    ensures
        r@ == trim_spec(s@),
{
    s.trim()
}

/// Decides what a pipeline build does once a stage was compiled: go on when
/// it compiled, else fail with the stage's label followed by its
/// compile log without surrounding white space.
pub fn shader_check(stage: ShaderType, compiled: bool, log: &str) -> (r: Result<(), String>)
    ensures
        compiled ==> r is Ok,
        !compiled ==> (r matches Err(m) && m@ == spec_stage_label(stage) + trim_spec(log@)),
{
    if compiled {
        return Ok(());
    }
    let mut m = match stage {
        ShaderType::Vertex => String::from_str("vert error: "),
        ShaderType::Fragment => String::from_str("frag error: "),
    };
    m.append(trim_str(log));
    Err(m)
}

/// An input of the vertex stage: its name, its number of components, and the
/// position of its first component within a vertex, in components.
#[derive(Clone, Debug)]
pub struct VertexAttr {
    pub name: String,
    pub size: i32,
    pub offset: usize,
}

/// Size in bytes of one vertex component.
pub const COMPONENT_BYTES: usize = 4usize;

impl VertexAttr {
    /// The byte offset of this input within a vertex, as passed to GL.
    pub fn byte_offset(&self) -> (r: i32)
        requires
            self.offset * COMPONENT_BYTES <= usize::MAX,
        ensures
            r == (self.offset * COMPONENT_BYTES) as i32,
    {
        (self.offset * COMPONENT_BYTES) as i32
    }
}

/// The arguments a draw call passes to GL to describe one vertex input.
#[derive(Clone, Copy, PartialEq, Eq, Structural, Debug)]
pub struct AttribPointer {
    /// The location the program gave the input.
    pub index: u32,
    /// The number of components of the input.
    pub size: i32,
    /// The size of a whole vertex in bytes.
    pub stride: i32,
    /// The byte offset of the input within a vertex.
    pub offset: i32,
}

impl VertexAttr {
    /// How a draw call describes this input to GL, once the program placed it
    /// at `location`, for vertices of `vertex_size` bytes.
    pub fn pointer(&self, location: u32, vertex_size: usize) -> (r: AttribPointer)
        requires
            self.offset * COMPONENT_BYTES <= usize::MAX,
        ensures
            r == (AttribPointer {
                index: location,
                size: self.size,
                stride: vertex_size as i32,
                offset: (self.offset * COMPONENT_BYTES) as i32,
            }),
    {
        AttribPointer {
            index: location,
            size: self.size,
            stride: vertex_size as i32,
            offset: self.byte_offset(),
        }
    }
}

/// The GL texture unit that the `i`-th texture of a draw call is bound to.
pub fn texture_unit(i: usize) -> (r: u32)
    requires
        0x84C0 + (i as u32) <= u32::MAX,
    ensures
        r == 0x84C0 + (i as u32),
{
    0x84C0u32 + (i as u32)
}

/// A vertex format: the inputs a pipeline feeds its vertex stage.
pub trait VertexLayout {
    fn attrs() -> Vec<VertexAttr>;
}

/// A set of uniform values a pipeline can be drawn with.
pub trait UniformLayout {
}

/// An offscreen render target, known by its GL name.
#[derive(Clone, Copy, PartialEq, Eq, Structural, Debug)]
pub struct Framebuffer {
    pub id: u32,
}

#[derive(Clone)]
pub struct RenderState<'a, U: UniformLayout> {
    pub prim: Primitive,
    pub uniform: &'a U,
    pub blend: BlendState,
    pub frame_buffer: Option<&'a Framebuffer>,
}

/// A linked shader program together with the vertex inputs it reads.
#[derive(Debug)]
pub struct Pipeline<V: VertexLayout, U: UniformLayout> {
    program_id: u32,
    attrs: Vec<VertexAttr>,
    _vertex_layout: PhantomData<V>,
    _uniform_layout: PhantomData<U>,
}

impl<V: VertexLayout, U: UniformLayout> Pipeline<V, U> {
    /// The GL name of the program.
    pub closed spec fn program(&self) -> u32 {
        self.program_id
    }

    /// The vertex inputs the program reads.
    pub closed spec fn inputs(&self) -> Vec<VertexAttr> {
        self.attrs
    }

    /// The pipeline of the linked program `program_id`, reading the inputs
    /// of the vertex format `V`.
    pub fn from_program(program_id: u32) -> (r: Self)
        ensures
            r.program() == program_id,
            call_ensures(V::attrs, (), r.inputs()),
    {
        Pipeline {
            program_id: program_id,
            attrs: V::attrs(),
            _vertex_layout: PhantomData,
            _uniform_layout: PhantomData,
        }
    }

    /// The GL name of the program.
    pub fn program_id(&self) -> (r: u32)
        ensures
            r == self.program(),
    {
        self.program_id
    }

    /// The vertex inputs the program reads.
    pub fn attrs(&self) -> (r: &Vec<VertexAttr>)
        ensures
            *r == self.inputs(),
    {
        &self.attrs
    }
}

impl<V: VertexLayout, U: UniformLayout> Clone for Pipeline<V, U> {
    /// Another handle on the same program.
    fn clone(&self) -> (r: Self)
        ensures
            r.program() == self.program(),
            r.inputs()@.len() == self.inputs()@.len(),
            forall|i: int|
                0 <= i < self.inputs()@.len() ==> cloned::<VertexAttr>(
                    self.inputs()@[i],
                    #[trigger] r.inputs()@[i],
                ),
    {
        Pipeline {
            program_id: self.program_id,
            attrs: self.attrs.clone(),
            _vertex_layout: PhantomData,
            _uniform_layout: PhantomData,
        }
    }
}

impl<V: VertexLayout, U: UniformLayout> PartialEq for Pipeline<V, U> {
    /// Two pipelines are equal when they run the same program.
    fn eq(&self, other: &Self) -> (r: bool) {
        return self.program_id == other.program_id;
    }
}

impl<V: VertexLayout, U: UniformLayout> PartialEqSpecImpl for Pipeline<V, U> {
    open spec fn obeys_eq_spec() -> bool {
        true
    }

    open spec fn eq_spec(&self, other: &Self) -> bool {
        self.program() == other.program()
    }
}

} // verus!
