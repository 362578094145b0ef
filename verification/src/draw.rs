use vstd::prelude::*;
use crate::pipeline::AttribPointer;
use crate::pipeline::Primitive;
use crate::pipeline::VertexAttr;
use crate::pipeline::COMPONENT_BYTES;
use crate::pipeline::spec_gl_mode;
use crate::pipeline::texture_unit;

verus! {

/// A texture bound for a draw call: its GL target and name.
#[derive(Clone, Copy, PartialEq, Eq, Structural, Debug)]
pub struct TextureBinding {
    pub target: u32,
    pub id: u32,
}

/// One step of a draw call on the GL context.
#[derive(Clone, Copy, PartialEq, Eq, Structural, Debug)]
pub enum DrawCommand {
    /// Make the program current, or none.
    UseProgram(Option<u32>),
    /// Bind the vertex buffer, or none.
    BindArrayBuffer(Option<u32>),
    /// Bind the index buffer, or none.
    BindElementBuffer(Option<u32>),
    /// Describe a vertex input.
    AttribPointer(AttribPointer),
    /// Enable the vertex input at this location.
    EnableAttrib(u32),
    /// Select a texture unit.
    ActiveTexture(u32),
    /// Bind a texture (or none) to a target of the selected unit.
    BindTexture(u32, Option<u32>),
    /// Set the line width (bit pattern of its single-precision value).
    LineWidth(u32),
    /// Draw this many indices in this GL mode.
    DrawElements(u32, i32),
}

/// The arguments describing vertex input `a` placed at `location`.
pub open spec fn spec_pointer(a: VertexAttr, location: u32, vertex_size: usize) -> AttribPointer {
    AttribPointer {
        index: location,
        size: a.size,
        stride: vertex_size as i32,
        offset: (a.offset * COMPONENT_BYTES) as i32,
    }
}

/// The steps for the first `n` vertex inputs: each input the program placed
/// at a location is described and enabled; the others are skipped.
pub open spec fn attr_commands(
    attrs: Seq<VertexAttr>,
    locations: Seq<Option<u32>>,
    vertex_size: usize,
    n: nat,
) -> Seq<DrawCommand>
    decreases n,
{
    if n == 0 {
        Seq::empty()
    } else {
        let i = n - 1;
        attr_commands(attrs, locations, vertex_size, (n - 1) as nat) + match locations[i] {
            Some(l) => seq![
                DrawCommand::AttribPointer(spec_pointer(attrs[i], l, vertex_size)),
                DrawCommand::EnableAttrib(l),
            ],
            None => Seq::empty(),
        }
    }
}

/// The texture unit of the `i`-th texture.
pub open spec fn spec_unit(i: int) -> u32 {
    (0x84C0 + i) as u32
}

/// The steps for the first `n` textures: select the `i`-th unit, then bind
/// the `i`-th texture to it (`bind`) or unbind its target (`!bind`).
pub open spec fn texture_commands(textures: Seq<TextureBinding>, n: nat, bind: bool) -> Seq<DrawCommand>
    decreases n,
{
    if n == 0 {
        Seq::empty()
    } else {
        let i = n - 1;
        texture_commands(textures, (n - 1) as nat, bind) + seq![
            DrawCommand::ActiveTexture(spec_unit(i)),
            DrawCommand::BindTexture(textures[i].target, if bind { Some(textures[i].id) } else { None }),
        ]
    }
}

/// The most textures a draw call can bind before the unit number overflows.
pub open spec fn max_textures() -> nat {
    (u32::MAX - 0x84C0 + 1) as nat
}

/// The whole draw call, in order: make the program current and bind the
/// vertex buffer; with a vertex buffer, describe the inputs; bind the index
/// buffer; bind the textures to units counted from the first; set the line
/// width of lines; draw; unbind the buffers and the program; unbind the
/// textures.
pub open spec fn spec_draw_commands(
    program: u32,
    vbuf: Option<u32>,
    ibuf: Option<u32>,
    attrs: Seq<VertexAttr>,
    locations: Seq<Option<u32>>,
    vertex_size: usize,
    textures: Seq<TextureBinding>,
    count: u32,
    prim: Primitive,
) -> Seq<DrawCommand> {
    seq![DrawCommand::UseProgram(Some(program)), DrawCommand::BindArrayBuffer(vbuf)]
        + (if vbuf is Some { attr_commands(attrs, locations, vertex_size, attrs.len()) } else { Seq::empty() })
        + seq![DrawCommand::BindElementBuffer(ibuf)]
        + texture_commands(textures, textures.len(), true)
        + (match prim {
            Primitive::Line(w) => seq![DrawCommand::LineWidth(w)],
            _ => Seq::empty(),
        })
        + seq![
            DrawCommand::DrawElements(spec_gl_mode(prim), count as i32),
            DrawCommand::BindElementBuffer(None),
            DrawCommand::BindArrayBuffer(None),
            DrawCommand::UseProgram(None),
        ]
        + texture_commands(textures, textures.len(), false)
}

/// `true` when a draw call can describe every input the program placed,
/// without the byte offset overflowing.
pub open spec fn offsets_fit(attrs: Seq<VertexAttr>, locations: Seq<Option<u32>>) -> bool {
    forall|i: int|
        0 <= i < attrs.len() && (#[trigger] locations[i]) is Some
            ==> attrs[i].offset * COMPONENT_BYTES <= usize::MAX
}

fn push_texture_commands(cmds: &mut Vec<DrawCommand>, textures: &Vec<TextureBinding>, bind: bool)
    requires
        textures@.len() <= max_textures(),
    ensures
        final(cmds)@ == old(cmds)@ + texture_commands(textures@, textures@.len(), bind),
{
    let ghost start = cmds@;
    let mut i: usize = 0;
    while i < textures.len()
        invariant
            textures@.len() <= max_textures(),
            0 <= i <= textures@.len(),
            cmds@ == start + texture_commands(textures@, i as nat, bind),
        decreases textures@.len() - i,
    {
        let t = textures[i];
        let unit = texture_unit(i);
        assert((i as u32) as int == i);
        cmds.push(DrawCommand::ActiveTexture(unit));
        cmds.push(DrawCommand::BindTexture(t.target, if bind { Some(t.id) } else { None }));
        i = i + 1;
        assert(cmds@ == start + texture_commands(textures@, i as nat, bind));
    }
}

/// The steps of a draw call with program `program`, vertex buffer `vbuf`,
/// index buffer `ibuf`, the program's vertex inputs `attrs` at the
/// locations `locations` the program gave them, vertices of `vertex_size`
/// bytes, the textures `textures`, and `count` indices of primitive `prim`.
pub fn draw_commands(
    program: u32,
    vbuf: Option<u32>,
    ibuf: Option<u32>,
    attrs: &Vec<VertexAttr>,
    locations: &Vec<Option<u32>>,
    vertex_size: usize,
    textures: &Vec<TextureBinding>,
    count: u32,
    prim: Primitive,
) -> (r: Vec<DrawCommand>)
    requires
        locations@.len() == attrs@.len(),
        vbuf is Some ==> offsets_fit(attrs@, locations@),
        textures@.len() <= max_textures(),
    ensures
        r@ == spec_draw_commands(
            program,
            vbuf,
            ibuf,
            attrs@,
            locations@,
            vertex_size,
            textures@,
            count,
            prim,
        ),
{
    let mut cmds: Vec<DrawCommand> = Vec::new();
    cmds.push(DrawCommand::UseProgram(Some(program)));
    cmds.push(DrawCommand::BindArrayBuffer(vbuf));
    let ghost head = cmds@;
    if vbuf.is_some() {
        let mut i: usize = 0;
        while i < attrs.len()
            invariant
                locations@.len() == attrs@.len(),
                offsets_fit(attrs@, locations@),
                0 <= i <= attrs@.len(),
                cmds@ == head + attr_commands(attrs@, locations@, vertex_size, i as nat),
            decreases attrs@.len() - i,
        {
            match locations[i] {
                Some(l) => {
                    let p = attrs[i].pointer(l, vertex_size);
                    cmds.push(DrawCommand::AttribPointer(p));
                    cmds.push(DrawCommand::EnableAttrib(l));
                },
                None => {},
            }
            i = i + 1;
            assert(cmds@ == head + attr_commands(attrs@, locations@, vertex_size, i as nat));
        }
    }
    cmds.push(DrawCommand::BindElementBuffer(ibuf));
    push_texture_commands(&mut cmds, textures, true);
    match prim.line_width() {
        Some(w) => cmds.push(DrawCommand::LineWidth(w)),
        None => {},
    }
    cmds.push(DrawCommand::DrawElements(prim.gl_mode(), count as i32));
    cmds.push(DrawCommand::BindElementBuffer(None));
    cmds.push(DrawCommand::BindArrayBuffer(None));
    cmds.push(DrawCommand::UseProgram(None));
    push_texture_commands(&mut cmds, textures, false);
    assert(cmds@ =~= spec_draw_commands(
        program,
        vbuf,
        ibuf,
        attrs@,
        locations@,
        vertex_size,
        textures@,
        count,
        prim,
    ));
    cmds
}

} // verus!
