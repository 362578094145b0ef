use dirty::draw::{draw_commands, DrawCommand, TextureBinding};
use dirty::pipeline::{AttribPointer, Primitive, VertexAttr};

fn quad_attrs() -> Vec<VertexAttr> {
    vec![
        VertexAttr { name: String::from("pos"), size: 3, offset: 0 },
        VertexAttr { name: String::from("uv"), size: 2, offset: 3 },
    ]
}

#[test]
fn draw_commands_full_sequence() {
    let attrs = quad_attrs();
    let locations = vec![Some(0), Some(4)];
    let textures = vec![TextureBinding { target: 0x0DE1, id: 9 }];
    let w = 2.0f32.to_bits();
    let cmds = draw_commands(7, Some(11), Some(12), &attrs, &locations, 20, &textures, 6, Primitive::Line(w));
    assert_eq!(
        cmds,
        vec![
            DrawCommand::UseProgram(Some(7)),
            DrawCommand::BindArrayBuffer(Some(11)),
            DrawCommand::AttribPointer(AttribPointer { index: 0, size: 3, stride: 20, offset: 0 }),
            DrawCommand::EnableAttrib(0),
            DrawCommand::AttribPointer(AttribPointer { index: 4, size: 2, stride: 20, offset: 12 }),
            DrawCommand::EnableAttrib(4),
            DrawCommand::BindElementBuffer(Some(12)),
            DrawCommand::ActiveTexture(0x84C0),
            DrawCommand::BindTexture(0x0DE1, Some(9)),
            DrawCommand::LineWidth(w),
            DrawCommand::DrawElements(1, 6),
            DrawCommand::BindElementBuffer(None),
            DrawCommand::BindArrayBuffer(None),
            DrawCommand::UseProgram(None),
            DrawCommand::ActiveTexture(0x84C0),
            DrawCommand::BindTexture(0x0DE1, None),
        ]
    );
}

#[test]
fn draw_commands_skip_unplaced_inputs_and_missing_buffer() {
    let attrs = quad_attrs();
    let cmds = draw_commands(3, Some(1), None, &attrs, &vec![None, Some(2)], 20, &vec![], 3, Primitive::Triangle);
    assert_eq!(
        cmds,
        vec![
            DrawCommand::UseProgram(Some(3)),
            DrawCommand::BindArrayBuffer(Some(1)),
            DrawCommand::AttribPointer(AttribPointer { index: 2, size: 2, stride: 20, offset: 12 }),
            DrawCommand::EnableAttrib(2),
            DrawCommand::BindElementBuffer(None),
            DrawCommand::DrawElements(4, 3),
            DrawCommand::BindElementBuffer(None),
            DrawCommand::BindArrayBuffer(None),
            DrawCommand::UseProgram(None),
        ]
    );
    let no_vbuf = draw_commands(3, None, None, &attrs, &vec![Some(0), Some(1)], 20, &vec![], 3, Primitive::Point(0));
    assert_eq!(no_vbuf.len(), 7);
    assert_eq!(no_vbuf[2], DrawCommand::BindElementBuffer(None));
    assert_eq!(no_vbuf[3], DrawCommand::DrawElements(0, 3));
}

#[test]
fn draw_commands_count_units_per_texture() {
    let textures = vec![TextureBinding { target: 1, id: 2 }, TextureBinding { target: 3, id: 4 }];
    let cmds = draw_commands(1, None, None, &vec![], &vec![], 0, &textures, 0, Primitive::TriangleStrip);
    assert_eq!(cmds[3], DrawCommand::ActiveTexture(0x84C0));
    assert_eq!(cmds[4], DrawCommand::BindTexture(1, Some(2)));
    assert_eq!(cmds[5], DrawCommand::ActiveTexture(0x84C1));
    assert_eq!(cmds[6], DrawCommand::BindTexture(3, Some(4)));
    assert_eq!(cmds[cmds.len() - 2], DrawCommand::ActiveTexture(0x84C1));
    assert_eq!(cmds[cmds.len() - 1], DrawCommand::BindTexture(3, None));
}
