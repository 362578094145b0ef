use dirty::pipeline::{
    shader_check, texture_unit, AttribPointer, Pipeline, Primitive, ShaderType, UniformLayout, VertexAttr,
    VertexLayout,
};

struct Quad;

impl VertexLayout for Quad {
    fn attrs() -> Vec<VertexAttr> {
        vec![
            VertexAttr { name: String::from("pos"), size: 3, offset: 0 },
            VertexAttr { name: String::from("uv"), size: 2, offset: 3 },
        ]
    }
}

struct NoUniforms;

impl UniformLayout for NoUniforms {}

#[test]
fn shader_check_passes_compiled_stage() {
    assert_eq!(shader_check(ShaderType::Vertex, true, "warning"), Ok(()));
    assert_eq!(shader_check(ShaderType::Fragment, true, ""), Ok(()));
}

#[test]
fn shader_check_reports_trimmed_log() {
    assert_eq!(
        shader_check(ShaderType::Vertex, false, "  0:1: syntax error\n"),
        Err(String::from("vert error: 0:1: syntax error"))
    );
    assert_eq!(
        shader_check(ShaderType::Fragment, false, "\t\u{3000}bad\u{a0}\r\n"),
        Err(String::from("frag error: bad"))
    );
    assert_eq!(
        shader_check(ShaderType::Fragment, false, ""),
        Err(String::from("frag error: "))
    );
}

#[test]
fn shader_kinds() {
    assert_eq!(ShaderType::Vertex.gl_kind(), 0x8B31);
    assert_eq!(ShaderType::Fragment.gl_kind(), 0x8B30);
}

#[test]
fn primitive_modes_and_widths() {
    let w = 2.5f32.to_bits();
    assert_eq!(Primitive::Triangle.gl_mode(), 4);
    assert_eq!(Primitive::Line(w).gl_mode(), 1);
    assert_eq!(Primitive::Point(w).gl_mode(), 0);
    assert_eq!(Primitive::LineStrip.gl_mode(), 3);
    assert_eq!(Primitive::TriangleFan.gl_mode(), 6);
    assert_eq!(Primitive::TriangleStrip.gl_mode(), 5);
    assert_eq!(Primitive::Line(w).line_width(), Some(w));
    assert_eq!(Primitive::Point(w).line_width(), None);
    assert_eq!(Primitive::Triangle.line_width(), None);
}

#[test]
fn texture_units_count_from_texture0() {
    assert_eq!(texture_unit(0), 0x84C0);
    assert_eq!(texture_unit(3), 0x84C3);
}

#[test]
fn attribute_byte_offsets() {
    let attrs = Quad::attrs();
    assert_eq!(attrs[0].byte_offset(), 0);
    assert_eq!(attrs[1].byte_offset(), 12);
}

#[test]
fn pipelines_equal_by_program() {
    let a: Pipeline<Quad, NoUniforms> = Pipeline::from_program(7);
    let b: Pipeline<Quad, NoUniforms> = Pipeline::from_program(7);
    let c: Pipeline<Quad, NoUniforms> = Pipeline::from_program(8);
    assert!(a == b);
    assert!(a != c);
    assert_eq!(a.program_id(), 7);
    assert_eq!(a.attrs().len(), 2);
    let d = c.clone();
    assert!(d == c);
    assert_eq!(d.attrs()[1].name, "uv");
}

#[test]
fn attribute_pointer_arguments() {
    let attrs = Quad::attrs();
    assert_eq!(
        attrs[1].pointer(5, 20),
        AttribPointer { index: 5, size: 2, stride: 20, offset: 12 }
    );
}

#[test]
fn pipeline_holds_the_layout_inputs() {
    let p: Pipeline<Quad, NoUniforms> = Pipeline::from_program(3);
    let names: Vec<&str> = p.attrs().iter().map(|a| a.name.as_str()).collect();
    assert_eq!(names, vec!["pos", "uv"]);
    let q = p.clone();
    assert_eq!(q.attrs()[0].size, 3);
    assert_eq!(q.attrs()[1].offset, 3);
}
