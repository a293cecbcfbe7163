use gldemo::calls::{BufferTarget, BufferUsage, GlCall, MeshData};
use gldemo::layout::{byte_size, color_layout, position_layout, AttribLayout};
use gldemo::mesh::{Drawer, MeshObjects};
use gldemo::shader::{shader_path, Shader, ShaderObjects};

#[test]
fn position_layout_is_three_floats_at_start() {
    assert_eq!(
        position_layout(),
        AttribLayout { location: 0, components: 3, stride: 28, offset: 0 }
    );
}

#[test]
fn color_layout_follows_position() {
    assert_eq!(
        color_layout(),
        AttribLayout { location: 1, components: 4, stride: 28, offset: 12 }
    );
}

#[test]
fn byte_size_multiplies() {
    assert_eq!(byte_size(42, 4), 168);
    assert_eq!(byte_size(0, 4), 0);
    assert_eq!(byte_size(9, 4), 36);
}

#[test]
fn drawer_setup_uploads_both_arrays() {
    let objects = MeshObjects { vao: 5, vbo: 6, ebo: 7 };
    let (drawer, calls) = Drawer::init(objects, 42, 9);
    assert_eq!(drawer.vao(), 5);
    assert_eq!(drawer.index_count(), 9);
    assert_eq!(drawer.record_count(), 6);
    assert_eq!(
        calls,
        vec![
            GlCall::BindVertexArray { vao: 5 },
            GlCall::BindBuffer { target: BufferTarget::Array, buffer: 6 },
            GlCall::BufferData {
                target: BufferTarget::Array,
                bytes: 168,
                data: MeshData::Vertices,
                usage: BufferUsage::StaticDraw,
            },
            GlCall::BindBuffer { target: BufferTarget::ElementArray, buffer: 7 },
            GlCall::BufferData {
                target: BufferTarget::ElementArray,
                bytes: 36,
                data: MeshData::Indices,
                usage: BufferUsage::StaticDraw,
            },
            GlCall::VertexAttribPointer { layout: position_layout() },
            GlCall::EnableVertexAttribArray { location: 0 },
            GlCall::VertexAttribPointer { layout: color_layout() },
            GlCall::EnableVertexAttribArray { location: 1 },
            GlCall::BindBuffer { target: BufferTarget::Array, buffer: 0 },
            GlCall::BindVertexArray { vao: 0 },
            GlCall::BindBuffer { target: BufferTarget::ElementArray, buffer: 0 },
        ]
    );
}

#[test]
fn drawer_with_empty_arrays() {
    let (drawer, calls) = Drawer::init(MeshObjects { vao: 1, vbo: 2, ebo: 3 }, 0, 0);
    assert_eq!(drawer.record_count(), 0);
    assert_eq!(drawer.index_count(), 0);
    assert_eq!(
        calls[2],
        GlCall::BufferData {
            target: BufferTarget::Array,
            bytes: 0,
            data: MeshData::Vertices,
            usage: BufferUsage::StaticDraw,
        }
    );
}

#[test]
fn drawer_partial_record_is_not_counted() {
    let (drawer, _) = Drawer::init(MeshObjects { vao: 1, vbo: 2, ebo: 3 }, 10, 3);
    assert_eq!(drawer.record_count(), 1);
}

#[test]
fn drawer_release_deletes_each_object_once() {
    let (drawer, _) = Drawer::init(MeshObjects { vao: 5, vbo: 6, ebo: 7 }, 42, 9);
    let calls = drawer.release();
    assert_eq!(
        calls,
        vec![
            GlCall::DeleteBuffer { buffer: 7 },
            GlCall::DeleteBuffer { buffer: 6 },
            GlCall::DeleteVertexArray { vao: 5 },
        ]
    );
    assert_eq!(calls.iter().filter(|c| **c == GlCall::DeleteBuffer { buffer: 6 }).count(), 1);
    assert_eq!(calls.iter().filter(|c| **c == GlCall::DeleteBuffer { buffer: 7 }).count(), 1);
}

#[test]
fn shader_path_joins_directory() {
    assert_eq!(shader_path("/home/u/demo", "default.vert"), "/home/u/demo/resources/shaders/default.vert");
    assert_eq!(shader_path("", "a.frag"), "/resources/shaders/a.frag");
}

#[test]
fn shader_build_compiles_links_and_deletes_stages() {
    let objects = ShaderObjects { program: 3, vertex: 1, fragment: 2 };
    let (shader, calls) =
        Shader::init(objects, "void main() {}".to_string(), "out vec4 c;".to_string());
    assert_eq!(shader.id(), 3);
    assert_eq!(
        calls,
        vec![
            GlCall::ShaderSource { shader: 1, source: "void main() {}".to_string() },
            GlCall::CompileShader { shader: 1 },
            GlCall::ShaderSource { shader: 2, source: "out vec4 c;".to_string() },
            GlCall::CompileShader { shader: 2 },
            GlCall::AttachShader { program: 3, shader: 1 },
            GlCall::AttachShader { program: 3, shader: 2 },
            GlCall::LinkProgram { program: 3 },
            GlCall::DeleteShader { shader: 1 },
            GlCall::DeleteShader { shader: 2 },
        ]
    );
}

#[test]
fn shader_activate_keeps_program() {
    let (shader, _) = Shader::init(
        ShaderObjects { program: 11, vertex: 9, fragment: 10 },
        String::new(),
        String::new(),
    );
    assert_eq!(shader.activate(), GlCall::UseProgram { program: 11 });
    assert_eq!(shader.activate(), GlCall::UseProgram { program: 11 });
    assert_eq!(shader.id(), 11);
    assert_eq!(shader.release(), vec![GlCall::DeleteProgram { program: 11 }]);
}

#[test]
fn drawer_accepts_index_count_beyond_draw_range() {
    let count: usize = 3_000_000_000;
    let (drawer, calls) = Drawer::init(MeshObjects { vao: 1, vbo: 2, ebo: 3 }, 0, count);
    assert_eq!(drawer.index_count(), count);
    assert_eq!(
        calls[4],
        GlCall::BufferData {
            target: BufferTarget::ElementArray,
            bytes: 12_000_000_000,
            data: MeshData::Indices,
            usage: BufferUsage::StaticDraw,
        }
    );
}
