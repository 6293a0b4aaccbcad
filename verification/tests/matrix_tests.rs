use cgmath::{Matrix4, Point3, Vector3};
use render_core::object::Object;
use render_core::rendering::{VAO, VBO};
use render_core::scene::Scene;
use render_core::screen::Screen;
use render_core::shader::{DriverReport, Shader, ShaderBuilder, ShaderStage};
use render_core::skybox::Skybox;
use render_core::texture::Texture;
use render_core::types::{Mat4, Vec3, Vec4, F32_HALF, F32_ONE, F32_ZERO};
use render_core::vertices::VertexArray;

fn bits(v: f32) -> u32 {
    v.to_bits()
}

#[test]
fn float_constants_are_the_ieee_bit_patterns() {
    assert_eq!(F32_ZERO, 0.0f32.to_bits());
    assert_eq!(F32_ONE, 1.0f32.to_bits());
    assert_eq!(F32_HALF, 0.5f32.to_bits());
}

#[test]
fn translation_matrix_entries() {
    let t = Vec3 { x: bits(1.5), y: bits(-2.0), z: bits(0.25) };
    let m = Mat4::from_translation(t);
    assert_eq!((m.x.x, m.y.y, m.z.z, m.w.w), (F32_ONE, F32_ONE, F32_ONE, F32_ONE));
    assert_eq!((m.w.x, m.w.y, m.w.z), (t.x, t.y, t.z));
    assert_eq!((m.x.y, m.x.z, m.x.w), (F32_ZERO, F32_ZERO, F32_ZERO));
}

#[test]
fn scaled_translation_matrix_entries() {
    let t = Vec3 { x: bits(3.0), y: bits(4.0), z: bits(5.0) };
    let m = Mat4::from_scaled_translation(t, bits(1.1));
    assert_eq!((m.x.x, m.y.y, m.z.z), (bits(1.1), bits(1.1), bits(1.1)));
    assert_eq!((m.w.x, m.w.y, m.w.z, m.w.w), (t.x, t.y, t.z, F32_ONE));
}

fn to_bits_mat(m: Matrix4<f32>) -> Mat4 {
    let col = |c: cgmath::Vector4<f32>| Vec4 {
        x: c.x.to_bits(),
        y: c.y.to_bits(),
        z: c.z.to_bits(),
        w: c.w.to_bits(),
    };
    Mat4 { x: col(m.x), y: col(m.y), z: col(m.z), w: col(m.w) }
}

#[test]
fn skybox_view_strips_translation_of_a_real_view() {
    // a look-at view from a camera far from the origin
    let view = Matrix4::look_at_rh(
        Point3::new(10.0f32, -4.0, 7.5),
        Point3::new(11.0, -4.0, 7.0),
        Vector3::new(0.0, 1.0, 0.0),
    );
    let va = VertexArray::new(vec![0u32; 108], 3, false, false, 36);
    let sky = Skybox::new(va, VAO::new(1), VBO::new(2), Texture::new(3));
    let stripped = sky.skybox_view(to_bits_mat(view));

    assert_eq!((stripped.w.x, stripped.w.y, stripped.w.z), (0, 0, 0));
    assert_eq!(f32::from_bits(stripped.w.x), 0.0);
    // the rotation columns are untouched
    assert_eq!(stripped.x, to_bits_mat(view).x);
    assert_eq!(stripped.y, to_bits_mat(view).y);
    assert_eq!(stripped.z, to_bits_mat(view).z);
    assert_eq!(stripped.w.w, view.w.w.to_bits());
}

#[test]
fn object_release_zeroes_every_handle() {
    // the round trip of a full descriptor: build, then release
    let va = VertexArray::new(vec![0u32; 288], 8, true, true, 36);
    let mut obj = Object::new(
        va,
        VAO::new(5),
        VBO::new(6),
        Texture::new(7),
        Vec3 { x: 0, y: 0, z: 0 },
    );
    let handles = obj.delete();
    assert_eq!(handles, (5, 6, 7));
    assert_eq!(obj.vao.id, 0);
    assert_eq!(obj.vbo.id, 0);
    assert_eq!(obj.texture.id, 0);
}

#[test]
fn object_model_matrix_translates_to_position() {
    let pos = Vec3 { x: bits(5.0), y: bits(0.0), z: bits(-1.0) };
    let va = VertexArray::new(vec![0u32; 288], 8, true, true, 36);
    let obj = Object::new(va, VAO::new(1), VBO::new(2), Texture::new(3), pos);
    let m = obj.model_matrix();
    assert_eq!((m.w.x, m.w.y, m.w.z), (pos.x, pos.y, pos.z));
    let outline = obj.outline_model_matrix(bits(1.1));
    assert_eq!(outline.x.x, bits(1.1));
    assert_eq!(outline.w.x, pos.x);
}

#[test]
fn screen_release_zeroes_handles() {
    let va = VertexArray::new(vec![0u32; 24], 4, false, true, 6);
    let mut s = Screen::new(va, VAO::new(8), VBO::new(9));
    let ident = s.model_matrix();
    assert_eq!((ident.x.x, ident.w.w), (F32_ONE, F32_ONE));
    assert_eq!(ident.w.x, F32_ZERO);
    let handles = s.delete();
    assert_eq!(handles, (8, 9));
    assert_eq!((s.vao.id, s.vbo.id), (0, 0));
}

#[test]
fn scene_starts_empty_with_grey_background() {
    let s = Scene::new();
    assert!(s.objects.is_empty());
    assert!(!s.has_skybox);
    assert!(s.skybox_tex.is_none());
    assert_eq!(s.bg_color, Vec3 { x: bits(0.5), y: bits(0.5), z: bits(0.5) });
}

#[test]
fn shader_build_happy_path() {
    let mut b = ShaderBuilder::new();
    b.record_compile(
        ShaderStage::Vertex,
        DriverReport { handle: 11, status: 1, log: Vec::new() },
    )
    .unwrap();
    b.record_compile(
        ShaderStage::Fragment,
        DriverReport { handle: 12, status: 1, log: Vec::new() },
    )
    .unwrap();
    let (result, stages) = b.finish_link(DriverReport { handle: 30, status: 1, log: Vec::new() });
    assert_eq!(stages, (11, 12));
    assert_eq!(result.unwrap(), Shader { id: 30 });
}

#[test]
fn shader_compile_failure_carries_stage_and_log() {
    let mut b = ShaderBuilder::new();
    let log = b"bad token".to_vec();
    let err = b
        .record_compile(
            ShaderStage::Fragment,
            DriverReport { handle: 11, status: 0, log: log.clone() },
        )
        .unwrap_err();
    assert_eq!(err.stage, ShaderStage::Fragment);
    assert_eq!(err.log, log);
    // the failed stage recorded nothing
    assert!(b.fragment.is_none());
}

#[test]
fn shader_link_failure_returns_stage_handles() {
    let mut b = ShaderBuilder::new();
    b.record_compile(ShaderStage::Vertex, DriverReport { handle: 1, status: 1, log: Vec::new() })
        .unwrap();
    b.record_compile(
        ShaderStage::Fragment,
        DriverReport { handle: 2, status: 1, log: Vec::new() },
    )
    .unwrap();
    let (result, stages) =
        b.finish_link(DriverReport { handle: 9, status: 0, log: b"mismatch".to_vec() });
    assert_eq!(stages, (1, 2));
    assert_eq!(result.unwrap_err().log, b"mismatch".to_vec());
}

#[test]
fn vao_vbo_release_once() {
    let mut vao = VAO::new(4);
    assert_eq!(vao.delete(), 4);
    assert_eq!(vao.id, 0);
    let mut vbo = VBO::new(5);
    assert_eq!(vbo.delete(), 5);
    assert_eq!(vbo.id, 0);
}
