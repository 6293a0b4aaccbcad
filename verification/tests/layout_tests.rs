use render_core::mesh::Mesh;
use render_core::vertices::{attribute_layout, PresetLayout, VertexArray, Vertices};

fn descriptor(stride: u8, has_normals: bool, has_tex_coords: bool) -> VertexArray {
    // 36 records of `stride` floats each, as the descriptor's contract asks
    VertexArray::new(vec![0u32; stride as usize * 36], stride, has_normals, has_tex_coords, 36)
}

#[test]
fn stride_is_scaled_to_bytes() {
    let va = descriptor(8, true, true);
    assert_eq!(va.stride, 32);
    let va = descriptor(5, false, true);
    assert_eq!(va.stride, 20);
    let va = descriptor(3, false, false);
    assert_eq!(va.stride, 12);
}

#[test]
fn full_layout_offsets() {
    // normals and texture coordinates: position 0, normal 12, texcoord 24
    let va = descriptor(8, true, true);
    let attrs = attribute_layout(&va, 3);
    assert_eq!(attrs.len(), 3);
    assert_eq!((attrs[0].index, attrs[0].components, attrs[0].offset), (0, 3, 0));
    assert_eq!((attrs[1].index, attrs[1].components, attrs[1].offset), (1, 3, 12));
    assert_eq!((attrs[2].index, attrs[2].components, attrs[2].offset), (2, 2, 24));
}

#[test]
fn no_normals_layout_offsets() {
    // texcoord follows the position directly at 12 bytes
    let va = descriptor(5, false, true);
    let attrs = attribute_layout(&va, 3);
    assert_eq!(attrs.len(), 2);
    assert_eq!((attrs[0].index, attrs[0].components, attrs[0].offset), (0, 3, 0));
    assert_eq!((attrs[1].index, attrs[1].components, attrs[1].offset), (2, 2, 12));
}

#[test]
fn position_only_layout() {
    let va = descriptor(3, false, false);
    let attrs = attribute_layout(&va, 3);
    assert_eq!(attrs.len(), 1);
    assert_eq!((attrs[0].index, attrs[0].components, attrs[0].offset), (0, 3, 0));
}

#[test]
fn screen_quad_layout_offsets() {
    // two-component positions: texcoord follows at 8 bytes
    let va = descriptor(4, false, true);
    let attrs = attribute_layout(&va, 2);
    assert_eq!(attrs.len(), 2);
    assert_eq!((attrs[0].index, attrs[0].components, attrs[0].offset), (0, 2, 0));
    assert_eq!((attrs[1].index, attrs[1].components, attrs[1].offset), (2, 2, 8));
}

#[test]
fn stride_matches_flags_for_every_preset() {
    let presets = [
        Vertices::Cube,
        Vertices::CubeWithoutNormals,
        Vertices::PlaneWithoutNormals,
        Vertices::FlatImage,
        Vertices::Screen,
        Vertices::ReverseCamera,
        Vertices::Skybox,
    ];
    for p in presets {
        let l = p.layout();
        let three = 3 + 3 * (l.has_normals as u8) + 2 * (l.has_tex_coords as u8);
        let two = 2 + 3 * (l.has_normals as u8) + 2 * (l.has_tex_coords as u8);
        assert!(l.stride == three || l.stride == two);
    }
}

#[test]
fn cube_preset_layout() {
    assert_eq!(
        Vertices::Cube.layout(),
        PresetLayout { stride: 8, has_normals: true, has_tex_coords: true, triangle_count: 36 }
    );
    assert_eq!(
        Vertices::Skybox.layout(),
        PresetLayout { stride: 3, has_normals: false, has_tex_coords: false, triangle_count: 36 }
    );
    assert_eq!(
        Vertices::Screen.layout(),
        PresetLayout { stride: 4, has_normals: false, has_tex_coords: true, triangle_count: 6 }
    );
}

#[test]
fn mesh_record_layout() {
    let attrs = Mesh::vertex_attribute_layout();
    assert_eq!(attrs.len(), 3);
    assert_eq!((attrs[0].index, attrs[0].components, attrs[0].offset), (0, 3, 0));
    assert_eq!((attrs[1].index, attrs[1].components, attrs[1].offset), (1, 3, 12));
    assert_eq!((attrs[2].index, attrs[2].components, attrs[2].offset), (2, 2, 24));
    assert_eq!(render_core::mesh::VERTEX_STRIDE_BYTES, 32);
}

#[test]
fn descriptor_data_holds_exactly_the_submitted_vertices() {
    let va = descriptor(5, false, true);
    assert_eq!(va.vertices.len(), (va.stride as usize / 4) * va.triangle_count as usize);
}
