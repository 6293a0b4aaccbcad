use render_core::mesh::{Mesh, Texture, TextureKind, uniform_name};
use render_core::model::{
    material_texture_requests, GeometryError, MaterialSlots, Model, ModelError, SubMesh,
};

fn bits(v: f32) -> u32 {
    v.to_bits()
}

fn tri_submesh() -> SubMesh {
    SubMesh {
        positions: [bits(0.0), bits(0.0), bits(0.0), bits(1.0), bits(0.0), bits(0.0), bits(0.0), bits(1.0), bits(0.0)].to_vec(),
        normals: [bits(0.0), bits(0.0), bits(1.0), bits(0.0), bits(0.0), bits(1.0), bits(0.0), bits(0.0), bits(1.0)].to_vec(),
        texcoords: [bits(0.0), bits(0.0), bits(1.0), bits(0.0), bits(0.0), bits(1.0)].to_vec(),
        indices: [0, 1, 2].to_vec(),
        textures: Vec::new(),
    }
}

#[test]
fn load_model_interleaves_vertices() {
    let mut m = Model::new();
    m.load_model(vec![tri_submesh()]).unwrap();
    assert_eq!(m.meshes.len(), 1);
    let mesh = &m.meshes[0];
    assert_eq!(mesh.vertices.len(), 3);
    assert_eq!(mesh.indices, [0, 1, 2].to_vec());
    let v1 = mesh.vertices[1];
    assert_eq!((v1.position.x, v1.position.y, v1.position.z), (bits(1.0), bits(0.0), bits(0.0)));
    assert_eq!((v1.normal.x, v1.normal.y, v1.normal.z), (bits(0.0), bits(0.0), bits(1.0)));
    assert_eq!((v1.tex_coords.x, v1.tex_coords.y), (bits(1.0), bits(0.0)));
    // buffers are not attached yet
    assert_eq!((mesh.vao, mesh.vbo, mesh.ebo), (0, 0, 0));
}

#[test]
fn load_model_rejects_empty_file() {
    let mut m = Model::new();
    assert_eq!(m.load_model(Vec::new()).unwrap_err(), ModelError::NoMeshes);
    assert!(m.meshes.is_empty());
}

#[test]
fn empty_normals_fail_and_yield_zero_entities() {
    let mut m = Model::new();
    let mut sub = tri_submesh();
    sub.normals = Vec::new();
    let err = m.load_model(vec![sub]).unwrap_err();
    assert_eq!(
        err,
        ModelError::BadSubMesh { index: 0, error: GeometryError::NormalCountMismatch }
    );
    assert_eq!(m.meshes.len(), 0);
}

#[test]
fn any_bad_submesh_keeps_the_load_atomic() {
    let mut m = Model::new();
    let mut ragged = tri_submesh();
    ragged.positions.pop();
    ragged.normals.pop();
    let err = m.load_model(vec![tri_submesh(), ragged]).unwrap_err();
    assert_eq!(err, ModelError::BadSubMesh { index: 1, error: GeometryError::RaggedPositions });
    assert_eq!(m.meshes.len(), 0);
}

#[test]
fn short_texcoords_are_reported() {
    let mut m = Model::new();
    let mut sub = tri_submesh();
    sub.texcoords.pop();
    let err = m.load_model(vec![sub]).unwrap_err();
    assert_eq!(err, ModelError::BadSubMesh { index: 0, error: GeometryError::TexCoordCountMismatch });
}

#[test]
fn texture_cache_returns_same_record_twice() {
    let mut m = Model::new();
    let first = m.load_material_texture("bricks.png", TextureKind::Diffuse, 41);
    assert_eq!((first.id, first.tex_type), (41, TextureKind::Diffuse));
    assert_eq!(m.loaded_textures.len(), 1);

    // same path again: the cached record comes back, the fresh handle is unused
    let second = m.load_material_texture("bricks.png", TextureKind::Diffuse, 99);
    assert_eq!(second.id, 41);
    assert_eq!(second.path, "bricks.png");
    assert_eq!(m.loaded_textures.len(), 1);
}

#[test]
fn texture_cache_separates_paths() {
    let mut m = Model::new();
    m.load_material_texture("a.png", TextureKind::Diffuse, 1);
    m.load_material_texture("b.png", TextureKind::Specular, 2);
    assert_eq!(m.loaded_textures.len(), 2);
    let found = m.find_loaded_texture("b.png").unwrap();
    assert_eq!((found.id, found.tex_type), (2, TextureKind::Specular));
    assert!(m.find_loaded_texture("c.png").is_none());
}

#[test]
fn material_requests_follow_slot_order() {
    let slots = MaterialSlots {
        diffuse_texture: Some("d.png".to_string()),
        specular_texture: None,
        normal_texture: Some("n.png".to_string()),
    };
    let reqs = material_texture_requests(slots);
    assert_eq!(reqs.len(), 2);
    assert_eq!((reqs[0].path.as_str(), reqs[0].kind), ("d.png", TextureKind::Diffuse));
    assert_eq!((reqs[1].path.as_str(), reqs[1].kind), ("n.png", TextureKind::Normal));
}

#[test]
fn empty_slot_paths_are_skipped() {
    let slots = MaterialSlots {
        diffuse_texture: Some(String::new()),
        specular_texture: Some("s.png".to_string()),
        normal_texture: None,
    };
    let reqs = material_texture_requests(slots);
    assert_eq!(reqs.len(), 1);
    assert_eq!((reqs[0].path.as_str(), reqs[0].kind), ("s.png", TextureKind::Specular));
}

fn tex(kind: TextureKind, id: u32) -> Texture {
    Texture { id, tex_type: kind, path: format!("{}", id) }
}

#[test]
fn texture_bindings_number_by_occurrence() {
    let mesh = Mesh::new(
        Vec::new(),
        Vec::new(),
        [
            tex(TextureKind::Diffuse, 10),
            tex(TextureKind::Specular, 11),
            tex(TextureKind::Diffuse, 12),
            tex(TextureKind::Normal, 13),
            tex(TextureKind::Diffuse, 14),
        ]
        .to_vec(),
    );
    let binds = mesh.texture_bindings();
    assert_eq!(binds.len(), 5);
    let got: Vec<(usize, TextureKind, usize)> =
        binds.iter().map(|b| (b.unit, b.kind, b.number)).collect();
    assert_eq!(
        got,
        [
            (0, TextureKind::Diffuse, 1),
            (1, TextureKind::Specular, 1),
            (2, TextureKind::Diffuse, 2),
            (3, TextureKind::Normal, 1),
            (4, TextureKind::Diffuse, 3),
        ]
        .to_vec()
    );
}

#[test]
fn uniform_names_match_the_wire_contract() {
    assert_eq!(uniform_name(TextureKind::Diffuse), "texture_diffuse");
    assert_eq!(uniform_name(TextureKind::Specular), "texture_specular");
    assert_eq!(uniform_name(TextureKind::Normal), "texture_normal");
    assert_eq!(uniform_name(TextureKind::Height), "texture_height");
    assert_eq!(format!("{}{}", uniform_name(TextureKind::Diffuse), 2), "texture_diffuse2");
}

#[test]
fn mesh_attach_buffers_records_handles() {
    let mut mesh = Mesh::new(Vec::new(), Vec::new(), Vec::new());
    mesh.attach_buffers(3, 4, 5);
    assert_eq!((mesh.vao, mesh.vbo, mesh.ebo), (3, 4, 5));
}

#[test]
fn flatten_matches_the_record_layout() {
    let mut m = Model::new();
    m.load_model(vec![tri_submesh()]).unwrap();
    let flat = render_core::mesh::flatten_vertices(&m.meshes[0].vertices);
    assert_eq!(flat.len(), 24);
    // record 1: position floats 3..6 of the source, normal, texcoords
    assert_eq!(
        &flat[8..16],
        &[
            bits(1.0), bits(0.0), bits(0.0), // position
            bits(0.0), bits(0.0), bits(1.0), // normal at byte offset 12
            bits(1.0), bits(0.0), // texcoords at byte offset 24
        ]
    );
}
