//! Model assembly: turns parsed geometry (the output shape of an OBJ
//! parser) into indexed meshes, resolving material textures through a
//! per-model cache.
//!
//! The parser hands over, per sub-mesh: flat position/normal/texcoord
//! arrays (as float bit patterns), an index array, and the material's
//! texture slots. This module validates the arrays, interleaves them
//! into one vertex record per index position, copies the indices
//! verbatim, and deduplicates textures by source path. The cache's
//! scope is one `Model` — one model-load operation.
//!
//! Geometry whose arrays do not line up (an empty normals array beside
//! non-empty positions, say) is a recoverable load failure: the load
//! returns a described error, adds no meshes, and the caller goes on
//! with an empty model.

use vstd::prelude::*;
use vstd::string::StrSliceExecFns;

use crate::mesh::{spec_tex_match, Mesh, Texture, TextureKind, Vertex};
use crate::types::{Vec2, Vec3};
use vstd::arithmetic::div_mod::lemma_fundamental_div_mod;

verus! {

/// One parsed sub-mesh, ready for assembly: flat attribute arrays (float
/// bit patterns), indices, and the material textures already resolved
/// through the cache.
#[derive(Debug)]
pub struct SubMesh {
    /// Vertex positions, three floats per vertex.
    pub positions: Vec<u32>,
    /// Vertex normals, three floats per vertex.
    pub normals: Vec<u32>,
    /// Texture coordinates, two floats per vertex.
    pub texcoords: Vec<u32>,
    /// Index array, copied verbatim into the mesh.
    pub indices: Vec<u32>,
    /// The textures this sub-mesh is drawn with.
    pub textures: Vec<Texture>,
}

/// Why a sub-mesh's arrays cannot be interleaved.
#[derive(Clone, Copy, Debug, PartialEq, Eq, Structural)]
pub enum GeometryError {
    /// The position array is not a whole number of three-float vertices.
    RaggedPositions,
    /// The normals array does not hold one normal per vertex (an empty
    /// one beside non-empty positions lands here).
    NormalCountMismatch,
    /// The texture-coordinate array does not hold one pair per vertex.
    TexCoordCountMismatch,
}

/// Why a model load failed.
#[derive(Clone, Copy, Debug, PartialEq, Eq, Structural)]
pub enum ModelError {
    /// The parsed file held no sub-meshes; the model stays empty.
    NoMeshes,
    /// A sub-mesh's arrays do not line up; nothing is added.
    BadSubMesh { index: usize, error: GeometryError },
}

/// The three arrays describe the same vertices: positions come in
/// triples, with one normal triple and one coordinate pair each.
pub open spec fn spec_submesh_ok(s: SubMesh) -> bool {
    &&& s.positions@.len() % 3 == 0
    &&& s.normals@.len() == s.positions@.len()
    &&& s.texcoords@.len() == 2 * (s.positions@.len() / 3)
}

/// The first rule a malformed sub-mesh breaks.
pub open spec fn spec_submesh_error(s: SubMesh) -> GeometryError {
    if s.positions@.len() % 3 != 0 {
        GeometryError::RaggedPositions
    } else if s.normals@.len() != s.positions@.len() {
        GeometryError::NormalCountMismatch
    } else {
        GeometryError::TexCoordCountMismatch
    }
}

/// Vertex `i` of a sub-mesh: position `3i..3i+3`, normal `3i..3i+3`,
/// texture coordinates `2i..2i+2`, interleaved into one record.
pub open spec fn spec_vertex_of(s: SubMesh, i: int) -> Vertex {
    Vertex {
        position: Vec3 {
            x: s.positions@[3 * i],
            y: s.positions@[3 * i + 1],
            z: s.positions@[3 * i + 2],
        },
        normal: Vec3 {
            x: s.normals@[3 * i],
            y: s.normals@[3 * i + 1],
            z: s.normals@[3 * i + 2],
        },
        tex_coords: Vec2 { x: s.texcoords@[2 * i], y: s.texcoords@[2 * i + 1] },
    }
}

/// The mesh holds exactly the sub-mesh's interleaved vertices, its
/// indices verbatim, and its textures, with no buffers attached yet.
pub open spec fn spec_mesh_matches(m: Mesh, s: SubMesh) -> bool {
    &&& m.vertices@.len() == s.positions@.len() / 3
    &&& forall|i: int| 0 <= i < m.vertices@.len() ==> m.vertices@[i] == spec_vertex_of(s, i)
    &&& m.indices@ == s.indices@
    &&& m.textures@ == s.textures@
    &&& m.unattached()
}

/// Checks a sub-mesh's arrays; reports the first broken rule.
pub fn check_submesh(s: &SubMesh) -> (r: Option<GeometryError>)
    ensures
        r is None <==> spec_submesh_ok(*s),
        r matches Some(e) ==> e == spec_submesh_error(*s),
{
    if s.positions.len() % 3 != 0 {
        return Some(GeometryError::RaggedPositions);
    }
    if s.normals.len() != s.positions.len() {
        return Some(GeometryError::NormalCountMismatch);
    }
    let vertex_count = s.positions.len() / 3;
    if s.texcoords.len() / 2 != vertex_count || s.texcoords.len() % 2 != 0 {
        return Some(GeometryError::TexCoordCountMismatch);
    }
    proof {
        lemma_fundamental_div_mod(s.texcoords@.len() as int, 2);
    }
    None
}

/// Interleaves the flat attribute arrays of a well-formed sub-mesh into
/// one vertex record per index position.
pub fn interleave_vertices(s: &SubMesh) -> (v: Vec<Vertex>)
    requires
        spec_submesh_ok(*s),
    ensures
        v@.len() == s.positions@.len() / 3,
        forall|i: int| 0 <= i < v@.len() ==> v@[i] == spec_vertex_of(*s, i),
{
    let vertex_count = s.positions.len() / 3;
    proof {
        lemma_fundamental_div_mod(s.positions@.len() as int, 3);
    }
    let mut v: Vec<Vertex> = Vec::new();
    let mut i: usize = 0;
    while i < vertex_count
        invariant
            0 <= i <= vertex_count,
            spec_submesh_ok(*s),
            vertex_count == s.positions@.len() / 3,
            s.positions@.len() <= usize::MAX,
            3 * vertex_count == s.positions@.len(),
            2 * vertex_count == s.texcoords@.len(),
            v@.len() == i,
            forall|j: int| 0 <= j < i ==> v@[j] == spec_vertex_of(*s, j),
        decreases vertex_count - i,
    {
        let vertex = Vertex {
            position: Vec3 {
                x: s.positions[3 * i],
                y: s.positions[3 * i + 1],
                z: s.positions[3 * i + 2],
            },
            normal: Vec3 {
                x: s.normals[3 * i],
                y: s.normals[3 * i + 1],
                z: s.normals[3 * i + 2],
            },
            tex_coords: Vec2 { x: s.texcoords[2 * i], y: s.texcoords[2 * i + 1] },
        };
        v.push(vertex);
        i = i + 1;
    }
    v
}

/// A parsed material's texture slots, as the parser hands them over:
/// each slot is a path, absent or present. Height maps are not
/// supported and have no slot here.
#[derive(Debug)]
pub struct MaterialSlots {
    pub diffuse_texture: Option<String>,
    pub specular_texture: Option<String>,
    pub normal_texture: Option<String>,
}

/// A slot takes part in the load when it holds a non-empty path.
pub open spec fn spec_slot_present(o: Option<String>) -> bool {
    o matches Some(p) && p@.len() > 0
}

/// One texture the loader must resolve: its source path and kind.
#[derive(Debug)]
pub struct TextureRequest {
    pub path: String,
    pub kind: TextureKind,
}

/// Which textures a material asks for, in the fixed order diffuse,
/// specular, normal, each present exactly when its slot holds a
/// non-empty path.
pub fn material_texture_requests(m: MaterialSlots) -> (v: Vec<TextureRequest>)
    ensures
        v@.len() == (if spec_slot_present(m.diffuse_texture) {
            1int
        } else {
            0int
        }) + (if spec_slot_present(m.specular_texture) {
            1int
        } else {
            0int
        }) + (if spec_slot_present(m.normal_texture) {
            1int
        } else {
            0int
        }),
        spec_slot_present(m.diffuse_texture) ==> v@[0].path@ == m.diffuse_texture->0@
            && v@[0].kind == TextureKind::Diffuse,
        spec_slot_present(m.specular_texture) ==> {
            let i = if spec_slot_present(m.diffuse_texture) {
                1int
            } else {
                0int
            };
            v@[i].path@ == m.specular_texture->0@ && v@[i].kind == TextureKind::Specular
        },
        spec_slot_present(m.normal_texture) ==> {
            let i = (if spec_slot_present(m.diffuse_texture) {
                1int
            } else {
                0int
            }) + (if spec_slot_present(m.specular_texture) {
                1int
            } else {
                0int
            });
            v@[i].path@ == m.normal_texture->0@ && v@[i].kind == TextureKind::Normal
        },
{
    let mut v: Vec<TextureRequest> = Vec::new();
    if let Some(path) = m.diffuse_texture {
        if path.as_str().unicode_len() > 0 {
            v.push(TextureRequest { path, kind: TextureKind::Diffuse });
        }
    }
    if let Some(path) = m.specular_texture {
        if path.as_str().unicode_len() > 0 {
            v.push(TextureRequest { path, kind: TextureKind::Specular });
        }
    }
    if let Some(path) = m.normal_texture {
        if path.as_str().unicode_len() > 0 {
            v.push(TextureRequest { path, kind: TextureKind::Normal });
        }
    }
    v
}

/// The index of the first cached texture whose path is `p`.
pub open spec fn spec_cache_find(s: Seq<Texture>, p: Seq<char>) -> Option<int>
    decreases s.len(),
{
    if s.len() == 0 {
        None
    } else if s[0].path@ == p {
        Some(0)
    } else {
        match spec_cache_find(s.drop_first(), p) {
            Some(i) => Some(i + 1),
            None => None,
        }
    }
}

/// What `spec_cache_find` returns: the first match, or nothing when no
/// entry matches.
pub proof fn lemma_cache_find_props(s: Seq<Texture>, p: Seq<char>)
    ensures
        match spec_cache_find(s, p) {
            Some(i) => {
                &&& 0 <= i < s.len()
                &&& s[i].path@ == p
                &&& forall|j: int| 0 <= j < i ==> s[j].path@ != p
            },
            None => forall|j: int| 0 <= j < s.len() ==> s[j].path@ != p,
        },
    decreases s.len(),
{
    if s.len() > 0 {
        lemma_cache_find_props(s.drop_first(), p);
        assert forall|j: int| 1 <= j < s.len() implies s[j] == s.drop_first()[j - 1] by {}
    }
}

/// Conversely, a first match at `i` pins `spec_cache_find` down.
pub proof fn lemma_cache_find_at(s: Seq<Texture>, p: Seq<char>, i: int)
    requires
        0 <= i < s.len(),
        s[i].path@ == p,
        forall|j: int| 0 <= j < i ==> s[j].path@ != p,
    ensures
        spec_cache_find(s, p) == Some(i),
    decreases i,
{
    if i > 0 {
        lemma_cache_find_at(s.drop_first(), p, i - 1);
    }
}

/// A cache with no match for `p` stays without one.
pub proof fn lemma_cache_find_none(s: Seq<Texture>, p: Seq<char>)
    requires
        forall|j: int| 0 <= j < s.len() ==> s[j].path@ != p,
    ensures
        spec_cache_find(s, p) is None,
    decreases s.len(),
{
    if s.len() > 0 {
        lemma_cache_find_none(s.drop_first(), p);
    }
}

/// Texture-cache idempotence: when a load of path `p` missed and
/// appended its record, a second load of `p` finds exactly that record,
/// so the underlying upload runs at most once per path.
pub proof fn lemma_texture_cache_idempotent(s: Seq<Texture>, t: Texture, p: Seq<char>)
    requires
        spec_cache_find(s, p) is None,
        t.path@ == p,
    ensures
        spec_cache_find(s.push(t), p) == Some(s.len() as int),
{
    lemma_cache_find_props(s, p);
    assert forall|j: int| 0 <= j < s.len() implies s.push(t)[j].path@ != p by {
        assert(s.push(t)[j] == s[j]);
    }
    lemma_cache_find_at(s.push(t), p, s.len() as int);
}

/// An assembled model: its meshes and the textures loaded for it so
/// far. The texture cache's scope is this model.
#[derive(Debug)]
pub struct Model {
    pub meshes: Vec<Mesh>,
    pub loaded_textures: Vec<Texture>,
}

impl Model {
    /// An empty model: no meshes, an empty texture cache.
    pub fn new() -> (m: Model)
        ensures
            m.meshes@.len() == 0,
            m.loaded_textures@.len() == 0,
    {
        Model { meshes: Vec::new(), loaded_textures: Vec::new() }
    }

    /// Looks a path up in this model's texture cache; returns a copy of
    /// the first record loaded from that path, if any. The shell asks
    /// here before decoding and uploading a file.
    pub fn find_loaded_texture(&self, path: &str) -> (r: Option<Texture>)
        ensures
            match spec_cache_find(self.loaded_textures@, path@) {
                Some(i) => r matches Some(t) && spec_tex_match(t, self.loaded_textures@[i]),
                None => r is None,
            },
    {
        let owned: String = path.to_owned();
        let n = self.loaded_textures.len();
        let mut i: usize = 0;
        while i < n
            invariant
                0 <= i <= n,
                n == self.loaded_textures@.len(),
                owned@ == path@,
                forall|j: int| 0 <= j < i ==> self.loaded_textures@[j].path@ != path@,
            decreases n - i,
        {
            if self.loaded_textures[i].path == owned {
                proof {
                    lemma_cache_find_at(self.loaded_textures@, path@, i as int);
                }
                return Some(self.loaded_textures[i].clone());
            }
            i = i + 1;
        }
        proof {
            lemma_cache_find_none(self.loaded_textures@, path@);
        }
        None
    }

    /// Resolves one material texture slot through the cache: a path
    /// already loaded into this model yields the existing record and
    /// leaves the cache as it was; a new path is recorded under
    /// `fresh_id`, the handle the shell just uploaded the file to, and
    /// memoized. `fresh_id` is consumed only on a miss — the shell asks
    /// `find_loaded_texture` first and uploads only then.
    pub fn load_material_texture(&mut self, path: &str, texture_type: TextureKind, fresh_id: u32)
        -> (t: Texture)
        requires
            fresh_id != 0,
        ensures
            final(self).meshes == old(self).meshes,
            match spec_cache_find(old(self).loaded_textures@, path@) {
                Some(i) => {
                    &&& spec_tex_match(t, old(self).loaded_textures@[i])
                    &&& final(self).loaded_textures == old(self).loaded_textures
                },
                None => {
                    &&& t.id == fresh_id
                    &&& t.tex_type == texture_type
                    &&& t.path@ == path@
                    &&& final(self).loaded_textures@.len() == old(self).loaded_textures@.len() + 1
                    &&& forall|j: int|
                        0 <= j < old(self).loaded_textures@.len() ==> #[trigger] final(
                            self).loaded_textures@[j] == old(self).loaded_textures@[j]
                    &&& spec_tex_match(
                        final(self).loaded_textures@[old(self).loaded_textures@.len() as int],
                        t,
                    )
                    &&& spec_cache_find(final(self).loaded_textures@, path@) == Some(
                        old(self).loaded_textures@.len() as int,
                    )
                },
            },
    {
        if let Some(t) = self.find_loaded_texture(path) {
            return t;
        }
        let record = Texture { id: fresh_id, tex_type: texture_type, path: path.to_owned() };
        let result = record.clone();
        self.loaded_textures.push(record);
        proof {
            lemma_cache_find_props(old(self).loaded_textures@, path@);
            lemma_texture_cache_idempotent(
                old(self).loaded_textures@,
                self.loaded_textures@[old(self).loaded_textures@.len() as int],
                path@,
            );
        }
        result
    }

    /// Assembles one mesh per parsed sub-mesh and appends them to the
    /// model, atomically: a file with no sub-meshes, or any sub-mesh
    /// whose arrays do not line up, fails the load with a described
    /// error and the model is left exactly as it was — zero new
    /// drawable entities.
    pub fn load_model(&mut self, submeshes: Vec<SubMesh>) -> (r: Result<(), ModelError>)
        ensures
            final(self).loaded_textures == old(self).loaded_textures,
            match r {
                Ok(()) => {
                    &&& submeshes@.len() > 0
                    &&& forall|k: int| 0 <= k < submeshes@.len() ==> spec_submesh_ok(submeshes@[k])
                    &&& final(self).meshes@.len() == old(self).meshes@.len() + submeshes@.len()
                    &&& forall|j: int|
                        0 <= j < old(self).meshes@.len() ==> final(self).meshes@[j] == old(
                            self,
                        ).meshes@[j]
                    &&& forall|k: int|
                        0 <= k < submeshes@.len() ==> spec_mesh_matches(
                            final(self).meshes@[old(self).meshes@.len() + k],
                            submeshes@[k],
                        )
                },
                Err(ModelError::NoMeshes) => {
                    &&& submeshes@.len() == 0
                    &&& final(self).meshes == old(self).meshes
                },
                Err(ModelError::BadSubMesh { index, error }) => {
                    &&& final(self).meshes == old(self).meshes
                    &&& 0 <= index < submeshes@.len()
                    &&& !spec_submesh_ok(submeshes@[index as int])
                    &&& error == spec_submesh_error(submeshes@[index as int])
                    &&& forall|j: int| 0 <= j < index ==> spec_submesh_ok(submeshes@[j])
                },
            },
    {
        if submeshes.len() == 0 {
            return Err(ModelError::NoMeshes);
        }

        let n = submeshes.len();
        let mut i: usize = 0;
        while i < n
            invariant
                0 <= i <= n,
                n == submeshes@.len(),
                forall|j: int| 0 <= j < i ==> spec_submesh_ok(submeshes@[j]),
            decreases n - i,
        {
            if let Some(error) = check_submesh(&submeshes[i]) {
                return Err(ModelError::BadSubMesh { index: i, error });
            }
            i = i + 1;
        }

        let ghost orig = submeshes@;
        let ghost base = self.meshes@.len() as int;
        let mut rest = submeshes;
        let ghost mut k: int = 0;
        loop
            invariant
                0 <= k <= orig.len(),
                rest@ == orig.subrange(k, orig.len() as int),
                forall|j: int| 0 <= j < orig.len() ==> spec_submesh_ok(orig[j]),
                self.meshes@.len() == base + k,
                base == old(self).meshes@.len(),
                forall|j: int| 0 <= j < base ==> self.meshes@[j] == old(self).meshes@[j],
                forall|j: int|
                    0 <= j < k ==> spec_mesh_matches(self.meshes@[base + j], orig[j]),
                self.loaded_textures == old(self).loaded_textures,
            ensures
                k == orig.len(),
            decreases orig.len() - k,
        {
            if rest.len() == 0 {
                proof {
                    assert(rest@.len() == orig.len() - k);
                }
                break ;
            }
            let sub = rest.remove(0);
            proof {
                assert(sub == orig[k]);
            }
            let vertices = interleave_vertices(&sub);
            let mesh = Mesh::new(vertices, sub.indices, sub.textures);
            self.meshes.push(mesh);
            proof {
                k = k + 1;
                assert(rest@ =~= orig.subrange(k, orig.len() as int));
            }
        }
        Ok(())
    }
}

} // verus!
