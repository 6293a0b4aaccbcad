//! An indexed mesh: interleaved vertex records, an index array, and the
//! shared texture references drawn with it.
//!
//! A vertex record is three position floats, three normal floats and two
//! texture-coordinate floats, in that order: 32 bytes. When a mesh is
//! drawn, its textures are bound to texture units by position, and the
//! uniform each unit is published under numbers same-kind textures by
//! occurrence order (`texture_diffuse1`, `texture_diffuse2`, ...).

use vstd::prelude::*;

use crate::types::{Vec2, Vec3};
use crate::vertices::VertexAttribute;

verus! {

/// One interleaved vertex record, as float bit patterns.
#[derive(Clone, Copy, Debug, PartialEq, Eq, Structural)]
pub struct Vertex {
    pub position: Vec3,
    pub normal: Vec3,
    pub tex_coords: Vec2,
}

/// Bytes in one interleaved vertex record: eight floats.
pub const VERTEX_STRIDE_BYTES: u32 = 32;

/// The semantic kind of a material texture; the shader addresses each
/// kind by a fixed uniform name.
#[derive(Clone, Copy, Debug, PartialEq, Eq, Structural)]
pub enum TextureKind {
    Diffuse,
    Specular,
    Normal,
    Height,
}

/// A loaded material texture: the GPU handle, its semantic kind, and the
/// source path it was loaded from. For caching, its identity is the
/// path, not the handle.
#[derive(Debug)]
pub struct Texture {
    pub id: u32,
    pub tex_type: TextureKind,
    pub path: String,
}

/// Two texture records carry the same handle, kind and path.
pub open spec fn spec_tex_match(a: Texture, b: Texture) -> bool {
    a.id == b.id && a.tex_type == b.tex_type && a.path@ == b.path@
}

impl Clone for Texture {
    /// Clones the record; the copy carries the same handle, kind and path.
    fn clone(&self) -> (r: Texture)
        ensures
            spec_tex_match(r, *self),
    {
        Texture { id: self.id, tex_type: self.tex_type, path: self.path.clone() }
    }
}

/// How many of the first `upto` textures have kind `k`.
pub open spec fn spec_kind_count(s: Seq<Texture>, k: TextureKind, upto: int) -> int
    decreases upto,
{
    if upto <= 0 {
        0
    } else {
        spec_kind_count(s, k, upto - 1) + (if s[upto - 1].tex_type == k {
            1int
        } else {
            0int
        })
    }
}

/// One texture binding of a draw: which unit to bind to, the texture's
/// kind, and its 1-based number among same-kind textures.
#[derive(Clone, Copy, Debug, PartialEq, Eq, Structural)]
pub struct TextureBinding {
    pub unit: usize,
    pub kind: TextureKind,
    pub number: usize,
}

#[derive(Debug)]
pub struct Mesh {
    pub vertices: Vec<Vertex>,
    pub indices: Vec<u32>,
    pub textures: Vec<Texture>,
    pub vao: u32,
    pub vbo: u32,
    pub ebo: u32,
}

impl Mesh {
    /// No buffers have been attached yet.
    pub open spec fn unattached(self) -> bool {
        self.vao == 0 && self.vbo == 0 && self.ebo == 0
    }

    /// Assembles a mesh from its arrays; the GPU buffers are attached
    /// separately, once the shell has allocated them.
    pub fn new(vertices: Vec<Vertex>, indices: Vec<u32>, textures: Vec<Texture>) -> (m: Mesh)
        ensures
            m.vertices == vertices,
            m.indices == indices,
            m.textures == textures,
            m.unattached(),
    {
        Mesh { vertices, indices, textures, vao: 0, vbo: 0, ebo: 0 }
    }

    /// Records the handles the shell allocated for this mesh's
    /// vertex-array, vertex and index buffers. Each mesh is set up
    /// exactly once.
    pub fn attach_buffers(&mut self, vao: u32, vbo: u32, ebo: u32)
        requires
            old(self).unattached(),
            vao != 0,
            vbo != 0,
            ebo != 0,
        ensures
            *final(self) == (Mesh { vao, vbo, ebo, ..*old(self) }),
    {
        self.vao = vao;
        self.vbo = vbo;
        self.ebo = ebo;
    }

    /// The attribute layout of the interleaved record: position at 0,
    /// normal at 12, texture coordinate at 24, all within a 32-byte
    /// stride.
    pub fn vertex_attribute_layout() -> (attrs: Vec<VertexAttribute>)
        ensures
            attrs@.len() == 3,
            attrs@[0] == (VertexAttribute { index: 0, components: 3, offset: 0 }),
            attrs@[1] == (VertexAttribute { index: 1, components: 3, offset: 12 }),
            attrs@[2] == (VertexAttribute { index: 2, components: 2, offset: 24 }),
    {
        let mut attrs: Vec<VertexAttribute> = Vec::new();
        attrs.push(VertexAttribute { index: 0, components: 3, offset: 0 });
        attrs.push(VertexAttribute { index: 1, components: 3, offset: 12 });
        attrs.push(VertexAttribute { index: 2, components: 2, offset: 24 });
        attrs
    }

    /// Plans the texture bindings of one draw: texture `i` goes to unit
    /// `i`, numbered by how many earlier textures share its kind, plus
    /// one.
    pub fn texture_bindings(&self) -> (binds: Vec<TextureBinding>)
        ensures
            binds@.len() == self.textures@.len(),
            forall|i: int|
                0 <= i < binds@.len() ==> binds@[i] == (TextureBinding {
                    unit: i as usize,
                    kind: self.textures@[i].tex_type,
                    number: (spec_kind_count(self.textures@, self.textures@[i].tex_type, i)
                        + 1) as usize,
                }),
    {
        let mut binds: Vec<TextureBinding> = Vec::new();
        let mut diffuse_nr: usize = 0;
        let mut specular_nr: usize = 0;
        let mut normal_nr: usize = 0;
        let mut height_nr: usize = 0;

        let n = self.textures.len();
        let mut i: usize = 0;
        while i < n
            invariant
                0 <= i <= n,
                n == self.textures@.len(),
                binds@.len() == i,
                diffuse_nr == spec_kind_count(self.textures@, TextureKind::Diffuse, i as int),
                specular_nr == spec_kind_count(self.textures@, TextureKind::Specular, i as int),
                normal_nr == spec_kind_count(self.textures@, TextureKind::Normal, i as int),
                height_nr == spec_kind_count(self.textures@, TextureKind::Height, i as int),
                forall|j: int|
                    0 <= j < i ==> binds@[j] == (TextureBinding {
                        unit: j as usize,
                        kind: self.textures@[j].tex_type,
                        number: (spec_kind_count(self.textures@, self.textures@[j].tex_type, j)
                            + 1) as usize,
                    }),
            decreases self.textures@.len() - i,
        {
            proof {
                lemma_kind_count_bounded(self.textures@, self.textures@[i as int].tex_type, i as int);
            }
            let number: usize = match self.textures[i].tex_type {
                TextureKind::Diffuse => {
                    diffuse_nr = diffuse_nr + 1;
                    diffuse_nr
                },
                TextureKind::Specular => {
                    specular_nr = specular_nr + 1;
                    specular_nr
                },
                TextureKind::Normal => {
                    normal_nr = normal_nr + 1;
                    normal_nr
                },
                TextureKind::Height => {
                    height_nr = height_nr + 1;
                    height_nr
                },
            };
            binds.push(
                TextureBinding { unit: i, kind: self.textures[i].tex_type, number },
            );
            i = i + 1;
        }
        binds
    }
}

/// Serialises vertex records into the flat word array the attribute
/// layout describes: eight words per record, in the order position,
/// normal, texture coordinates — exactly the offsets 0, 12 and 24 within
/// the 32-byte stride.
pub fn flatten_vertices(vertices: &Vec<Vertex>) -> (flat: Vec<u32>)
    ensures
        flat@.len() == 8 * vertices@.len(),
        forall|i: int|
            0 <= i < vertices@.len() ==> {
                &&& flat@[8 * i] == vertices@[i].position.x
                &&& flat@[8 * i + 1] == vertices@[i].position.y
                &&& flat@[8 * i + 2] == vertices@[i].position.z
                &&& flat@[8 * i + 3] == vertices@[i].normal.x
                &&& flat@[8 * i + 4] == vertices@[i].normal.y
                &&& flat@[8 * i + 5] == vertices@[i].normal.z
                &&& flat@[8 * i + 6] == vertices@[i].tex_coords.x
                &&& flat@[8 * i + 7] == vertices@[i].tex_coords.y
            },
{
    let mut flat: Vec<u32> = Vec::new();
    let n = vertices.len();
    let mut i: usize = 0;
    while i < n
        invariant
            0 <= i <= n,
            n == vertices@.len(),
            flat@.len() == 8 * i,
            forall|j: int|
                0 <= j < i ==> {
                    &&& flat@[8 * j] == vertices@[j].position.x
                    &&& flat@[8 * j + 1] == vertices@[j].position.y
                    &&& flat@[8 * j + 2] == vertices@[j].position.z
                    &&& flat@[8 * j + 3] == vertices@[j].normal.x
                    &&& flat@[8 * j + 4] == vertices@[j].normal.y
                    &&& flat@[8 * j + 5] == vertices@[j].normal.z
                    &&& flat@[8 * j + 6] == vertices@[j].tex_coords.x
                    &&& flat@[8 * j + 7] == vertices@[j].tex_coords.y
                },
        decreases n - i,
    {
        let v = vertices[i];
        flat.push(v.position.x);
        flat.push(v.position.y);
        flat.push(v.position.z);
        flat.push(v.normal.x);
        flat.push(v.normal.y);
        flat.push(v.normal.z);
        flat.push(v.tex_coords.x);
        flat.push(v.tex_coords.y);
        i = i + 1;
    }
    flat
}

/// At most `upto` of the first `upto` textures have kind `k`.
proof fn lemma_kind_count_bounded(s: Seq<Texture>, k: TextureKind, upto: int)
    requires
        upto >= 0,
    ensures
        0 <= spec_kind_count(s, k, upto) <= upto,
    decreases upto,
{
    if upto > 0 {
        lemma_kind_count_bounded(s, k, upto - 1);
    }
}

/// The uniform-name stem of a texture kind; the shader addresses the
/// `n`-th same-kind texture as this stem followed by `n`.
pub fn uniform_name(kind: TextureKind) -> (r: &'static str)
    ensures
        r@ == match kind {
            TextureKind::Diffuse => "texture_diffuse"@,
            TextureKind::Specular => "texture_specular"@,
            TextureKind::Normal => "texture_normal"@,
            TextureKind::Height => "texture_height"@,
        },
{
    match kind {
        TextureKind::Diffuse => "texture_diffuse",
        TextureKind::Specular => "texture_specular",
        TextureKind::Normal => "texture_normal",
        TextureKind::Height => "texture_height",
    }
}

} // verus!
