//! The skybox: a cube drawn around the viewer from a cube-map texture.
//!
//! Two rules make a skybox look infinitely distant: its view matrix is
//! the camera's view with the translation column zeroed, and its six
//! faces are uploaded in a fixed order (+X, -X, +Y, -Y, +Z, -Z) as
//! 3-channel RGB with clamp-to-edge wrap and no mipmaps. Both rules are
//! stated and checked here; the uploads and the draw stay in the shell.

use vstd::prelude::*;

use crate::rendering::{VAO, VBO};
use crate::texture::{PixelFormat, Texture, TextureError, WrapMode};
use crate::types::{spec_without_translation, Mat4, F32_ZERO};
use crate::vertices::{attribute_layout, VertexArray, VertexAttribute};

verus! {

/// A cube map has exactly six faces.
pub const CUBEMAP_FACES: usize = 6;

#[derive(Clone, Debug)]
pub struct Skybox {
    pub vertex_array: VertexArray,
    pub vao: VAO,
    pub vbo: VBO,
    pub cubemap_texture: Texture,
}

impl Skybox {
    pub open spec fn live(self) -> bool {
        self.vao.live() && self.vbo.live() && self.cubemap_texture.id != 0
    }

    /// Assembles a skybox from a well-formed position-only descriptor
    /// and live handles the shell allocated.
    pub fn new(vertex_array: VertexArray, vao: VAO, vbo: VBO, cubemap_texture: Texture) -> (s:
        Skybox)
        requires
            vertex_array.wf_with(3),
            vao.live(),
            vbo.live(),
            cubemap_texture.id != 0,
        ensures
            s == (Skybox { vertex_array, vao, vbo, cubemap_texture }),
            s.live(),
    {
        Skybox { vertex_array, vao, vbo, cubemap_texture }
    }

    /// The attribute layout of the cube: one 3-component position at
    /// offset 0 (the presets carry no normals or texture coordinates).
    pub fn attribute_layout(&self) -> (attrs: Vec<VertexAttribute>)
        requires
            self.vertex_array.wf_with(3),
        ensures
            attrs@.len() == 1 + (if self.vertex_array.has_normals {
                1int
            } else {
                0int
            }) + (if self.vertex_array.has_tex_coords {
                1int
            } else {
                0int
            }),
            attrs@[0] == (VertexAttribute { index: 0, components: 3, offset: 0 }),
    {
        attribute_layout(&self.vertex_array, 3)
    }

    /// The view matrix for the skybox draw: the camera's view with its
    /// translation column zeroed, so the box never translates with the
    /// camera.
    pub fn skybox_view(&self, view: Mat4) -> (m: Mat4)
        ensures
            m == spec_without_translation(view),
            m.w.x == F32_ZERO && m.w.y == F32_ZERO && m.w.z == F32_ZERO,
    {
        view.without_translation()
    }
}

/// For any camera position and orientation, the view matrix handed to
/// the skybox shader has a zero translation column: stripping leaves
/// exactly (+0.0, +0.0, +0.0) in the first three entries of the fourth
/// column and touches nothing else.
pub proof fn lemma_skybox_view_zero_translation(view: Mat4)
    ensures
        spec_without_translation(view).w.x == F32_ZERO,
        spec_without_translation(view).w.y == F32_ZERO,
        spec_without_translation(view).w.z == F32_ZERO,
        spec_without_translation(view).w.w == view.w.w,
        spec_without_translation(view).x == view.x,
        spec_without_translation(view).y == view.y,
        spec_without_translation(view).z == view.z,
{
}

/// Everything the shell needs to upload one cube map: the six face
/// paths in order, and the fixed upload policy.
pub struct CubemapPlan {
    /// Face image paths, in the order +X, -X, +Y, -Y, +Z, -Z.
    pub paths: Vec<String>,
    /// Faces are always uploaded as 3-channel RGB; alpha is not handled.
    pub format: PixelFormat,
    /// Clamp-to-edge on all three axes.
    pub wrap: WrapMode,
    /// Cube maps get no mipmaps.
    pub generate_mipmaps: bool,
}

/// Plans a cube-map upload. Fails exactly when the path list does not
/// hold one path per face; otherwise the paths are kept in the given
/// face order and the fixed policy is attached.
pub fn cubemap_plan(paths: Vec<String>) -> (r: Result<CubemapPlan, TextureError>)
    ensures
        match r {
            Ok(plan) => {
                &&& paths@.len() == CUBEMAP_FACES
                &&& plan.paths == paths
                &&& plan.format == PixelFormat::Rgb
                &&& plan.wrap == WrapMode::ClampToEdge
                &&& !plan.generate_mipmaps
            },
            Err(e) => {
                &&& paths@.len() != CUBEMAP_FACES
                &&& e == TextureError::WrongFaceCount
            },
        },
{
    if paths.len() != CUBEMAP_FACES {
        return Err(TextureError::WrongFaceCount);
    }
    Ok(
        CubemapPlan {
            paths,
            format: PixelFormat::Rgb,
            wrap: WrapMode::ClampToEdge,
            generate_mipmaps: false,
        },
    )
}

} // verus!
