//! A full-screen (or framebuffer) quad: a drawable whose positions have
//! two components, drawn without a translation.

use vstd::prelude::*;

use crate::rendering::{VAO, VBO};
use crate::types::{spec_identity, spec_scaled_translation, Mat4, Vec3, F32_ZERO};
use crate::vertices::{attribute_layout, spec_texcoord_offset, VertexArray, VertexAttribute};

verus! {

#[derive(Clone, Debug)]
pub struct Screen {
    pub vertex_array: VertexArray,
    pub vao: VAO,
    pub vbo: VBO,
}

impl Screen {
    pub open spec fn live(self) -> bool {
        self.vao.live() && self.vbo.live()
    }

    pub open spec fn released(self) -> bool {
        self.vao.id == 0 && self.vbo.id == 0
    }

    /// Assembles a screen quad from a well-formed 2-component descriptor
    /// and live handles the shell allocated.
    pub fn new(vertex_array: VertexArray, vao: VAO, vbo: VBO) -> (s: Screen)
        requires
            vertex_array.wf_with(2),
            vao.live(),
            vbo.live(),
        ensures
            s == (Screen { vertex_array, vao, vbo }),
            s.live(),
    {
        Screen { vertex_array, vao, vbo }
    }

    /// The attribute layout for a 2-component-position record: position
    /// at 0, then normal and texture coordinate by the flags.
    pub fn attribute_layout(&self) -> (attrs: Vec<VertexAttribute>)
        requires
            self.vertex_array.wf_with(2),
        ensures
            attrs@.len() == 1 + (if self.vertex_array.has_normals {
                1int
            } else {
                0int
            }) + (if self.vertex_array.has_tex_coords {
                1int
            } else {
                0int
            }),
            attrs@[0] == (VertexAttribute { index: 0, components: 2, offset: 0 }),
            self.vertex_array.has_normals ==> attrs@[1] == (VertexAttribute {
                index: 1,
                components: 3,
                offset: 8,
            }),
            self.vertex_array.has_tex_coords ==> attrs@[attrs@.len() - 1] == (VertexAttribute {
                index: 2,
                components: 2,
                offset: spec_texcoord_offset(2, self.vertex_array.has_normals) as u32,
            }),
    {
        attribute_layout(&self.vertex_array, 2)
    }

    /// The model matrix of one draw: the identity, the quad already
    /// lives in clip space.
    pub fn model_matrix(&self) -> (m: Mat4)
        ensures
            m == spec_identity(),
    {
        Mat4::identity()
    }

    /// The model matrix of one outline draw: a uniform scale by `size`
    /// (an `f32` bit pattern) about the origin.
    pub fn outline_model_matrix(&self, size: u32) -> (m: Mat4)
        ensures
            m == spec_scaled_translation(
                Vec3 { x: F32_ZERO, y: F32_ZERO, z: F32_ZERO },
                size,
            ),
    {
        Mat4::from_scaled_translation(Vec3 { x: F32_ZERO, y: F32_ZERO, z: F32_ZERO }, size)
    }

    /// Releases the quad: hands back the vertex-array and buffer handles
    /// for the shell to destroy, and zeroes both handle fields. Safe to
    /// call at most once.
    pub fn delete(&mut self) -> (handles: (u32, u32))
        requires
            old(self).live(),
        ensures
            handles == (old(self).vao.id, old(self).vbo.id),
            final(self).released(),
            final(self).vertex_array == old(self).vertex_array,
    {
        let vao = self.vao.delete();
        let vbo = self.vbo.delete();
        (vao, vbo)
    }
}

} // verus!
