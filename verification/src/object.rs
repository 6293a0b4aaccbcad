//! A non-indexed drawable entity: one vertex-layout descriptor, one
//! vertex-array and one data-buffer handle, one shared texture, and a
//! world-space translation.
//!
//! Created once at scene-build time and released once at teardown; the
//! release zeroes every handle field, so a released object cannot be
//! mistaken for a live one and a double release is ruled out by
//! contract.

use vstd::prelude::*;

use crate::rendering::{VAO, VBO};
use crate::texture::Texture;
use crate::types::{spec_scaled_translation, spec_translation, Mat4, Vec3};
use crate::vertices::{attribute_layout, spec_texcoord_offset, VertexArray, VertexAttribute};

verus! {

#[derive(Clone, Debug)]
pub struct Object {
    pub vertex_array: VertexArray,
    pub vao: VAO,
    pub vbo: VBO,
    pub texture: Texture,
    pub position: Vec3,
}

impl Object {
    /// Every handle the object owns or references is live.
    pub open spec fn live(self) -> bool {
        self.vao.live() && self.vbo.live() && self.texture.id != 0
    }

    /// Every handle field is zeroed: the object is fully released.
    pub open spec fn released(self) -> bool {
        self.vao.id == 0 && self.vbo.id == 0 && self.texture.id == 0
    }

    /// Assembles a drawable object from a well-formed 3-component
    /// descriptor and live handles the shell allocated.
    pub fn new(
        vertex_array: VertexArray,
        vao: VAO,
        vbo: VBO,
        texture: Texture,
        position: Vec3,
    ) -> (o: Object)
        requires
            vertex_array.wf_with(3),
            vao.live(),
            vbo.live(),
            texture.id != 0,
        ensures
            o == (Object { vertex_array, vao, vbo, texture, position }),
            o.live(),
    {
        Object { vertex_array, vao, vbo, texture, position }
    }

    /// The attribute layout the shell configures for this object's
    /// descriptor: position at 0, then normal and texture coordinate by
    /// the flags.
    pub fn attribute_layout(&self) -> (attrs: Vec<VertexAttribute>)
        requires
            self.vertex_array.wf_with(3),
        ensures
            attrs@.len() == 1 + (if self.vertex_array.has_normals {
                1int
            } else {
                0int
            }) + (if self.vertex_array.has_tex_coords {
                1int
            } else {
                0int
            }),
            attrs@[0] == (VertexAttribute { index: 0, components: 3, offset: 0 }),
            self.vertex_array.has_normals ==> attrs@[1] == (VertexAttribute {
                index: 1,
                components: 3,
                offset: 12,
            }),
            self.vertex_array.has_tex_coords ==> attrs@[attrs@.len() - 1] == (VertexAttribute {
                index: 2,
                components: 2,
                offset: spec_texcoord_offset(3, self.vertex_array.has_normals) as u32,
            }),
    {
        attribute_layout(&self.vertex_array, 3)
    }

    /// The model matrix of one draw: a translation to the object's
    /// position.
    pub fn model_matrix(&self) -> (m: Mat4)
        ensures
            m == spec_translation(self.position),
    {
        Mat4::from_translation(self.position)
    }

    /// The model matrix of one outline draw: a uniform scale by `size`
    /// (an `f32` bit pattern) followed by the translation.
    pub fn outline_model_matrix(&self, size: u32) -> (m: Mat4)
        ensures
            m == spec_scaled_translation(self.position, size),
    {
        Mat4::from_scaled_translation(self.position, size)
    }

    /// Releases the object: hands back the vertex-array, buffer and
    /// texture handles for the shell to destroy, and zeroes every handle
    /// field. Safe to call at most once; the `requires` rules out the
    /// double free.
    pub fn delete(&mut self) -> (handles: (u32, u32, u32))
        requires
            old(self).live(),
        ensures
            handles == (old(self).vao.id, old(self).vbo.id, old(self).texture.id),
            final(self).released(),
            final(self).vertex_array == old(self).vertex_array,
            final(self).position == old(self).position,
    {
        let vao = self.vao.delete();
        let vbo = self.vbo.delete();
        let tex = self.texture.id;
        self.texture.id = 0;
        (vao, vbo, tex)
    }
}

} // verus!
