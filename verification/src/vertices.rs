//! Vertex layout descriptors and the attribute layouts derived from them.
//!
//! A `VertexArray` carries the raw per-vertex floats (as bit patterns)
//! together with the flags that say which attributes the record holds.
//! The record order is fixed: position, then normal (iff `has_normals`),
//! then texture coordinates (iff `has_tex_coords`); the byte offsets
//! handed to the driver are a pure function of the flags.
//!
//! Positions have three components for the solid objects and two for the
//! flat screen quads, so the component count is a parameter where it
//! matters.

use vstd::prelude::*;

verus! {

/// Bytes in one 32-bit float.
pub const FLOAT_BYTES: u32 = 4;

/// Floats in one vertex record with `pos` position components and the
/// given attribute flags.
pub open spec fn spec_floats_per_vertex(pos: int, has_normals: bool, has_tex_coords: bool) -> int {
    pos + (if has_normals {
        3int
    } else {
        0int
    }) + (if has_tex_coords {
        2int
    } else {
        0int
    })
}

/// Byte offset of the texture-coordinate attribute: past the position,
/// and past the normal when one precedes it.
pub open spec fn spec_texcoord_offset(pos: int, has_normals: bool) -> int {
    4 * pos + (if has_normals {
        12int
    } else {
        0int
    })
}

/// Raw vertex data plus the flags that describe its record layout.
#[derive(Clone, Debug)]
pub struct VertexArray {
    /// The vertex floats, as IEEE-754 bit patterns. Always holds
    /// positions; may also hold normals and texture coordinates.
    pub vertices: Vec<u32>,

    /// Does each record hold a 3-float normal?
    pub has_normals: bool,

    /// Does each record hold a 2-float texture coordinate?
    pub has_tex_coords: bool,

    /// Bytes per vertex record: the float count times four.
    pub stride: u8,

    /// How many vertices one draw of this data submits.
    pub triangle_count: i32,
}

impl VertexArray {
    /// The descriptor's stride matches its flags for `pos`-component
    /// positions, the data is a whole number of records, and one draw
    /// submits exactly the vertices the data holds: `triangle_count`
    /// records of `stride` floats each.
    pub open spec fn wf_with(self, pos: int) -> bool {
        &&& self.stride as int == 4 * spec_floats_per_vertex(
            pos,
            self.has_normals,
            self.has_tex_coords,
        )
        &&& self.vertices@.len() % spec_floats_per_vertex(
            pos,
            self.has_normals,
            self.has_tex_coords,
        ) as nat == 0
        &&& self.triangle_count as int * spec_floats_per_vertex(
            pos,
            self.has_normals,
            self.has_tex_coords,
        ) == self.vertices@.len()
    }

    /// Well-formed as a 3-component (solid) or 2-component (flat quad)
    /// descriptor.
    pub open spec fn wf(self) -> bool {
        self.wf_with(3) || self.wf_with(2)
    }

    /// Builds a descriptor from raw data and a per-record float count;
    /// the stored stride is scaled to bytes. Malformed input (a stride
    /// that does not match the flags, or data that does not hold exactly
    /// `triangle_count` records) is a caller contract violation, ruled
    /// out here.
    pub fn new(
        vertices: Vec<u32>,
        stride: u8,
        has_normals: bool,
        has_tex_coords: bool,
        triangle_count: i32,
    ) -> (va: VertexArray)
        requires
            stride as int == spec_floats_per_vertex(3, has_normals, has_tex_coords) || stride
                as int == spec_floats_per_vertex(2, has_normals, has_tex_coords),
            triangle_count as int * stride as int == vertices@.len(),
        ensures
            va.vertices == vertices,
            va.has_normals == has_normals,
            va.has_tex_coords == has_tex_coords,
            va.stride as int == 4 * stride as int,
            va.triangle_count == triangle_count,
            va.wf(),
    {
        proof {
            vstd::arithmetic::div_mod::lemma_mod_multiples_basic(
                triangle_count as int,
                stride as int,
            );
        }
        VertexArray {
            vertices,
            has_normals,
            has_tex_coords,
            stride: stride * 4,
            triangle_count,
        }
    }
}

/// One entry of an attribute layout: attribute slot, component count, and
/// byte offset into the vertex record.
#[derive(Clone, Copy, Debug, PartialEq, Eq, Structural)]
pub struct VertexAttribute {
    pub index: u32,
    pub components: u32,
    pub offset: u32,
}

/// Derives the attribute layout of a descriptor with `pos`-component
/// positions: attribute 0 is the position at offset 0; attribute 1 is the
/// 3-float normal right after the position, iff `has_normals`; attribute
/// 2 is the 2-float texture coordinate after both, iff `has_tex_coords`.
/// The offsets depend on nothing but the flags and `pos`.
pub fn attribute_layout(va: &VertexArray, pos: u32) -> (attrs: Vec<VertexAttribute>)
    requires
        pos == 2 || pos == 3,
        va.wf_with(pos as int),
    ensures
        attrs@.len() == 1 + (if va.has_normals {
            1int
        } else {
            0int
        }) + (if va.has_tex_coords {
            1int
        } else {
            0int
        }),
        attrs@[0] == (VertexAttribute { index: 0, components: pos, offset: 0 }),
        va.has_normals ==> attrs@[1] == (VertexAttribute {
            index: 1,
            components: 3,
            offset: (4 * pos) as u32,
        }),
        va.has_tex_coords ==> attrs@[attrs@.len() - 1] == (VertexAttribute {
            index: 2,
            components: 2,
            offset: spec_texcoord_offset(pos as int, va.has_normals) as u32,
        }),
{
    let mut attrs: Vec<VertexAttribute> = Vec::new();
    attrs.push(VertexAttribute { index: 0, components: pos, offset: 0 });

    if va.has_normals {
        attrs.push(VertexAttribute { index: 1, components: 3, offset: 4 * pos });
    }

    if va.has_tex_coords {
        let offset: u32 = if va.has_normals {
            4 * pos + 12
        } else {
            4 * pos
        };
        attrs.push(VertexAttribute { index: 2, components: 2, offset });
    }

    attrs
}

/// Offsets are a pure function of the flags: a well-formed 3-component
/// descriptor has stride `3 + 3*has_normals + 2*has_tex_coords` floats,
/// the position always takes the first 12 bytes, and the texture
/// coordinate sits 12 bytes further in when a normal precedes it.
pub proof fn lemma_offsets_pure_function_of_flags(va: VertexArray)
    requires
        va.wf_with(3),
    ensures
        va.stride as int == 4 * (3 + (if va.has_normals {
            3int
        } else {
            0int
        }) + (if va.has_tex_coords {
            2int
        } else {
            0int
        })),
        spec_texcoord_offset(3, va.has_normals) == 12 + (if va.has_normals {
            12int
        } else {
            0int
        }),
{
}

/// The catalog of built-in vertex-data presets. The float tables
/// themselves are opaque input data owned by the shell; each preset's
/// record layout is declared here.
pub enum Vertices {
    Cube,
    CubeWithoutNormals,
    PlaneWithoutNormals,
    FlatImage,
    Screen,
    ReverseCamera,
    Skybox,
}

/// The record layout of one preset: floats per record, attribute flags,
/// and the vertex count one draw submits.
#[derive(Clone, Copy, Debug, PartialEq, Eq, Structural)]
pub struct PresetLayout {
    pub stride: u8,
    pub has_normals: bool,
    pub has_tex_coords: bool,
    pub triangle_count: i32,
}

impl Vertices {
    /// Each preset's declared layout. The solid presets have 3-component
    /// positions; the screen quads (`Screen`, `ReverseCamera`) have
    /// 2-component positions.
    pub fn layout(&self) -> (l: PresetLayout)
        ensures
            l == match self {
                Vertices::Cube => PresetLayout {
                    stride: 8,
                    has_normals: true,
                    has_tex_coords: true,
                    triangle_count: 36,
                },
                Vertices::CubeWithoutNormals => PresetLayout {
                    stride: 5,
                    has_normals: false,
                    has_tex_coords: true,
                    triangle_count: 36,
                },
                Vertices::PlaneWithoutNormals => PresetLayout {
                    stride: 5,
                    has_normals: false,
                    has_tex_coords: true,
                    triangle_count: 6,
                },
                Vertices::FlatImage => PresetLayout {
                    stride: 5,
                    has_normals: false,
                    has_tex_coords: true,
                    triangle_count: 6,
                },
                Vertices::Screen => PresetLayout {
                    stride: 4,
                    has_normals: false,
                    has_tex_coords: true,
                    triangle_count: 6,
                },
                Vertices::ReverseCamera => PresetLayout {
                    stride: 4,
                    has_normals: false,
                    has_tex_coords: true,
                    triangle_count: 6,
                },
                Vertices::Skybox => PresetLayout {
                    stride: 3,
                    has_normals: false,
                    has_tex_coords: false,
                    triangle_count: 36,
                },
            },
            l.stride as int == spec_floats_per_vertex(3, l.has_normals, l.has_tex_coords)
                || l.stride as int == spec_floats_per_vertex(2, l.has_normals, l.has_tex_coords),
    {
        match self {
            Vertices::Cube => PresetLayout {
                stride: 8,
                has_normals: true,
                has_tex_coords: true,
                triangle_count: 36,
            },
            Vertices::CubeWithoutNormals => PresetLayout {
                stride: 5,
                has_normals: false,
                has_tex_coords: true,
                triangle_count: 36,
            },
            Vertices::PlaneWithoutNormals => PresetLayout {
                stride: 5,
                has_normals: false,
                has_tex_coords: true,
                triangle_count: 6,
            },
            Vertices::FlatImage => PresetLayout {
                stride: 5,
                has_normals: false,
                has_tex_coords: true,
                triangle_count: 6,
            },
            Vertices::Screen => PresetLayout {
                stride: 4,
                has_normals: false,
                has_tex_coords: true,
                triangle_count: 6,
            },
            Vertices::ReverseCamera => PresetLayout {
                stride: 4,
                has_normals: false,
                has_tex_coords: true,
                triangle_count: 6,
            },
            Vertices::Skybox => PresetLayout {
                stride: 3,
                has_normals: false,
                has_tex_coords: false,
                triangle_count: 36,
            },
        }
    }
}

} // verus!
