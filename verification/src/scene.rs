//! A scene: the drawable objects it owns, an optional skybox texture,
//! and the background colour.

use vstd::prelude::*;

use crate::object::Object;
use crate::texture::Texture;
use crate::types::{Vec3, F32_HALF};

verus! {

pub struct Scene {
    pub objects: Vec<Object>,
    pub has_skybox: bool,
    pub skybox_tex: Option<Texture>,
    pub bg_color: Vec3,
}

impl Scene {
    /// An empty scene: no objects, no skybox, and a mid-grey background
    /// (0.5, 0.5, 0.5).
    pub fn new() -> (s: Scene)
        ensures
            s.objects@.len() == 0,
            !s.has_skybox,
            s.skybox_tex is None,
            s.bg_color == (Vec3 { x: F32_HALF, y: F32_HALF, z: F32_HALF }),
    {
        Scene {
            objects: Vec::new(),
            has_skybox: false,
            skybox_tex: None,
            bg_color: Vec3 { x: F32_HALF, y: F32_HALF, z: F32_HALF },
        }
    }
}

} // verus!
