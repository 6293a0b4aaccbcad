//! Verified core of a small real-time 3-D renderer.
//!
//! The library covers the rendering-resource and transform layer: vertex
//! layout descriptors and the attribute offsets derived from them, GPU
//! handle lifecycles, the texture cache, indexed-mesh assembly, the skybox
//! view-matrix trick, and the camera's orientation state.
//!
//! The graphics driver itself, windowing, and file decoding are external
//! collaborators; they are driven by an unverified shell that hands this
//! library plain values and carries its decisions back to the driver.
//!
//! Raw 32-bit float data (vertex coordinates, matrix entries) is carried as
//! IEEE-754 bit patterns in `u32` fields, so that the moves, copies and
//! zeroings the library performs on it are exact; angles and cursor
//! positions are held in integer fixed point.

pub mod camera;
pub mod mesh;
pub mod model;
pub mod object;
pub mod rendering;
pub mod scene;
pub mod screen;
pub mod shader;
pub mod skybox;
pub mod texture;
pub mod types;
pub mod vertices;
