//! Free-fly camera orientation state.
//!
//! Angles (yaw, pitch, field-of-view) are held in hundredths of a degree
//! and cursor positions in tenths of a pixel, both as `i64`. With the
//! mouse sensitivity of 0.1 degrees per pixel, a cursor delta measured in
//! tenths of a pixel is exactly the angle delta in hundredths of a degree,
//! so the update needs no scaling step and is exact.
//!
//! The trigonometric work (deriving the forward/right/up basis from yaw
//! and pitch, the look-at view matrix) is floating point and lives in the
//! unverified shell, which reads the angles kept here.

use vstd::prelude::*;

use crate::types::Vec3;

verus! {

/// Pitch is clamped to +/- 89 degrees so the view cannot flip through the
/// poles.
pub const PITCH_LIMIT: i64 = 8_900;

/// Lower bound of the field of view: 1 degree. Zero or negative would be
/// an invalid projection.
pub const FOV_MIN: i64 = 100;

/// Upper bound of the field of view: 65 degrees.
pub const FOV_MAX: i64 = 6_500;

/// Initial field of view: 45 degrees.
pub const FOV_INITIAL: i64 = 4_500;

/// Initial yaw: -90 degrees, looking down the negative z axis.
pub const YAW_INITIAL: i64 = -9_000;

/// Guard bound on the accumulated yaw, far beyond any reachable angle
/// (4e13 degrees); it only keeps the update arithmetic exact.
pub const YAW_LIMIT: i64 = 4_000_000_000_000_000;

/// Bound on a cursor coordinate handed to the camera, in tenths of a
/// pixel (1e11 pixels); it only keeps the update arithmetic exact.
pub const COORD_LIMIT: i64 = 1_000_000_000_000;

pub open spec fn spec_clamp(v: int, lo: int, hi: int) -> int {
    if v < lo {
        lo
    } else if v > hi {
        hi
    } else {
        v
    }
}

/// Orientation state of the camera. The position is carried as opaque
/// float bit patterns; the shell moves it along the derived basis vectors.
#[derive(Clone, Copy, Debug)]
pub struct Camera {
    pub camera_pos: Vec3,
    /// Yaw angle in hundredths of a degree.
    pub yaw: i64,
    /// Pitch angle in hundredths of a degree.
    pub pitch: i64,
    /// Last seen cursor x, in tenths of a pixel.
    pub last_x: i64,
    /// Last seen cursor y, in tenths of a pixel.
    pub last_y: i64,
    /// Field of view in hundredths of a degree.
    pub fov: i64,
    /// Still waiting for the first cursor sample.
    pub first_mouse: bool,
}

impl Camera {
    /// The bounds every camera satisfies after construction and after
    /// every update.
    pub open spec fn wf(self) -> bool {
        &&& -YAW_LIMIT <= self.yaw <= YAW_LIMIT
        &&& -PITCH_LIMIT <= self.pitch <= PITCH_LIMIT
        &&& FOV_MIN <= self.fov <= FOV_MAX
        &&& -COORD_LIMIT <= self.last_x <= COORD_LIMIT
        &&& -COORD_LIMIT <= self.last_y <= COORD_LIMIT
    }

    /// A fresh camera looking down the negative z axis, with the cursor
    /// reference seeded at the window's centre (`win_w`, `win_h` are the
    /// window size in pixels).
    pub fn new(camera_pos: Vec3, win_w: u32, win_h: u32) -> (c: Camera)
        ensures
            c.wf(),
            c.camera_pos == camera_pos,
            c.yaw == YAW_INITIAL,
            c.pitch == 0,
            c.fov == FOV_INITIAL,
            c.first_mouse,
            c.last_x == (win_w as i64) * 5,
            c.last_y == (win_h as i64) * 5,
    {
        Camera {
            camera_pos,
            yaw: YAW_INITIAL,
            pitch: 0,
            // centre of the window, in tenths of a pixel
            last_x: (win_w as i64) * 5,
            last_y: (win_h as i64) * 5,
            fov: FOV_INITIAL,
            first_mouse: true,
        }
    }

    pub fn get_pos(&self) -> (p: Vec3)
        ensures
            p == self.camera_pos,
    {
        self.camera_pos
    }

    /// The shell writes the position back after moving it along the
    /// camera's basis vectors.
    pub fn set_position(&mut self, p: Vec3)
        ensures
            *final(self) == (Camera { camera_pos: p, ..*old(self) }),
    {
        self.camera_pos = p;
    }

    pub fn get_fov(&self) -> (f: i64)
        ensures
            f == self.fov,
    {
        self.fov
    }

    pub fn get_pitch(&self) -> (p: i64)
        ensures
            p == self.pitch,
    {
        self.pitch
    }

    /// Reseeds the cursor reference without turning the camera.
    pub fn update_coordinates(&mut self, x: i64, y: i64)
        requires
            -COORD_LIMIT <= x <= COORD_LIMIT,
            -COORD_LIMIT <= y <= COORD_LIMIT,
        ensures
            *final(self) == (Camera { last_x: x, last_y: y, ..*old(self) }),
    {
        self.last_x = x;
        self.last_y = y;
    }

    /// What one cursor sample does to the camera: on the first sample the
    /// reference is seeded and no turn happens; afterwards the cursor
    /// delta turns yaw and pitch (screen-down moves the view up), and
    /// pitch is clamped to +/- 89 degrees.
    pub open spec fn mouse_step(self, x: i64, y: i64) -> Camera {
        let lx = if self.first_mouse { x as int } else { self.last_x as int };
        let ly = if self.first_mouse { y as int } else { self.last_y as int };
        Camera {
            yaw: spec_clamp(self.yaw + (x - lx), -YAW_LIMIT as int, YAW_LIMIT as int) as i64,
            pitch: spec_clamp(
                self.pitch + (ly - y),
                -PITCH_LIMIT as int,
                PITCH_LIMIT as int,
            ) as i64,
            last_x: x,
            last_y: y,
            first_mouse: false,
            ..self
        }
    }

    /// Consumes one cursor sample, in tenths of a pixel.
    pub fn handle_mouse(&mut self, x: i64, y: i64)
        requires
            old(self).wf(),
            -COORD_LIMIT <= x <= COORD_LIMIT,
            -COORD_LIMIT <= y <= COORD_LIMIT,
        ensures
            *final(self) == old(self).mouse_step(x, y),
            final(self).wf(),
    {
        if self.first_mouse {
            self.last_x = x;
            self.last_y = y;
            self.first_mouse = false;
        }

        let x_offset: i64 = x - self.last_x;
        let y_offset: i64 = self.last_y - y;
        self.last_x = x;
        self.last_y = y;

        let mut yaw: i64 = self.yaw + x_offset;
        if yaw > YAW_LIMIT {
            yaw = YAW_LIMIT;
        } else if yaw < -YAW_LIMIT {
            yaw = -YAW_LIMIT;
        }
        self.yaw = yaw;

        let mut pitch: i64 = self.pitch + y_offset;
        if pitch > PITCH_LIMIT {
            pitch = PITCH_LIMIT;
        } else if pitch < -PITCH_LIMIT {
            pitch = -PITCH_LIMIT;
        }
        self.pitch = pitch;
    }

    /// What one scroll tick does: the delta is subtracted from the field
    /// of view, which is clamped to [1, 65] degrees.
    pub open spec fn scroll_step(self, scroll: i64) -> Camera {
        Camera {
            fov: spec_clamp(self.fov - scroll, FOV_MIN as int, FOV_MAX as int) as i64,
            ..self
        }
    }

    /// Consumes one scroll delta, in hundredths of a degree.
    pub fn handle_scroll(&mut self, scroll: i64)
        requires
            old(self).wf(),
            -COORD_LIMIT <= scroll <= COORD_LIMIT,
        ensures
            *final(self) == old(self).scroll_step(scroll),
            final(self).wf(),
    {
        let mut fov: i64 = self.fov - scroll;
        if fov < FOV_MIN {
            fov = FOV_MIN;
        } else if fov > FOV_MAX {
            fov = FOV_MAX;
        }
        self.fov = fov;
    }
}

/// Pitch never leaves [-89, 89] degrees: every cursor sample, applied to
/// any well-formed camera, yields a well-formed camera whose pitch is in
/// bounds; so after every call of any sequence of cursor samples the
/// pitch is clamped.
pub proof fn lemma_pitch_always_clamped(c: Camera, x: i64, y: i64)
    requires
        c.wf(),
        -COORD_LIMIT <= x <= COORD_LIMIT,
        -COORD_LIMIT <= y <= COORD_LIMIT,
    ensures
        -PITCH_LIMIT <= c.mouse_step(x, y).pitch <= PITCH_LIMIT,
        c.mouse_step(x, y).wf(),
{
}

/// The field of view never leaves [1, 65] degrees: every scroll tick,
/// applied to any well-formed camera, yields a well-formed camera whose
/// field of view is in bounds; so after every call of any sequence of
/// scroll ticks the field of view is clamped.
pub proof fn lemma_fov_always_clamped(c: Camera, scroll: i64)
    requires
        c.wf(),
        -COORD_LIMIT <= scroll <= COORD_LIMIT,
    ensures
        FOV_MIN <= c.scroll_step(scroll).fov <= FOV_MAX,
        c.scroll_step(scroll).wf(),
{
}

} // verus!
