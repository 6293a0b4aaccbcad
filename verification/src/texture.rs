//! Flat 2-D textures: decode-format classification, the vertical-flip
//! policy for PNG inputs, and the wrap-mode policy.
//!
//! The shell opens and decodes the image file; the decoded image is
//! carried through this module as an opaque `image::DynamicImage`. What
//! the library decides about it — whether to flip, which channel format
//! to upload as, which wrap mode to set — is verified here; the decode
//! and the upload stay outside.

use vstd::prelude::*;
use vstd::string::StrSliceExecFns;

use image::DynamicImage;

verus! {

/// A GPU 2-D texture: the handle the driver returned for it. The handle
/// 0 is the null name and stands for a released or never-created texture.
#[derive(Clone, Copy, Debug, PartialEq, Eq, Structural)]
pub struct Texture {
    pub id: u32,
}

impl Texture {
    /// Wraps a handle the driver allocated.
    pub fn new(id: u32) -> (t: Texture)
        requires
            id != 0,
        ensures
            t.id == id,
    {
        Texture { id }
    }
}

/// Channel layout of a decoded image, as the uploader needs it.
#[derive(Clone, Copy, Debug, PartialEq, Eq, Structural)]
pub enum PixelFormat {
    Grey,
    GreyAlpha,
    Rgb,
    Rgba,
}

/// Texture-coordinate wrap mode.
#[derive(Clone, Copy, Debug, PartialEq, Eq, Structural)]
pub enum WrapMode {
    Repeat,
    ClampToEdge,
}

/// Why a texture could not be prepared.
#[derive(Clone, Copy, Debug, PartialEq, Eq, Structural)]
pub enum TextureError {
    /// The decoded image uses a channel layout (16-bit or float) that the
    /// uploader does not take.
    UnsupportedLayout,
    /// A cube-map upload was planned without exactly one path per face.
    WrongFaceCount,
}

/// Transparent images must not wrap-bleed at their edges; opaque surface
/// textures tile.
pub open spec fn spec_wrap_for(format: PixelFormat) -> WrapMode {
    if format == PixelFormat::Rgba {
        WrapMode::ClampToEdge
    } else {
        WrapMode::Repeat
    }
}

pub fn wrap_mode_for(format: PixelFormat) -> (w: WrapMode)
    ensures
        w == spec_wrap_for(format),
{
    if matches!(format, PixelFormat::Rgba) {
        WrapMode::ClampToEdge
    } else {
        WrapMode::Repeat
    }
}

/// The characters after the last `.` of `s`; the whole of `s` when it
/// has no `.`.
pub open spec fn spec_extension(s: Seq<char>) -> Seq<char>
    decreases s.len(),
{
    if s.len() == 0 {
        s
    } else if s.last() == '.' {
        Seq::empty()
    } else {
        spec_extension(s.drop_last()).push(s.last())
    }
}

/// A path names a PNG file when its extension is exactly `png`.
pub open spec fn spec_is_png(s: Seq<char>) -> bool {
    spec_extension(s) == seq!['p', 'n', 'g']
}

/// When position `j` is just past the last `.` of `s` (or 0 when `s` has
/// none), the extension is the suffix from `j`.
proof fn lemma_extension_is_suffix(s: Seq<char>, j: int)
    requires
        0 <= j <= s.len(),
        forall|i: int| j <= i < s.len() ==> s[i] != '.',
        j > 0 ==> s[j - 1] == '.',
    ensures
        spec_extension(s) == s.subrange(j, s.len() as int),
    decreases s.len(),
{
    if j < s.len() {
        lemma_extension_is_suffix(s.drop_last(), j);
        assert(s.subrange(j, s.len() as int) =~= s.drop_last().subrange(
            j,
            s.drop_last().len() as int,
        ).push(s.last()));
    } else {
        if j == 0 {
            assert(s.subrange(0, 0) =~= s);
        } else {
            assert(spec_extension(s) =~= s.subrange(j, s.len() as int));
        }
    }
}

/// Does the path name a PNG file? The extension is whatever follows the
/// last `.`, or the whole path when there is none.
pub fn has_png_extension(path: &str) -> (b: bool)
    ensures
        b == spec_is_png(path@),
{
    let len = path.unicode_len();

    // Find the position just past the last '.', or 0 if there is none.
    let mut start: usize = 0;
    let mut i = len;
    loop
        invariant_except_break
            0 <= i <= len,
            len == path@.len(),
            start == 0,
            forall|k: int| i <= k < len ==> path@[k] != '.',
        ensures
            0 <= start <= len,
            forall|k: int| start <= k < len ==> path@[k] != '.',
            start > 0 ==> path@[start - 1] == '.',
        decreases i,
    {
        if i == 0 {
            break ;
        }
        if path.get_char(i - 1) == '.' {
            start = i;
            break ;
        }
        i = i - 1;
    }
    proof {
        lemma_extension_is_suffix(path@, start as int);
    }

    let ext_len = len - start;
    let b = ext_len == 3 && path.get_char(start) == 'p' && path.get_char(start + 1) == 'n'
        && path.get_char(start + 2) == 'g';
    proof {
        let ext = path@.subrange(start as int, len as int);
        if b {
            assert(ext =~= seq!['p', 'n', 'g']);
        } else {
            assert(ext != seq!['p', 'n', 'g']) by {
                if ext =~= seq!['p', 'n', 'g'] {
                    assert(ext.len() == 3);
                    assert(ext[0] == 'p' && ext[1] == 'n' && ext[2] == 'g');
                }
            }
        }
    }
    b
}

#[verifier::external_type_specification]
#[verifier::external_body]
pub struct ExDynamicImage(DynamicImage);

/// The channel classification of a decoded image: a name for what
/// `classify_image` returns. It depends on the image value alone, so
/// two classifications of the same image agree; what the classes mean
/// on a given image is checked by tests, not assumed.
pub uninterp spec fn classify_of(img: DynamicImage) -> Option<PixelFormat>;

/// The vertically flipped image: a name for what `flip_vertical`
/// returns. It depends on the image value alone.
pub uninterp spec fn flipv_of(img: DynamicImage) -> DynamicImage;

/// Relies on `DynamicImage::color`: reports the variant's channel layout.
/// The four 8-bit layouts map to the formats the uploader takes; the
/// 16-bit and float layouts have no format here.
#[verifier::external_body]
fn classify_image(img: &DynamicImage) -> (f: Option<PixelFormat>)
    ensures
        f == classify_of(*img),
{
    match img.color() {
        image::ColorType::L8 => Some(PixelFormat::Grey),
        image::ColorType::La8 => Some(PixelFormat::GreyAlpha),
        image::ColorType::Rgb8 => Some(PixelFormat::Rgb),
        image::ColorType::Rgba8 => Some(PixelFormat::Rgba),
        _ => None,
    }
}

/// Relies on `image::DynamicImage::flipv`: returns the image flipped
/// vertically.
#[verifier::external_body]
fn flip_vertical(img: &DynamicImage) -> (r: DynamicImage)
    ensures
        r == flipv_of(*img),
{
    img.flipv()
}

/// A decoded image together with every decision the uploader needs.
pub struct PreparedImage {
    /// The image to upload, already flipped when the policy asked for it.
    pub image: DynamicImage,
    /// Channel format to upload as.
    pub format: PixelFormat,
    /// Wrap mode to set on both axes.
    pub wrap: WrapMode,
    /// Whether the image was flipped vertically.
    pub flipped: bool,
}

/// Finishes preparation once the channel format is known: flips PNG
/// inputs vertically (to match the texture-coordinate convention used
/// elsewhere) and picks the wrap mode from the format. Total: defined
/// for every format the classifier can hand back.
pub fn finish_prepare(img: DynamicImage, path: &str, format: PixelFormat) -> (p: PreparedImage)
    ensures
        p.format == format,
        p.wrap == spec_wrap_for(format),
        p.flipped == spec_is_png(path@),
        p.image == (if spec_is_png(path@) {
            flipv_of(img)
        } else {
            img
        }),
{
    let flip = has_png_extension(path);
    let image = if flip {
        flip_vertical(&img)
    } else {
        img
    };
    let wrap = wrap_mode_for(format);
    PreparedImage { image, format, wrap, flipped: flip }
}

/// Prepares a decoded image for upload as a flat 2-D texture. Succeeds
/// exactly when the image classifies to a format the uploader takes,
/// and then carries that classification out; fails on any other layout,
/// and the error is propagated to the caller, never retried.
pub fn prepare_image(img: DynamicImage, path: &str) -> (r: Result<PreparedImage, TextureError>)
    ensures
        match r {
            Ok(p) => {
                &&& classify_of(img) == Some(p.format)
                &&& p.wrap == spec_wrap_for(p.format)
                &&& p.flipped == spec_is_png(path@)
                &&& p.image == (if spec_is_png(path@) {
                    flipv_of(img)
                } else {
                    img
                })
            },
            Err(e) => {
                &&& classify_of(img) is None
                &&& e == TextureError::UnsupportedLayout
            },
        },
{
    match classify_image(&img) {
        Some(format) => Ok(finish_prepare(img, path, format)),
        None => Err(TextureError::UnsupportedLayout),
    }
}

/// Prepares a decoded image for upload as a material texture of the
/// model loader: the image is never flipped and always tiles, whatever
/// its format. Succeeds exactly when the image classifies to a format
/// the uploader takes.
pub fn prepare_material_texture(img: DynamicImage) -> (r: Result<PreparedImage, TextureError>)
    ensures
        match r {
            Ok(p) => {
                &&& classify_of(img) == Some(p.format)
                &&& p.wrap == WrapMode::Repeat
                &&& !p.flipped
                &&& p.image == img
            },
            Err(e) => {
                &&& classify_of(img) is None
                &&& e == TextureError::UnsupportedLayout
            },
        },
{
    match classify_image(&img) {
        Some(format) => Ok(
            PreparedImage { image: img, format, wrap: WrapMode::Repeat, flipped: false },
        ),
        None => Err(TextureError::UnsupportedLayout),
    }
}

} // verus!
