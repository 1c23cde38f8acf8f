use vstd::prelude::*;

verus! {

/// Layout of the bytes of an image, as a glTF importer reports it.
#[derive(Clone, Copy, Debug, PartialEq, Eq, Structural)]
pub enum PixelFormat {
    R8,
    R8G8,
    R8G8B8,
    R8G8B8A8,
    R16,
    R16G16,
    R16G16B16,
    R16G16B16A16,
    R32G32B32FLOAT,
    R32G32B32A32FLOAT,
}

/// Decoded image: its bytes, their layout and its size in pixels.
#[derive(Debug)]
pub struct ImageData {
    pub pixels: Vec<u8>,
    pub format: PixelFormat,
    pub width: u32,
    pub height: u32,
}

/// Everything needed to upload an image as a four-channel texture.
#[derive(Debug)]
pub struct TextureUpload {
    /// The bytes to upload, four per pixel when the source was RGB.
    pub pixels: Vec<u8>,
    pub width: u32,
    pub height: u32,
    /// Length in bytes of one row of the texture.
    pub bytes_per_row: u32,
    /// Whether the texture holds sRGB-encoded colour (else linear data).
    pub srgb: bool,
}

/// The RGBA bytes made from RGB bytes: each complete group of three bytes is
/// followed by an opaque alpha byte; trailing bytes of an incomplete group are
/// dropped.
pub open spec fn rgb_to_rgba_spec(rgb: Seq<u8>) -> Seq<u8> {
    Seq::new(
        (4 * (rgb.len() / 3)) as nat,
        |i: int| if i % 4 == 3 { 255u8 } else { rgb[(i / 4) * 3 + i % 4] },
    )
}

/// The bytes that go to the GPU for an image: RGB images get an alpha
/// channel, every other format is uploaded as it is.
pub open spec fn upload_pixels_spec(pixels: Seq<u8>, format: PixelFormat) -> Seq<u8> {
    if format == PixelFormat::R8G8B8 {
        rgb_to_rgba_spec(pixels)
    } else {
        pixels
    }
}

/// Removes every fourth byte: the inverse of adding an alpha channel.
pub open spec fn strip_alpha_spec(rgba: Seq<u8>) -> Seq<u8> {
    Seq::new((3 * (rgba.len() / 4)) as nat, |i: int| rgba[(i / 3) * 4 + i % 3])
}

/// Appends an opaque alpha byte after every complete group of three bytes.
pub fn rgb_to_rgba(rgb: &Vec<u8>) -> (rgba: Vec<u8>)
    ensures
        rgba@ == rgb_to_rgba_spec(rgb@),
{
    let n = rgb.len() / 3;
    let mut rgba: Vec<u8> = Vec::new();
    let mut k: usize = 0;
    while k < n
        invariant
            n == rgb.len() / 3,
            k <= n,
            rgba@.len() == 4 * k,
            forall|i: int|
                0 <= i < 4 * k ==> #[trigger] rgba@[i] == rgb_to_rgba_spec(rgb@)[i],
        decreases n - k,
    {
        proof {
            assert(3 * k + 2 < rgb.len()) by (nonlinear_arith)
                requires
                    k < n,
                    n == rgb.len() / 3,
            ;
        }
        let base = 3 * k;
        rgba.push(rgb[base]);
        rgba.push(rgb[base + 1]);
        rgba.push(rgb[base + 2]);
        rgba.push(255u8);
        proof {
            assert forall|i: int| 4 * k <= i < 4 * k + 4 implies #[trigger] rgba@[i]
                == rgb_to_rgba_spec(rgb@)[i] by {
                assert(i / 4 == k as int && i % 4 == i - 4 * k) by (nonlinear_arith)
                    requires
                        4 * k <= i < 4 * k + 4,
                ;
                assert(4 * n <= 4 * (rgb.len() / 3));
            }
        }
        k = k + 1;
    }
    assert(rgba@ =~= rgb_to_rgba_spec(rgb@));
    rgba
}

/// Prepares an image for upload as an RGBA texture of the same size: the
/// bytes per `upload_pixels_spec`, four bytes per pixel on each row, and the
/// colour space chosen by `is_srgb`.
pub fn prepare_texture(image: ImageData, is_srgb: bool) -> (upload: TextureUpload)
    requires
        4 * image.width <= u32::MAX,
    ensures
        upload.pixels@ == upload_pixels_spec(image.pixels@, image.format),
        upload.width == image.width,
        upload.height == image.height,
        upload.bytes_per_row == 4 * image.width,
        upload.srgb == is_srgb,
        image.format != PixelFormat::R8G8B8 ==> upload.pixels@ == image.pixels@,
        image.format == PixelFormat::R8G8B8 ==> upload.pixels@.len() == 4 * (image.pixels@.len() / 3),
{
    let pixels = if image.format == PixelFormat::R8G8B8 {
        rgb_to_rgba(&image.pixels)
    } else {
        image.pixels
    };
    TextureUpload {
        pixels,
        width: image.width,
        height: image.height,
        bytes_per_row: 4 * image.width,
        srgb: is_srgb,
    }
}

/// Adding an alpha channel loses nothing: removing it again gives back every
/// complete RGB pixel, and the number of pixels stays the same.
pub proof fn law_alpha_round_trip(rgb: Seq<u8>)
    ensures
        strip_alpha_spec(rgb_to_rgba_spec(rgb)) == rgb.take((3 * (rgb.len() / 3)) as int),
        rgb_to_rgba_spec(rgb).len() / 4 == rgb.len() / 3,
{
    let rgba = rgb_to_rgba_spec(rgb);
    let n = rgb.len() / 3;
    assert(rgba.len() / 4 == n);
    let back = strip_alpha_spec(rgba);
    assert forall|i: int| 0 <= i < 3 * n implies #[trigger] back[i] == rgb.take((3 * n) as int)[i] by {
        let q = i / 3;
        let r = i % 3;
        assert(0 <= q < n && 0 <= r < 3 && i == 3 * q + r) by (nonlinear_arith)
            requires
                0 <= i < 3 * n,
                q == i / 3,
                r == i % 3,
        ;
        let j = q * 4 + r;
        assert(j / 4 == q && j % 4 == r && 0 <= j < 4 * n) by (nonlinear_arith)
            requires
                j == q * 4 + r,
                0 <= r < 3,
                0 <= q < n,
        ;
    }
    assert(back =~= rgb.take((3 * n) as int));
}

/// Every pixel of an RGB image becomes fully opaque.
pub proof fn law_expanded_pixels_are_opaque(rgb: Seq<u8>, p: int)
    requires
        0 <= p < rgb.len() / 3,
    ensures
        rgb_to_rgba_spec(rgb)[4 * p + 3] == 255,
{
    assert((4 * p + 3) % 4 == 3) by (nonlinear_arith);
    assert(4 * p + 3 < 4 * (rgb.len() / 3)) by (nonlinear_arith)
        requires
            0 <= p < rgb.len() / 3,
    ;
}


/// Only RGB images are changed for upload: every other format goes to the GPU
/// byte for byte.
pub proof fn law_other_formats_unchanged(pixels: Seq<u8>, format: PixelFormat)
    requires
        format != PixelFormat::R8G8B8,
    ensures
        upload_pixels_spec(pixels, format) == pixels,
{
}

/// An RGB image is uploaded as four bytes per complete pixel: its three
/// colour bytes in order, then an opaque alpha byte.
pub proof fn law_rgb_upload_layout(pixels: Seq<u8>, p: int, c: int)
    requires
        0 <= p < pixels.len() / 3,
        0 <= c < 3,
    ensures
        upload_pixels_spec(pixels, PixelFormat::R8G8B8).len() == 4 * (pixels.len() / 3),
        upload_pixels_spec(pixels, PixelFormat::R8G8B8)[4 * p + c] == pixels[3 * p + c],
        upload_pixels_spec(pixels, PixelFormat::R8G8B8)[4 * p + 3] == 255,
{
    let i = 4 * p + c;
    assert(i / 4 == p && i % 4 == c) by (nonlinear_arith)
        requires
            i == 4 * p + c,
            0 <= c < 3,
    ;
    assert((4 * p + 3) % 4 == 3) by (nonlinear_arith);
    assert(4 * p + 3 < 4 * (pixels.len() / 3)) by (nonlinear_arith)
        requires
            0 <= p < pixels.len() / 3,
    ;
}

} // verus!
