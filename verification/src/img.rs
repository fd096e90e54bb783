//! Cached images, and the pixel conversion the display protocol needs.

use crate::alignment::Alignment;
use crate::picture::Picture;
use vstd::prelude::*;

verus! {

/// An image cached on the display server.
///
/// The pixels are uploaded once by the executing edge; the bar keeps the
/// resulting server-side picture, its size and the alignment the image
/// wants inside its component.
#[derive(Clone, Copy, Debug, Eq, Hash, PartialEq, Structural)]
pub struct Image {
    /// The uploaded picture.
    pub picture: Picture,
    /// Where the image sits inside the component.
    pub alignment: Alignment,
}

impl Image {
    /// Record an uploaded image. Images start out centered.
    pub fn new(picture: Picture) -> (r: Self)
        ensures
            r.picture == picture,
            r.alignment is CENTER,
    {
        Image { picture, alignment: Alignment::CENTER }
    }

    /// Set the alignment of the image inside the complete component. This
    /// allows different alignments for different images layered in a single
    /// background.
    pub fn alignment(self, alignment: Alignment) -> (r: Self)
        ensures
            r == (Image { alignment, ..self }),
    {
        Image { alignment, ..self }
    }
}

/// The decoded image type of the `image` crate. Verus treats a value of it
/// as opaque; the conversion below reads its pixels through trusted calls.
#[verifier::external_type_specification]
#[verifier::external_body]
pub struct ExDynamicImage(image::DynamicImage);

/// The pixel bytes of a decoded image, row-major, four bytes per pixel in
/// RGBA channel order. They are a function of the image value alone.
pub uninterp spec fn image_rgba(img: image::DynamicImage) -> Seq<u8>;

/// The pixel width of a decoded image, a function of the image value
/// alone.
pub uninterp spec fn image_width(img: image::DynamicImage) -> u32;

/// The pixel height of a decoded image, a function of the image value
/// alone.
pub uninterp spec fn image_height(img: image::DynamicImage) -> u32;

/// Relies on `image::DynamicImage::to_rgba8` followed by
/// `image::ImageBuffer::into_raw`: the returned buffer holds the image's
/// pixels row-major, four bytes per pixel in RGBA order, and its contents
/// depend on the image alone. Every buffer constructor of the crate
/// refuses a container with fewer than four bytes per pixel, so the buffer
/// is at least that long — but it may be longer: a buffer handed in
/// through `ImageBuffer::from_raw` keeps whatever excess it came with.
#[verifier::external_body]
fn image_rgba_bytes(image: &image::DynamicImage) -> (r: Vec<u8>)
    ensures
        r@ == image_rgba(*image),
        r@.len() >= 4 * image_width(*image) * image_height(*image),
{
    image.to_rgba8().into_raw()
}

/// Relies on `image::DynamicImage::width` and `height`: the pixel
/// dimensions of the decoded image, functions of the image value alone.
#[verifier::external_body]
fn image_dimensions(image: &image::DynamicImage) -> (r: (u32, u32))
    ensures
        r.0 == image_width(*image),
        r.1 == image_height(*image),
{
    (image.width(), image.height())
}

/// The same pixel bytes with the first and third channel of every pixel
/// exchanged: RGBA data turned into the BGRA layout the display server's
/// 32-bit picture format stores.
pub open spec fn spec_bgra(s: Seq<u8>) -> Seq<u8> {
    Seq::new(
        s.len(),
        |i: int| if i % 4 == 0 {
            s[i + 2]
        } else if i % 4 == 2 {
            s[i - 2]
        } else {
            s[i]
        },
    )
}

/// Exchanging the channels twice restores the buffer exactly: the swap is
/// its own inverse on whole-pixel data.
pub proof fn lemma_swap_red_blue_involution(s: Seq<u8>)
    requires
        s.len() % 4 == 0,
    ensures
        spec_bgra(spec_bgra(s)) =~= s,
{
    assert forall|i: int| 0 <= i < s.len() implies spec_bgra(spec_bgra(s))[i] == s[i] by {
        assert((s.len() - i) % 4 == (0 - i) % 4);
        if i % 4 == 0 {
            assert(s.len() - i >= 4);
        } else if i % 4 == 2 {
            assert(s.len() - (i - 2) >= 4);
        }
    }
}

/// Exchange the first and third byte of every four-byte pixel: RGBA in,
/// BGRA out.
pub fn swap_red_blue(data: &Vec<u8>) -> (r: Vec<u8>)
    requires
        data@.len() % 4 == 0,
    ensures
        r@ == spec_bgra(data@),
{
    let mut out: Vec<u8> = Vec::new();
    let mut i: usize = 0;
    while i < data.len()
        invariant
            data@.len() % 4 == 0,
            i % 4 == 0,
            i <= data@.len(),
            out@.len() == i,
            forall|k: int| 0 <= k < i ==> out@[k] == spec_bgra(data@)[k],
        decreases data@.len() - i,
    {
        out.push(data[i + 2]);
        out.push(data[i + 1]);
        out.push(data[i]);
        out.push(data[i + 3]);
        i = i + 4;
    }
    assert(i == data@.len());
    assert(out@ =~= spec_bgra(data@));
    out
}

/// The first `n` bytes of a buffer.
fn prefix_bytes(data: &Vec<u8>, n: usize) -> (r: Vec<u8>)
    requires
        n <= data@.len(),
    ensures
        r@ == data@.take(n as int),
{
    let mut out: Vec<u8> = Vec::new();
    let mut i: usize = 0;
    while i < n
        invariant
            n <= data@.len(),
            i <= n,
            out@.len() == i,
            forall|k: int| 0 <= k < i ==> out@[k] == data@[k],
        decreases n - i,
    {
        out.push(data[i]);
        i = i + 1;
    }
    assert(out@ =~= data@.take(n as int));
    out
}

/// Convert a decoded image to the raw byte layout the display server's
/// 32-bit pictures use: exactly four bytes for each of the image's pixels,
/// the RGBA channels with red and blue exchanged. Excess bytes a
/// hand-built buffer may carry beyond the image's own pixels are cut off,
/// so the result always agrees with the image's dimensions.
pub fn convert_image(image: &image::DynamicImage) -> (r: Vec<u8>)
    ensures
        r@.len() == 4 * image_width(*image) * image_height(*image),
        r@ == spec_bgra(
            image_rgba(*image).take(4 * image_width(*image) * image_height(*image)),
        ),
{
    let raw = image_rgba_bytes(image);
    let (w, h) = image_dimensions(image);
    assert((w as int) * (h as int) <= 0xffff_ffff * 0xffff_ffff) by (nonlinear_arith)
        requires
            w <= 0xffff_ffffu32,
            h <= 0xffff_ffffu32,
    ;
    let pixels: u128 = (w as u128) * (h as u128);
    let byte_count: u128 = 4 * pixels;
    assert(4 * ((w as int) * (h as int)) == 4 * (w as int) * (h as int)) by (nonlinear_arith);
    assert(byte_count == 4 * image_width(*image) * image_height(*image));
    let raw_len: usize = raw.len();
    assert(byte_count <= raw_len);
    let n: usize = byte_count as usize;
    assert(n % 4 == 0);
    let exact = prefix_bytes(&raw, n);
    let r = swap_red_blue(&exact);
    assert(r@.len() == byte_count);
    r
}

} // verus!
