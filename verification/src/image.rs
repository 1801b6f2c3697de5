//! Images as rows of RGBA pixels.

use vstd::prelude::*;
use crate::prim::Dimensions;

verus! {

/// Unpremultiplied RGBA pixels, four bytes each, row after row from the top.
#[derive(Clone, Debug, PartialEq, Eq)]
pub struct Image {
    pub rgba: Vec<u8>,
    pub width: u32,
    pub height: u32,
}

/// The bytes of `count` pixels that all have the colour `rgba`.
pub open spec fn solid_pixels(count: nat, rgba: Seq<u8>) -> Seq<u8>
    recommends
        rgba.len() == 4,
{
    Seq::new(count * 4, |i: int| rgba[i % 4])
}

impl Image {
    /// The number of bytes that `width` by `height` pixels take.
    pub open spec fn byte_len(width: u32, height: u32) -> nat {
        (width as nat) * (height as nat) * 4
    }

    /// Whether the image holds exactly the bytes of its pixels.
    pub open spec fn is_complete(&self) -> bool {
        self.rgba@.len() == Self::byte_len(self.width, self.height)
    }

    /// An image over the given bytes. The bytes are kept as they are, also
    /// where their number does not fit the size.
    pub fn new(rgba_bytes: Vec<u8>, width: u32, height: u32) -> (out: Image)
        ensures
            out.rgba == rgba_bytes,
            out.width == width,
            out.height == height,
    {
        Image { rgba: rgba_bytes, width, height }
    }

    /// Decodes an image file. `None` where the bytes are no image that the
    /// decoder reads; an image that is returned holds exactly the bytes of
    /// its pixels.
    pub fn load(bytes: Vec<u8>) -> (out: Option<Image>)
        ensures
            out matches Some(image) ==> image.is_complete(),
    {
        from_decoded(decode(&bytes))
    }

    pub fn get_bytes(&self) -> (out: &Vec<u8>)
        ensures
            out == &self.rgba,
    {
        &self.rgba
    }

    /// The size in pixels.
    pub fn size(&self) -> (out: Dimensions)
        ensures
            out.width == self.width,
            out.height == self.height,
    {
        Dimensions { width: self.width as i64, height: self.height as i64 }
    }
}

/// Pixels and size of a decoded image file.
pub struct Decoded {
    pub rgba: Vec<u8>,
    pub width: u32,
    pub height: u32,
}

/// Calls `image::load_from_memory` on the bytes of an image file and brings
/// the picture into RGBA with eight bits per channel. `None` where the
/// decoder returns an error. What comes out depends on the bytes and on the
/// decoders that the process has registered: nothing is claimed of it.
#[verifier::external_body]
fn decode(bytes: &Vec<u8>) -> Option<Decoded> {
    match ::image::load_from_memory(bytes.as_slice()) {
        Ok(picture) => {
            let pixels = picture.into_rgba8();
            let (width, height) = (pixels.width(), pixels.height());
            Some(Decoded { rgba: pixels.into_raw(), width, height })
        },
        Err(_) => None,
    }
}

/// Whether `len` is the number of bytes that `width` by `height` pixels take.
pub fn is_byte_len(len: usize, width: u32, height: u32) -> (out: bool)
    ensures
        out == (len == Image::byte_len(width, height)),
{
    assert((width as nat) * (height as nat) <= 0xffff_ffff * 0xffff_ffff) by (nonlinear_arith)
        requires
            width <= 0xffff_ffff,
            height <= 0xffff_ffff,
    ;
    let pixels: u64 = (width as u64) * (height as u64);
    len as u128 == (pixels as u128) * 4
}

/// The image that a decoder's result stands for: `None` where there is no
/// result, or where it does not hold exactly the bytes of its pixels.
pub fn from_decoded(decoded: Option<Decoded>) -> (out: Option<Image>)
    ensures
        out is Some <==> (decoded matches Some(d) && d.rgba@.len() == Image::byte_len(
            d.width,
            d.height,
        )),
        out matches Some(image) ==> image.rgba == decoded->0.rgba && image.width
            == decoded->0.width && image.height == decoded->0.height,
{
    match decoded {
        Some(d) => if is_byte_len(d.rgba.len(), d.width, d.height) {
            Some(Image::new(d.rgba, d.width, d.height))
        } else {
            None
        },
        None => None,
    }
}

/// An image of the given size in pixels, every pixel of the colour `rgba`.
pub fn new_image(size: (u32, u32), rgba: [u8; 4]) -> (out: Image)
    requires
        Image::byte_len(size.0, size.1) <= usize::MAX,
    ensures
        out.width == size.0,
        out.height == size.1,
        out.rgba@ == solid_pixels((size.0 as nat) * (size.1 as nat), rgba@),
        out.is_complete(),
{
    let ghost count: nat = (size.0 as nat) * (size.1 as nat);
    assert(Image::byte_len(size.0, size.1) == count * 4);
    assert(count <= count * 4) by (nonlinear_arith);
    assert((size.0 as usize) * (size.1 as usize) == count) by (nonlinear_arith)
        requires
            count == (size.0 as nat) * (size.1 as nat),
    ;
    let pixel_count: usize = (size.0 as usize) * (size.1 as usize);
    let mut data: Vec<u8> = Vec::new();
    let mut i: usize = 0;
    while i < pixel_count
        invariant
            i <= pixel_count,
            pixel_count == count,
            data@ == solid_pixels(i as nat, rgba@),
        decreases pixel_count - i,
    {
        data.push(rgba[0]);
        data.push(rgba[1]);
        data.push(rgba[2]);
        data.push(rgba[3]);
        assert(data@ =~= solid_pixels((i + 1) as nat, rgba@));
        i += 1;
    }
    Image { rgba: data, width: size.0, height: size.1 }
}

} // verus!
