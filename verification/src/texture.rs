//! Textures that start out empty.

use vstd::prelude::*;
use crate::gpu::{TextureDescriptor, TextureFormat, TextureUsage};
use crate::image::{new_image, solid_pixels, Image};

verus! {

/// An image and the texture it is copied to.
#[derive(Debug, PartialEq, Eq)]
pub struct Texture {
    pub image: Image,
    pub width: u32,
    pub height: u32,
    pub texture: TextureDescriptor,
}

/// A texture that is written by copies and read by sampling.
pub open spec fn sampled_texture(width: u32, height: u32) -> TextureDescriptor {
    TextureDescriptor {
        width,
        height,
        format: TextureFormat::Rgba8UnormSrgb,
        usage: TextureUsage {
            copy_src: false,
            copy_dst: true,
            texture_binding: true,
            storage_binding: false,
            render_attachment: false,
        },
    }
}

impl Texture {
    /// A texture of the given size in pixels, all of them transparent black.
    pub fn empty(width: u32, height: u32) -> (out: Texture)
        requires
            Image::byte_len(width, height) <= usize::MAX,
        ensures
            out.width == width,
            out.height == height,
            out.image.width == width,
            out.image.height == height,
            out.image.rgba@ == solid_pixels(
                (width as nat) * (height as nat),
                seq![0u8, 0u8, 0u8, 0u8],
            ),
            out.texture == sampled_texture(width, height),
    {
        let zero: [u8; 4] = [0, 0, 0, 0];
        assert(zero@ =~= seq![0u8, 0u8, 0u8, 0u8]);
        Texture {
            image: new_image((width, height), zero),
            width,
            height,
            texture: TextureDescriptor {
                width,
                height,
                format: TextureFormat::Rgba8UnormSrgb,
                usage: TextureUsage {
                    copy_src: false,
                    copy_dst: true,
                    texture_binding: true,
                    storage_binding: false,
                    render_attachment: false,
                },
            },
        }
    }
}

} // verus!
