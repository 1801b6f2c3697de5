//! A canvas whose pixels live on the processor side and are copied to and
//! from a texture.
//!
//! A copy from a texture into a buffer needs rows that start at multiples of
//! `ROW_ALIGNMENT` bytes. What is read back therefore has padding at the end
//! of each row, which is taken off again here.

use vstd::prelude::*;
use crate::gpu::{TextureDescriptor, TextureFormat, TextureUsage};
use crate::image::{new_image, solid_pixels, Image};

verus! {

/// The number of bytes that the rows of a buffer copy are aligned to.
pub const ROW_ALIGNMENT: u32 = 256;

/// The largest width of a canvas: its padded rows are counted in `u32`.
pub const MAX_WIDTH: u32 = 0x3fff_ffc0;

/// The bytes of one row of pixels.
pub open spec fn row_bytes(width: u32) -> int {
    4 * width
}

/// The bytes of one row in a buffer copy: the next multiple of
/// `ROW_ALIGNMENT` from `row_bytes` on.
pub open spec fn padded_row_bytes(width: u32) -> int {
    (4 * width + 255) / 256 * 256
}

/// The first `rows` rows of `mapped` without their padding: of every
/// `padded` bytes the first `row`.
pub open spec fn strip_rows(mapped: Seq<u8>, row: int, padded: int, rows: int) -> Seq<u8>
    decreases rows,
{
    if rows <= 0 {
        Seq::empty()
    } else {
        strip_rows(mapped, row, padded, rows - 1) + mapped.subrange(
            (rows - 1) * padded,
            (rows - 1) * padded + row,
        )
    }
}

/// Where a buffer copy finds the rows of an image.
#[derive(Clone, Copy, Debug, PartialEq, Eq, Structural)]
pub struct CopyLayout {
    pub offset: u64,
    pub bytes_per_row: u32,
    pub rows_per_image: u32,
}

/// A buffer that a texture is copied into and that is then mapped for
/// reading.
#[derive(Clone, Copy, Debug, PartialEq, Eq, Structural)]
pub struct BufferDescriptor {
    pub size: u64,
    pub map_read: bool,
    pub copy_dst: bool,
}

/// What an upload writes: the canvas's bytes, laid out without padding, into
/// the whole texture.
#[derive(Clone, Copy, Debug, PartialEq, Eq, Structural)]
pub struct Upload {
    pub layout: CopyLayout,
    pub width: u32,
    pub height: u32,
}

/// What a download asks for: the staging buffer, where it has to be made
/// first, and the copy of the whole texture into it.
#[derive(Clone, Copy, Debug, PartialEq, Eq, Structural)]
pub struct Download {
    pub create_buffer: Option<BufferDescriptor>,
    pub layout: CopyLayout,
    pub width: u32,
    pub height: u32,
}

/// Pixels on the processor side, the texture they are copied to, and the
/// staging buffer they are read back through.
#[derive(Debug, PartialEq, Eq)]
pub struct Canvas {
    pub image: Image,
    pub data: Vec<u8>,
    pub buffer: Option<BufferDescriptor>,
    pub texture: TextureDescriptor,
    pub size: (u32, u32),
}

/// The texture of a canvas.
pub open spec fn canvas_texture(width: u32, height: u32) -> TextureDescriptor {
    TextureDescriptor {
        width,
        height,
        format: TextureFormat::Rgba8UnormSrgb,
        usage: TextureUsage {
            copy_src: true,
            copy_dst: true,
            texture_binding: true,
            storage_binding: false,
            render_attachment: false,
        },
    }
}

/// The staging buffer of a canvas.
pub open spec fn staging_buffer(width: u32, height: u32) -> BufferDescriptor {
    BufferDescriptor {
        size: (padded_row_bytes(width) * height) as u64,
        map_read: true,
        copy_dst: true,
    }
}

impl Canvas {
    /// Whether the canvas is small enough for its copies: the width is at
    /// most `MAX_WIDTH` and the padded rows fit in memory.
    pub open spec fn fits(width: u32, height: u32) -> bool {
        width <= MAX_WIDTH && padded_row_bytes(width) * height <= usize::MAX
    }

    /// Whether the bytes are those of `size` pixels.
    pub open spec fn wf(&self) -> bool {
        &&& Self::fits(self.size.0, self.size.1)
        &&& self.data@.len() == row_bytes(self.size.0) * self.size.1
    }

    /// Whether `fits` holds.
    pub fn check_fits(width: u32, height: u32) -> (out: bool)
        ensures
            out == Self::fits(width, height),
    {
        if width > MAX_WIDTH {
            return false;
        }
        let padded: u64 = (4 * (width as u64) + 255) / 256 * 256;
        assert(padded * height <= 0x1_0000_0000 * 0x1_0000_0000) by (nonlinear_arith)
            requires
                padded <= 0x1_0000_0000,
                height <= 0x1_0000_0000,
        ;
        (padded as u128) * (height as u128) <= usize::MAX as u128
    }

    /// A canvas of the given size in pixels, all of them transparent black,
    /// with no staging buffer yet.
    pub fn new(width: u32, height: u32) -> (out: Canvas)
        requires
            Self::fits(width, height),
        ensures
            out.wf(),
            out.size == (width, height),
            out.data@ == solid_pixels((width as nat) * (height as nat), seq![0u8, 0u8, 0u8, 0u8]),
            out.image.rgba@ == out.data@,
            out.image.width == width,
            out.image.height == height,
            out.buffer is None,
            out.texture == canvas_texture(width, height),
    {
        proof {
            lemma_padded_row(width);
            assert(4 * width * height <= padded_row_bytes(width) * height) by (nonlinear_arith)
                requires
                    4 * width <= padded_row_bytes(width),
            ;
            assert((width as nat) * (height as nat) * 4 == 4 * width * height) by (nonlinear_arith);
        }
        let zero: [u8; 4] = [0, 0, 0, 0];
        assert(zero@ =~= seq![0u8, 0u8, 0u8, 0u8]);
        let image = new_image((width, height), zero);
        let copy = new_image((width, height), zero);
        Canvas {
            image,
            data: copy.rgba,
            buffer: None,
            texture: TextureDescriptor {
                width,
                height,
                format: TextureFormat::Rgba8UnormSrgb,
                usage: TextureUsage {
                    copy_src: true,
                    copy_dst: true,
                    texture_binding: true,
                    storage_binding: false,
                    render_attachment: false,
                },
            },
            size: (width, height),
        }
    }

    /// How the bytes are written to the texture: row after row without
    /// padding, the whole extent.
    pub fn upload(&self) -> (out: Upload)
        requires
            self.wf(),
        ensures
            out.layout.offset == 0,
            out.layout.bytes_per_row == row_bytes(self.size.0),
            out.layout.rows_per_image == self.size.1,
            out.width == self.size.0,
            out.height == self.size.1,
    {
        Upload {
            layout: CopyLayout {
                offset: 0,
                bytes_per_row: 4 * self.size.0,
                rows_per_image: self.size.1,
            },
            width: self.size.0,
            height: self.size.1,
        }
    }

    /// Begins a download: the staging buffer is made once, at the first
    /// download, and the texture is copied into it in padded rows.
    pub fn download(&mut self) -> (out: Download)
        requires
            old(self).wf(),
        ensures
            out.create_buffer == (if old(self).buffer is None {
                Some(staging_buffer(old(self).size.0, old(self).size.1))
            } else {
                None
            }),
            final(self).buffer == (match old(self).buffer {
                Some(b) => Some(b),
                None => Some(staging_buffer(old(self).size.0, old(self).size.1)),
            }),
            out.layout.offset == 0,
            out.layout.bytes_per_row == padded_row_bytes(old(self).size.0),
            out.layout.rows_per_image == old(self).size.1,
            out.width == old(self).size.0,
            out.height == old(self).size.1,
            final(self).data == old(self).data,
            final(self).image == old(self).image,
            final(self).size == old(self).size,
            final(self).texture == old(self).texture,
            final(self).wf(),
    {
        let padded: u32 = padded_row(self.size.0);
        let create_buffer = match self.buffer {
            Some(_) => None,
            None => {
                assert(padded * self.size.1 <= 0x1_0000_0000 * 0x1_0000_0000) by (nonlinear_arith)
                    requires
                        padded <= 0x1_0000_0000,
                        self.size.1 <= 0x1_0000_0000,
                ;
                let made = BufferDescriptor {
                    size: (padded as u64) * (self.size.1 as u64),
                    map_read: true,
                    copy_dst: true,
                };
                self.buffer = Some(made);
                Some(made)
            },
        };
        Download {
            create_buffer,
            layout: CopyLayout { offset: 0, bytes_per_row: padded, rows_per_image: self.size.1 },
            width: self.size.0,
            height: self.size.1,
        }
    }

    /// Ends a download. `mapped` is what was read from the staging buffer,
    /// `None` where mapping it failed. Where it holds as many bytes as the
    /// padded rows take, the canvas's bytes become its rows without their
    /// padding; otherwise the canvas keeps its bytes.
    pub fn finish_download(&mut self, mapped: Option<Vec<u8>>) -> (taken: bool)
        requires
            old(self).wf(),
        ensures
            taken == (mapped matches Some(m) && m@.len() == padded_row_bytes(old(self).size.0) * old(self).size.1),
            taken ==> final(self).data@ == strip_rows(
                mapped->0@,
                row_bytes(old(self).size.0),
                padded_row_bytes(old(self).size.0),
                old(self).size.1 as int,
            ),
            !taken ==> final(self).data == old(self).data,
            final(self).image == old(self).image,
            final(self).size == old(self).size,
            final(self).texture == old(self).texture,
            final(self).buffer == old(self).buffer,
            final(self).wf(),
    {
        match mapped {
            Some(m) => match strip_padding(&m, self.size.0, self.size.1) {
                Some(data) => {
                    self.data = data;
                    true
                },
                None => false,
            },
            None => false,
        }
    }
}

/// A padded row is a multiple of the alignment, holds a row, and is less
/// than one alignment longer.
pub proof fn lemma_padded_row(width: u32)
    ensures
        padded_row_bytes(width) % 256 == 0,
        row_bytes(width) <= padded_row_bytes(width) < row_bytes(width) + 256,
{
}

/// The bytes of one row in a buffer copy.
pub fn padded_row(width: u32) -> (out: u32)
    requires
        width <= MAX_WIDTH,
    ensures
        out == padded_row_bytes(width),
{
    (4 * width + 255) / 256 * 256
}

/// Stripping `rows` rows gives `rows` times `row` bytes.
pub proof fn lemma_strip_len(mapped: Seq<u8>, row: int, padded: int, rows: int)
    requires
        0 <= row <= padded,
        0 <= rows,
        rows * padded <= mapped.len(),
    ensures
        strip_rows(mapped, row, padded, rows).len() == rows * row,
    decreases rows,
{
    if rows > 0 {
        assert((rows - 1) * padded + padded == rows * padded) by (nonlinear_arith);
        assert((rows - 1) * row + row == rows * row) by (nonlinear_arith);
        assert((rows - 1) * padded >= 0) by (nonlinear_arith)
            requires
                rows >= 1,
                padded >= 0,
        ;
        lemma_strip_len(mapped, row, padded, rows - 1);
    } else {
        assert(rows * row == 0) by (nonlinear_arith)
            requires
                rows == 0,
        ;
    }
}

/// The rows of what was read from a staging buffer, without their padding;
/// `None` where it does not hold as many bytes as the padded rows take.
pub fn strip_padding(mapped: &Vec<u8>, width: u32, height: u32) -> (out: Option<Vec<u8>>)
    requires
        Canvas::fits(width, height),
    ensures
        out is Some <==> mapped@.len() == padded_row_bytes(width) * height,
        out matches Some(data) ==> data@ == strip_rows(
            mapped@,
            row_bytes(width),
            padded_row_bytes(width),
            height as int,
        ) && data@.len() == row_bytes(width) * height,
{
    let row: usize = 4 * (width as usize);
    let padded: usize = padded_row(width) as usize;
    proof {
        lemma_padded_row(width);
    }
    if mapped.len() as u128 != (padded as u128) * (height as u128) {
        return None;
    }
    let mut data: Vec<u8> = Vec::new();
    let mut r: usize = 0;
    while r < height as usize
        invariant
            r <= height,
            row == row_bytes(width),
            padded == padded_row_bytes(width),
            row <= padded,
            mapped@.len() == padded * height,
            mapped@.len() <= usize::MAX,
            data@ == strip_rows(mapped@, row as int, padded as int, r as int),
        decreases height - r,
    {
        assert(r * padded + padded <= padded * height) by (nonlinear_arith)
            requires
                r < height,
                padded >= 0,
        ;
        assert(r * padded >= 0) by (nonlinear_arith)
            requires
                r >= 0,
                padded >= 0,
        ;
        assert(r * padded + padded == (r + 1) * padded) by (nonlinear_arith);
        let from: usize = r * padded;
        let ghost before = data@;
        let mut c: usize = 0;
        while c < row
            invariant
                c <= row,
                row <= padded,
                from + padded <= mapped@.len(),
                mapped@.len() <= usize::MAX,
                data@ == before + mapped@.subrange(from as int, from + c),
            decreases row - c,
        {
            data.push(mapped[from + c]);
            assert(data@ =~= before + mapped@.subrange(from as int, from + c + 1));
            c += 1;
        }
        r += 1;
    }
    proof {
        assert(padded * height == height * padded) by (nonlinear_arith);
        lemma_strip_len(mapped@, row as int, padded as int, height as int);
        assert(height * row == row_bytes(width) * height) by (nonlinear_arith)
            requires
                row == row_bytes(width),
        ;
    }
    Some(data)
}

/// Whether `mapped` holds the rows of `data`, each at the start of
/// `padded` bytes, whatever stands in the padding.
pub open spec fn holds_rows(mapped: Seq<u8>, data: Seq<u8>, row: int, padded: int, rows: int) -> bool {
    &&& mapped.len() == rows * padded
    &&& data.len() == rows * row
    &&& forall|r: int, c: int|
        0 <= r < rows && 0 <= c < row ==> #[trigger] mapped[r * padded + c] == data[r * row + c]
}

proof fn lemma_strip_prefix(mapped: Seq<u8>, data: Seq<u8>, row: int, padded: int, rows: int, k: int)
    requires
        0 <= row <= padded,
        0 <= k <= rows,
        holds_rows(mapped, data, row, padded, rows),
    ensures
        k * row <= data.len(),
        strip_rows(mapped, row, padded, k) == data.subrange(0, k * row),
    decreases k,
{
    assert(k * row <= rows * row) by (nonlinear_arith)
        requires
            0 <= k <= rows,
            0 <= row,
    ;
    assert(k * row >= 0) by (nonlinear_arith)
        requires
            0 <= k,
            0 <= row,
    ;
    if k > 0 {
        lemma_strip_prefix(mapped, data, row, padded, rows, k - 1);
        let r = k - 1;
        assert(r * padded + padded <= rows * padded) by (nonlinear_arith)
            requires
                0 <= r < rows,
                0 <= padded,
        ;
        assert(r * padded >= 0) by (nonlinear_arith)
            requires
                0 <= r,
                0 <= padded,
        ;
        assert(r * row + row == k * row) by (nonlinear_arith)
            requires
                r == k - 1,
        ;
        assert(r * row >= 0) by (nonlinear_arith)
            requires
                0 <= r,
                0 <= row,
        ;
        let from_mapped = mapped.subrange(r * padded, r * padded + row);
        let from_data = data.subrange(r * row, k * row);
        assert forall|c: int| 0 <= c < row implies from_mapped[c] == from_data[c] by {
            assert(mapped[r * padded + c] == data[r * row + c]);
        }
        assert(from_mapped =~= from_data);
        assert(data.subrange(0, r * row) + from_data =~= data.subrange(0, k * row));
    } else {
        assert(k * row == 0) by (nonlinear_arith)
            requires
                k == 0,
        ;
        assert(data.subrange(0, k * row) =~= Seq::<u8>::empty());
    }
}

/// What is written to a texture comes back: where the staging buffer holds
/// the rows that were uploaded, each at the start of a padded row and with
/// anything in the padding, stripping the padding gives the uploaded bytes.
pub proof fn lemma_round_trip(mapped: Seq<u8>, data: Seq<u8>, width: u32, height: u32)
    requires
        holds_rows(mapped, data, row_bytes(width), padded_row_bytes(width), height as int),
    ensures
        strip_rows(mapped, row_bytes(width), padded_row_bytes(width), height as int) == data,
{
    lemma_padded_row(width);
    lemma_strip_prefix(
        mapped,
        data,
        row_bytes(width),
        padded_row_bytes(width),
        height as int,
        height as int,
    );
    assert(data.subrange(0, data.len() as int) =~= data);
}

} // verus!
