use vstd::prelude::*;

use image::ImageEncoder;

verus! {

/// What a frame holds: its size in pixels and its RGBA bytes, row by row.
pub ghost struct FrameView {
    pub width: u32,
    pub height: u32,
    pub pixels: Seq<u8>,
}

/// Number of bytes of an RGBA image of the given size.
pub open spec fn rgba_len(width: u32, height: u32) -> int {
    width as int * height as int * 4
}

/// A captured frame: a 2D RGBA pixel buffer, four bytes per pixel.
pub struct Frame {
    width: u32,
    height: u32,
    pixels: Vec<u8>,
}

impl View for Frame {
    type V = FrameView;

    closed spec fn view(&self) -> FrameView {
        FrameView { width: self.width, height: self.height, pixels: self.pixels@ }
    }
}

impl Frame {
    #[verifier::type_invariant]
    spec fn inv(self) -> bool {
        self.pixels@.len() == rgba_len(self.width, self.height)
    }

    /// Builds a frame from raw bytes read back from the render target. The bytes past
    /// the image are dropped; `None` when there are fewer bytes than the image needs.
    pub fn from_raw(width: u32, height: u32, raw: Vec<u8>) -> (r: Option<Frame>)
        ensures
            r is Some <==> raw@.len() >= rgba_len(width, height),
            r matches Some(f) ==> f@ == (FrameView {
                width,
                height,
                pixels: raw@.subrange(0, rgba_len(width, height)),
            }),
    {
        let w: u64 = width as u64;
        let h: u64 = height as u64;
        assert(w * h <= 0xffff_ffff_ffff_ffffu64) by (nonlinear_arith)
            requires
                w <= 0xffff_ffffu64,
                h <= 0xffff_ffffu64,
        ;
        let n: u64 = w * h;
        if n > (raw.len() / 4) as u64 {
            return None;
        }
        let len: usize = (n * 4) as usize;
        let mut pixels = raw;
        pixels.truncate(len);
        assert(pixels@ =~= raw@.subrange(0, rgba_len(width, height)));
        Some(Frame { width, height, pixels })
    }

    /// Builds a frame from exactly the bytes of an RGBA image of the given size.
    pub fn from_pixels(width: u32, height: u32, pixels: Vec<u8>) -> (r: Frame)
        requires
            pixels@.len() == rgba_len(width, height),
        ensures
            r@ == (FrameView { width, height, pixels: pixels@ }),
    {
        Frame { width, height, pixels }
    }

    pub fn width(&self) -> (r: u32)
        ensures
            r == self@.width,
    {
        self.width
    }

    pub fn height(&self) -> (r: u32)
        ensures
            r == self@.height,
    {
        self.height
    }

    pub fn pixels(&self) -> (r: &Vec<u8>)
        ensures
            r@ == self@.pixels,
            r@.len() == rgba_len(self@.width, self@.height),
    {
        proof {
            use_type_invariant(self);
        }
        &self.pixels
    }

    /// An independent copy of the frame.
    pub fn duplicate(&self) -> (r: Frame)
        ensures
            r@ == self@,
    {
        proof {
            use_type_invariant(self);
        }
        let pixels = self.pixels.clone();
        assert(pixels@ =~= self.pixels@);
        Frame { width: self.width, height: self.height, pixels }
    }

    /// The frame encoded as PNG; `None` where the encoder refuses it.
    pub fn to_png(&self) -> (r: Option<Vec<u8>>)
        ensures
            r matches Some(b) ==> b@ == png_of(self@.width, self@.height, self@.pixels),
            self@.width > 0 && self@.height > 0 ==> r is Some,
    {
        proof {
            use_type_invariant(self);
        }
        encode_png(&self.pixels, self.width, self.height)
    }
}

/// Size and texel format of a texture, as far as the layout of a copy depends on them.
#[derive(Clone, Copy, Debug, PartialEq, Eq, Structural)]
pub struct TextureDescriptor {
    pub width: u32,
    pub height: u32,
    pub depth_or_array_layers: u32,
    /// Bytes per texel block of the texture's format.
    pub block_size: u32,
}

/// How the bytes of a texture copy are laid out in a buffer; `None` where a stride is
/// not needed (a single row, a single image) or would be zero.
#[derive(Clone, Copy, Debug, PartialEq, Eq, Structural)]
pub struct ImageDataLayout {
    pub offset: u64,
    pub bytes_per_row: Option<u32>,
    pub rows_per_image: Option<u32>,
}

/// A stride, where it is not zero.
pub open spec fn nonzero(v: int) -> Option<u32> {
    if v == 0 {
        None
    } else {
        Some(v as u32)
    }
}

/// The buffer layout for reading a whole texture back: rows of `width` blocks when
/// there is more than one row, images of `height` rows when there is more than one.
pub fn texture_image_layout(desc: &TextureDescriptor) -> (r: ImageDataLayout)
    requires
        desc.height > 1 ==> desc.width * desc.block_size <= u32::MAX,
    ensures
        r.offset == 0,
        r.bytes_per_row == if desc.height > 1 {
            nonzero(desc.width * desc.block_size)
        } else {
            None
        },
        r.rows_per_image == if desc.depth_or_array_layers > 1 {
            nonzero(desc.height as int)
        } else {
            None
        },
{
    let bytes_per_row = if desc.height > 1 {
        let row = desc.width * desc.block_size;
        if row == 0 {
            None
        } else {
            Some(row)
        }
    } else {
        None
    };
    let rows_per_image = if desc.depth_or_array_layers > 1 && desc.height != 0 {
        Some(desc.height)
    } else {
        None
    };
    ImageDataLayout { offset: 0, bytes_per_row, rows_per_image }
}

/// The PNG file that encodes an RGBA image of the given size.
pub uninterp spec fn png_of(width: u32, height: u32, pixels: Seq<u8>) -> Seq<u8>;

/// Relies on image's `PngEncoder::write_image` with 8-bit RGBA: on success the bytes
/// written are the PNG encoding of the image, which depends on its size and pixels alone.
/// It asserts that the buffer holds exactly width * height * 4 bytes.
#[verifier::external_body]
fn encode_png(pixels: &Vec<u8>, width: u32, height: u32) -> (r: Option<Vec<u8>>)
    requires
        pixels@.len() == rgba_len(width, height),
    ensures
        r matches Some(b) ==> b@ == png_of(width, height, pixels@),
        width > 0 && height > 0 ==> r is Some,
{
    let mut out: Vec<u8> = Vec::new();
    let encoder = image::codecs::png::PngEncoder::new(&mut out);
    match encoder.write_image(pixels, width, height, image::ColorType::Rgba8) {
        Ok(()) => Some(out),
        Err(_) => None,
    }
}

} // verus!
