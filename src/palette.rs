use vstd::prelude::*;

use crate::frame::{rgba_len, Frame, FrameView};

verus! {

/// An RGB color for each of the 256 palette indices of the game's pictures.
pub type ColorMap = [(u8, u8, u8); 256];

/// The game's VGA palette, with 6-bit channels (0 to 63).
pub open spec fn vga_palette() -> Seq<(u8, u8, u8)> {
    seq![
        (0u8, 0u8, 0u8), (0u8, 0u8, 42u8), (0u8, 42u8, 0u8), (0u8, 42u8, 42u8),
        (42u8, 0u8, 0u8), (42u8, 0u8, 42u8), (42u8, 21u8, 0u8), (42u8, 42u8, 42u8),
        (21u8, 21u8, 21u8), (21u8, 21u8, 63u8), (21u8, 63u8, 21u8), (21u8, 63u8, 63u8),
        (63u8, 21u8, 21u8), (63u8, 21u8, 63u8), (63u8, 63u8, 21u8), (63u8, 63u8, 63u8),
        (59u8, 59u8, 59u8), (55u8, 55u8, 55u8), (52u8, 52u8, 52u8), (48u8, 48u8, 48u8),
        (45u8, 45u8, 45u8), (42u8, 42u8, 42u8), (38u8, 38u8, 38u8), (35u8, 35u8, 35u8),
        (31u8, 31u8, 31u8), (28u8, 28u8, 28u8), (25u8, 25u8, 25u8), (21u8, 21u8, 21u8),
        (18u8, 18u8, 18u8), (14u8, 14u8, 14u8), (11u8, 11u8, 11u8), (8u8, 8u8, 8u8),
        (63u8, 0u8, 0u8), (59u8, 0u8, 0u8), (56u8, 0u8, 0u8), (53u8, 0u8, 0u8),
        (50u8, 0u8, 0u8), (47u8, 0u8, 0u8), (44u8, 0u8, 0u8), (41u8, 0u8, 0u8),
        (38u8, 0u8, 0u8), (34u8, 0u8, 0u8), (31u8, 0u8, 0u8), (28u8, 0u8, 0u8),
        (25u8, 0u8, 0u8), (22u8, 0u8, 0u8), (19u8, 0u8, 0u8), (16u8, 0u8, 0u8),
        (63u8, 54u8, 54u8), (63u8, 46u8, 46u8), (63u8, 39u8, 39u8), (63u8, 31u8, 31u8),
        (63u8, 23u8, 23u8), (63u8, 16u8, 16u8), (63u8, 8u8, 8u8), (63u8, 0u8, 0u8),
        (63u8, 42u8, 23u8), (63u8, 38u8, 16u8), (63u8, 34u8, 8u8), (63u8, 30u8, 0u8),
        (57u8, 27u8, 0u8), (51u8, 24u8, 0u8), (45u8, 21u8, 0u8), (39u8, 19u8, 0u8),
        (63u8, 63u8, 54u8), (63u8, 63u8, 46u8), (63u8, 63u8, 39u8), (63u8, 63u8, 31u8),
        (63u8, 62u8, 23u8), (63u8, 61u8, 16u8), (63u8, 61u8, 8u8), (63u8, 61u8, 0u8),
        (57u8, 54u8, 0u8), (51u8, 49u8, 0u8), (45u8, 43u8, 0u8), (39u8, 39u8, 0u8),
        (33u8, 33u8, 0u8), (28u8, 27u8, 0u8), (22u8, 21u8, 0u8), (16u8, 16u8, 0u8),
        (52u8, 63u8, 23u8), (49u8, 63u8, 16u8), (45u8, 63u8, 8u8), (40u8, 63u8, 0u8),
        (36u8, 57u8, 0u8), (32u8, 51u8, 0u8), (29u8, 45u8, 0u8), (24u8, 39u8, 0u8),
        (54u8, 63u8, 54u8), (47u8, 63u8, 46u8), (39u8, 63u8, 39u8), (32u8, 63u8, 31u8),
        (24u8, 63u8, 23u8), (16u8, 63u8, 16u8), (8u8, 63u8, 8u8), (0u8, 63u8, 0u8),
        (0u8, 63u8, 0u8), (0u8, 59u8, 0u8), (0u8, 56u8, 0u8), (0u8, 53u8, 0u8),
        (1u8, 50u8, 0u8), (1u8, 47u8, 0u8), (1u8, 44u8, 0u8), (1u8, 41u8, 0u8),
        (1u8, 38u8, 0u8), (1u8, 34u8, 0u8), (1u8, 31u8, 0u8), (1u8, 28u8, 0u8),
        (1u8, 25u8, 0u8), (1u8, 22u8, 0u8), (1u8, 19u8, 0u8), (1u8, 16u8, 0u8),
        (54u8, 63u8, 63u8), (46u8, 63u8, 63u8), (39u8, 63u8, 63u8), (31u8, 63u8, 62u8),
        (23u8, 63u8, 63u8), (16u8, 63u8, 63u8), (8u8, 63u8, 63u8), (0u8, 63u8, 63u8),
        (0u8, 57u8, 57u8), (0u8, 51u8, 51u8), (0u8, 45u8, 45u8), (0u8, 39u8, 39u8),
        (0u8, 33u8, 33u8), (0u8, 28u8, 28u8), (0u8, 22u8, 22u8), (0u8, 16u8, 16u8),
        (23u8, 47u8, 63u8), (16u8, 44u8, 63u8), (8u8, 42u8, 63u8), (0u8, 39u8, 63u8),
        (0u8, 35u8, 57u8), (0u8, 31u8, 51u8), (0u8, 27u8, 45u8), (0u8, 23u8, 39u8),
        (54u8, 54u8, 63u8), (46u8, 47u8, 63u8), (39u8, 39u8, 63u8), (31u8, 32u8, 63u8),
        (23u8, 24u8, 63u8), (16u8, 16u8, 63u8), (8u8, 9u8, 63u8), (0u8, 1u8, 63u8),
        (0u8, 0u8, 63u8), (0u8, 0u8, 59u8), (0u8, 0u8, 56u8), (0u8, 0u8, 53u8),
        (0u8, 0u8, 50u8), (0u8, 0u8, 47u8), (0u8, 0u8, 44u8), (0u8, 0u8, 41u8),
        (0u8, 0u8, 38u8), (0u8, 0u8, 34u8), (0u8, 0u8, 31u8), (0u8, 0u8, 28u8),
        (0u8, 0u8, 25u8), (0u8, 0u8, 22u8), (0u8, 0u8, 19u8), (0u8, 0u8, 16u8),
        (10u8, 10u8, 10u8), (63u8, 56u8, 13u8), (63u8, 53u8, 9u8), (63u8, 51u8, 6u8),
        (63u8, 48u8, 2u8), (63u8, 45u8, 0u8), (45u8, 8u8, 63u8), (42u8, 0u8, 63u8),
        (38u8, 0u8, 57u8), (32u8, 0u8, 51u8), (29u8, 0u8, 45u8), (24u8, 0u8, 39u8),
        (20u8, 0u8, 33u8), (17u8, 0u8, 28u8), (13u8, 0u8, 22u8), (10u8, 0u8, 16u8),
        (63u8, 54u8, 63u8), (63u8, 46u8, 63u8), (63u8, 39u8, 63u8), (63u8, 31u8, 63u8),
        (63u8, 23u8, 63u8), (63u8, 16u8, 63u8), (63u8, 8u8, 63u8), (63u8, 0u8, 63u8),
        (56u8, 0u8, 57u8), (50u8, 0u8, 51u8), (45u8, 0u8, 45u8), (39u8, 0u8, 39u8),
        (33u8, 0u8, 33u8), (27u8, 0u8, 28u8), (22u8, 0u8, 22u8), (16u8, 0u8, 16u8),
        (63u8, 58u8, 55u8), (63u8, 56u8, 52u8), (63u8, 54u8, 49u8), (63u8, 53u8, 47u8),
        (63u8, 51u8, 44u8), (63u8, 49u8, 41u8), (63u8, 47u8, 39u8), (63u8, 46u8, 36u8),
        (63u8, 44u8, 32u8), (63u8, 41u8, 28u8), (63u8, 39u8, 24u8), (60u8, 37u8, 23u8),
        (58u8, 35u8, 22u8), (55u8, 34u8, 21u8), (52u8, 32u8, 20u8), (50u8, 31u8, 19u8),
        (47u8, 30u8, 18u8), (45u8, 28u8, 17u8), (42u8, 26u8, 16u8), (40u8, 25u8, 15u8),
        (39u8, 24u8, 14u8), (36u8, 23u8, 13u8), (34u8, 22u8, 12u8), (32u8, 20u8, 11u8),
        (29u8, 19u8, 10u8), (27u8, 18u8, 9u8), (23u8, 16u8, 8u8), (21u8, 15u8, 7u8),
        (18u8, 14u8, 6u8), (16u8, 12u8, 6u8), (14u8, 11u8, 5u8), (10u8, 8u8, 3u8),
        (24u8, 0u8, 25u8), (0u8, 25u8, 25u8), (0u8, 24u8, 24u8), (0u8, 0u8, 7u8),
        (0u8, 0u8, 11u8), (12u8, 9u8, 4u8), (18u8, 0u8, 18u8), (20u8, 0u8, 20u8),
        (0u8, 0u8, 13u8), (7u8, 7u8, 7u8), (19u8, 19u8, 19u8), (23u8, 23u8, 23u8),
        (16u8, 16u8, 16u8), (12u8, 12u8, 12u8), (13u8, 13u8, 13u8), (54u8, 61u8, 61u8),
        (46u8, 58u8, 58u8), (39u8, 55u8, 55u8), (29u8, 50u8, 50u8), (18u8, 48u8, 48u8),
        (8u8, 45u8, 45u8), (8u8, 44u8, 44u8), (0u8, 41u8, 41u8), (0u8, 38u8, 38u8),
        (0u8, 35u8, 35u8), (0u8, 33u8, 33u8), (0u8, 31u8, 31u8), (0u8, 30u8, 30u8),
        (0u8, 29u8, 29u8), (0u8, 28u8, 28u8), (0u8, 27u8, 27u8), (38u8, 0u8, 34u8),
    ]
}

/// A 6-bit channel stretched to 8 bits.
pub open spec fn to_8bit(c: u8) -> u8 {
    (c as int * 255 / 63) as u8
}

pub open spec fn to_rgb8(c: (u8, u8, u8)) -> (u8, u8, u8) {
    (to_8bit(c.0), to_8bit(c.1), to_8bit(c.2))
}

fn vga_palette_table() -> (r: [(u8, u8, u8); 256])
    ensures
        r@ == vga_palette(),
{
    let r: [(u8, u8, u8); 256] = [
        (0, 0, 0), (0, 0, 42), (0, 42, 0), (0, 42, 42), (42, 0, 0), (42, 0, 42), (42, 21, 0),
        (42, 42, 42), (21, 21, 21), (21, 21, 63), (21, 63, 21), (21, 63, 63), (63, 21, 21),
        (63, 21, 63), (63, 63, 21), (63, 63, 63), (59, 59, 59), (55, 55, 55), (52, 52, 52),
        (48, 48, 48), (45, 45, 45), (42, 42, 42), (38, 38, 38), (35, 35, 35), (31, 31, 31),
        (28, 28, 28), (25, 25, 25), (21, 21, 21), (18, 18, 18), (14, 14, 14), (11, 11, 11),
        (8, 8, 8), (63, 0, 0), (59, 0, 0), (56, 0, 0), (53, 0, 0), (50, 0, 0), (47, 0, 0),
        (44, 0, 0), (41, 0, 0), (38, 0, 0), (34, 0, 0), (31, 0, 0), (28, 0, 0), (25, 0, 0),
        (22, 0, 0), (19, 0, 0), (16, 0, 0), (63, 54, 54), (63, 46, 46), (63, 39, 39),
        (63, 31, 31), (63, 23, 23), (63, 16, 16), (63, 8, 8), (63, 0, 0), (63, 42, 23),
        (63, 38, 16), (63, 34, 8), (63, 30, 0), (57, 27, 0), (51, 24, 0), (45, 21, 0),
        (39, 19, 0), (63, 63, 54), (63, 63, 46), (63, 63, 39), (63, 63, 31), (63, 62, 23),
        (63, 61, 16), (63, 61, 8), (63, 61, 0), (57, 54, 0), (51, 49, 0), (45, 43, 0),
        (39, 39, 0), (33, 33, 0), (28, 27, 0), (22, 21, 0), (16, 16, 0), (52, 63, 23),
        (49, 63, 16), (45, 63, 8), (40, 63, 0), (36, 57, 0), (32, 51, 0), (29, 45, 0),
        (24, 39, 0), (54, 63, 54), (47, 63, 46), (39, 63, 39), (32, 63, 31), (24, 63, 23),
        (16, 63, 16), (8, 63, 8), (0, 63, 0), (0, 63, 0), (0, 59, 0), (0, 56, 0), (0, 53, 0),
        (1, 50, 0), (1, 47, 0), (1, 44, 0), (1, 41, 0), (1, 38, 0), (1, 34, 0), (1, 31, 0),
        (1, 28, 0), (1, 25, 0), (1, 22, 0), (1, 19, 0), (1, 16, 0), (54, 63, 63), (46, 63, 63),
        (39, 63, 63), (31, 63, 62), (23, 63, 63), (16, 63, 63), (8, 63, 63), (0, 63, 63),
        (0, 57, 57), (0, 51, 51), (0, 45, 45), (0, 39, 39), (0, 33, 33), (0, 28, 28),
        (0, 22, 22), (0, 16, 16), (23, 47, 63), (16, 44, 63), (8, 42, 63), (0, 39, 63),
        (0, 35, 57), (0, 31, 51), (0, 27, 45), (0, 23, 39), (54, 54, 63), (46, 47, 63),
        (39, 39, 63), (31, 32, 63), (23, 24, 63), (16, 16, 63), (8, 9, 63), (0, 1, 63),
        (0, 0, 63), (0, 0, 59), (0, 0, 56), (0, 0, 53), (0, 0, 50), (0, 0, 47), (0, 0, 44),
        (0, 0, 41), (0, 0, 38), (0, 0, 34), (0, 0, 31), (0, 0, 28), (0, 0, 25), (0, 0, 22),
        (0, 0, 19), (0, 0, 16), (10, 10, 10), (63, 56, 13), (63, 53, 9), (63, 51, 6),
        (63, 48, 2), (63, 45, 0), (45, 8, 63), (42, 0, 63), (38, 0, 57), (32, 0, 51),
        (29, 0, 45), (24, 0, 39), (20, 0, 33), (17, 0, 28), (13, 0, 22), (10, 0, 16),
        (63, 54, 63), (63, 46, 63), (63, 39, 63), (63, 31, 63), (63, 23, 63), (63, 16, 63),
        (63, 8, 63), (63, 0, 63), (56, 0, 57), (50, 0, 51), (45, 0, 45), (39, 0, 39),
        (33, 0, 33), (27, 0, 28), (22, 0, 22), (16, 0, 16), (63, 58, 55), (63, 56, 52),
        (63, 54, 49), (63, 53, 47), (63, 51, 44), (63, 49, 41), (63, 47, 39), (63, 46, 36),
        (63, 44, 32), (63, 41, 28), (63, 39, 24), (60, 37, 23), (58, 35, 22), (55, 34, 21),
        (52, 32, 20), (50, 31, 19), (47, 30, 18), (45, 28, 17), (42, 26, 16), (40, 25, 15),
        (39, 24, 14), (36, 23, 13), (34, 22, 12), (32, 20, 11), (29, 19, 10), (27, 18, 9),
        (23, 16, 8), (21, 15, 7), (18, 14, 6), (16, 12, 6), (14, 11, 5), (10, 8, 3),
        (24, 0, 25), (0, 25, 25), (0, 24, 24), (0, 0, 7), (0, 0, 11), (12, 9, 4), (18, 0, 18),
        (20, 0, 20), (0, 0, 13), (7, 7, 7), (19, 19, 19), (23, 23, 23), (16, 16, 16),
        (12, 12, 12), (13, 13, 13), (54, 61, 61), (46, 58, 58), (39, 55, 55), (29, 50, 50),
        (18, 48, 48), (8, 45, 45), (8, 44, 44), (0, 41, 41), (0, 38, 38), (0, 35, 35),
        (0, 33, 33), (0, 31, 31), (0, 30, 30), (0, 29, 29), (0, 28, 28), (0, 27, 27),
        (38, 0, 34),
    ];
    assert(r@ =~= vga_palette());
    r
}

fn stretch(c: u8) -> (r: u8)
    requires
        c <= 63,
    ensures
        r == to_8bit(c),
{
    ((c as u32 * 255) / 63) as u8
}

/// The color map of the game's pictures: the VGA palette with each channel stretched
/// from 6 to 8 bits.
pub fn build_color_map() -> (r: ColorMap)
    ensures
        forall|k: int| 0 <= k < 256 ==> #[trigger] r@[k] == to_rgb8(vga_palette()[k]),
{
    let palette = vga_palette_table();
    assert(forall|k: int| 0 <= k < 256 ==> (#[trigger] palette@[k]).0 <= 63 && palette@[k].1 <= 63
        && palette@[k].2 <= 63);
    let mut out: ColorMap = [(0u8, 0u8, 0u8); 256];
    let mut k: usize = 0;
    while k < 256
        invariant
            k <= 256,
            palette@ == vga_palette(),
            forall|j: int| 0 <= j < 256 ==> (#[trigger] palette@[j]).0 <= 63 && palette@[j].1 <= 63
                && palette@[j].2 <= 63,
            forall|j: int| 0 <= j < k ==> #[trigger] out@[j] == to_rgb8(vga_palette()[j]),
        decreases 256 - k,
    {
        let (r, g, b) = palette[k];
        out[k] = (stretch(r), stretch(g), stretch(b));
        k = k + 1;
    }
    out
}

/// A picture of the game's graphics in planar VGA layout: the columns with the same
/// `x % 4` are stored together, one plane after another, each plane row by row.
pub struct Picture {
    pub width: u32,
    pub height: u32,
    pub data: Vec<u8>,
}

/// Where pixel `(x, y)` of a planar picture is stored.
pub open spec fn planar_index(w: int, h: int, x: int, y: int) -> int {
    y * (w / 4) + x / 4 + (x % 4) * (w / 4) * h
}

/// The color of pixel `p` (row by row) of a planar picture.
pub open spec fn picture_color(w: int, h: int, data: Seq<u8>, p: int) -> (u8, u8, u8) {
    to_rgb8(vga_palette()[data[planar_index(w, h, p % w, p / w)] as int])
}

/// The RGBA bytes of a planar picture, row by row, fully opaque.
pub open spec fn picture_rgba(w: int, h: int, data: Seq<u8>) -> Seq<u8> {
    Seq::new(
        (w * h * 4) as nat,
        |i: int|
            {
                let c = picture_color(w, h, data, i / 4);
                if i % 4 == 0 {
                    c.0
                } else if i % 4 == 1 {
                    c.1
                } else if i % 4 == 2 {
                    c.2
                } else {
                    255u8
                }
            },
    )
}

proof fn lemma_planar_in_bounds(w: int, h: int, p: int)
    requires
        w > 0,
        h > 0,
        w % 4 == 0,
        0 <= p < w * h,
    ensures
        0 <= p % w < w,
        0 <= p / w < h,
        0 <= planar_index(w, h, p % w, p / w) < w * h,
{
    let q = w / 4;
    let x = p % w;
    let y = p / w;
    assert(w == 4 * q);
    assert(p == y * w + x && 0 <= x < w) by (nonlinear_arith)
        requires
            w > 0,
            x == p % w,
            y == p / w,
    ;
    assert(0 <= y < h) by (nonlinear_arith)
        requires
            w > 0,
            0 <= p < w * h,
            p == y * w + x,
            0 <= x < w,
    ;
    assert(x / 4 < q && 0 <= x / 4) by (nonlinear_arith)
        requires
            0 <= x < w,
            w == 4 * q,
    ;
    assert(0 <= planar_index(w, h, x, y) < w * h) by (nonlinear_arith)
        requires
            0 <= y < h,
            0 <= x / 4 < q,
            0 <= x % 4 < 4,
            w == 4 * q,
            q > 0,
            planar_index(w, h, x, y) == y * q + x / 4 + (x % 4) * q * h,
    ;
}

/// Decodes a planar picture of the game's graphics into an RGBA frame, coloring each
/// pixel through the color map.
pub fn get_image(pic: &Picture) -> (r: Frame)
    requires
        pic.width % 4 == 0,
        pic.data@.len() >= pic.width * pic.height,
        rgba_len(pic.width, pic.height) <= usize::MAX,
    ensures
        r@ == (FrameView {
            width: pic.width,
            height: pic.height,
            pixels: picture_rgba(pic.width as int, pic.height as int, pic.data@),
        }),
{
    let color_map = build_color_map();
    let w: usize = pic.width as usize;
    let h: usize = pic.height as usize;
    let ghost spec_pixels = picture_rgba(w as int, h as int, pic.data@);
    assert(w * h * 4 <= usize::MAX) by (nonlinear_arith)
        requires
            rgba_len(pic.width, pic.height) <= usize::MAX,
            w == pic.width,
            h == pic.height,
    ;
    let n: usize = w * h;
    let mut out: Vec<u8> = Vec::new();
    let mut p: usize = 0;
    while p < n
        invariant
            n == w * h,
            w * h * 4 <= usize::MAX,
            w == pic.width,
            h == pic.height,
            w % 4 == 0,
            pic.data@.len() >= w * h,
            p <= n,
            out@.len() == p * 4,
            spec_pixels == picture_rgba(w as int, h as int, pic.data@),
            spec_pixels.len() == n * 4,
            forall|k: int| 0 <= k < 256 ==> #[trigger] color_map@[k] == to_rgb8(vga_palette()[k]),
            out@ == spec_pixels.subrange(0, p * 4),
        decreases n - p,
    {
        proof {
            lemma_planar_in_bounds(w as int, h as int, p as int);
        }
        let x = p % w;
        let y = p / w;
        let q = w / 4;
        assert((x % 4) * q <= w && (x % 4) * q * h <= w * h) by (nonlinear_arith)
            requires
                0 <= x % 4 < 4,
                w == 4 * q,
        ;
        assert(y * q <= w * h) by (nonlinear_arith)
            requires
                y < h,
                q <= w,
        ;
        let idx = y * q + x / 4 + (x % 4) * q * h;
        assert(idx == planar_index(w as int, h as int, p as int % w as int, p as int / w as int));
        let c = color_map[pic.data[idx] as usize];
        out.push(c.0);
        out.push(c.1);
        out.push(c.2);
        out.push(255u8);
        assert(out@ =~= spec_pixels.subrange(0, p * 4 + 4));
        p = p + 1;
    }
    assert(out@ =~= spec_pixels);
    Frame::from_pixels(pic.width, pic.height, out)
}

} // verus!
