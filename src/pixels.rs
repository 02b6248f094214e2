use vstd::arithmetic::div_mod::lemma_fundamental_div_mod_converse;
use vstd::prelude::*;

use crate::geometry::CropRect;

verus! {

/// The pixel at index `p` of a row-major crop `c` of a frame `frame_width`
/// pixels wide.
pub open spec fn source_index(frame_width: int, c: CropRect, p: int) -> int {
    (c.y + p / c.width as int) * frame_width + c.x + p % c.width as int
}

/// The pixels of the crop `c`, row by row.
pub open spec fn cropped_pixels(frame: Seq<[u8; 4]>, frame_width: int, c: CropRect) -> Seq<[u8; 4]> {
    Seq::new((c.width * c.height) as nat, |p: int| frame[source_index(frame_width, c, p)])
}

/// The crop lies inside a row-major frame of the given size.
pub open spec fn crop_fits(frame: Seq<[u8; 4]>, frame_width: int, frame_height: int, c: CropRect) -> bool {
    &&& frame.len() == frame_width * frame_height
    &&& c.x + c.width <= frame_width
    &&& c.y + c.height <= frame_height
}

/// Copies the pixels of `c` out of a row-major frame, row by row.
pub fn crop_pixels(frame: &Vec<[u8; 4]>, frame_width: u32, frame_height: u32, c: &CropRect) -> (r: Vec<[u8; 4]>)
    requires
        crop_fits(frame@, frame_width as int, frame_height as int, *c),
    ensures
        r@ == cropped_pixels(frame@, frame_width as int, *c),
{
    let ghost fw = frame_width as int;
    let ghost fh = frame_height as int;
    let cw = c.width as usize;
    let ch = c.height as usize;
    proof {
        vstd::arithmetic::mul::lemma_mul_inequality(c.y + c.height, fh, fw);
        vstd::arithmetic::mul::lemma_mul_is_commutative(fh, fw);
    }
    let flen = frame.len();
    let mut out: Vec<[u8; 4]> = Vec::new();
    let mut row: usize = 0;
    while row < ch
        invariant
            crop_fits(frame@, fw, fh, *c),
            fw == frame_width,
            fh == frame_height,
            cw == c.width,
            ch == c.height,
            (c.y + c.height) * fw <= frame@.len(),
            c.y + c.height <= frame_height,
            flen == frame@.len(),
            row <= ch,
            out@.len() == row * cw,
            forall|p: int|
                0 <= p < out@.len() ==> out@[p] == frame@[#[trigger] source_index(fw, *c, p)],
        decreases ch - row,
    {
        proof {
            vstd::arithmetic::mul::lemma_mul_inequality(c.y + row + 1, c.y + c.height, fw);
            vstd::arithmetic::mul::lemma_mul_is_distributive_add_other_way(fw, c.y + row, 1);
        }
        assert((c.y + row) * fw + fw <= flen);
        let y = c.y as usize + row;
        let fwu = frame_width as usize;
        assert(y * fwu + fwu <= flen);
        let base = y * fwu + c.x as usize;
        let mut col: usize = 0;
        while col < cw
            invariant
                crop_fits(frame@, fw, fh, *c),
                fw == frame_width,
                cw == c.width,
                ch == c.height,
                row < ch,
                base == (c.y + row) * fw + c.x,
                (c.y + row + 1) * fw <= frame@.len(),
                flen == frame@.len(),
                (c.y + row + 1) * fw == (c.y + row) * fw + fw,
                col <= cw,
                out@.len() == row * cw + col,
                forall|p: int|
                    0 <= p < out@.len() ==> out@[p] == frame@[#[trigger] source_index(fw, *c, p)],
            decreases cw - col,
        {
            let ghost p = out@.len() as int;
            proof {
                lemma_fundamental_div_mod_converse(p, cw as int, row as int, col as int);
            }
            out.push(frame[base + col]);
            col = col + 1;
        }
        proof {
            vstd::arithmetic::mul::lemma_mul_is_distributive_add_other_way(cw as int, row as int, 1);
        }
        row = row + 1;
    }
    proof {
        vstd::arithmetic::mul::lemma_mul_is_commutative(ch as int, cw as int);
    }
    assert(out@ =~= cropped_pixels(frame@, fw, *c));
    out
}

/// Channel `k` of the RGBA form of a BGRA pixel.
pub open spec fn rgba_channel(p: [u8; 4], k: int) -> u8 {
    if k == 0 {
        p@[2]
    } else if k == 1 {
        p@[1]
    } else if k == 2 {
        p@[0]
    } else {
        p@[3]
    }
}

/// The BGRA pixels as a flat RGBA byte sequence, four bytes per pixel.
pub open spec fn rgba_bytes(pixels: Seq<[u8; 4]>) -> Seq<u8> {
    Seq::new(4 * pixels.len(), |b: int| rgba_channel(pixels[b / 4], b % 4))
}

/// Reorders each BGRA pixel to RGBA and lays the pixels out as bytes.
pub fn bgra_to_rgba(pixels: &Vec<[u8; 4]>) -> (r: Vec<u8>)
    requires
        4 * pixels@.len() <= usize::MAX,
    ensures
        r@ == rgba_bytes(pixels@),
{
    let mut out: Vec<u8> = Vec::new();
    let mut i: usize = 0;
    while i < pixels.len()
        invariant
            4 * pixels@.len() <= usize::MAX,
            i <= pixels@.len(),
            out@.len() == 4 * i,
            forall|b: int| 0 <= b < out@.len() ==> out@[b] == rgba_channel(pixels@[b / 4], b % 4),
        decreases pixels@.len() - i,
    {
        let p = pixels[i];
        out.push(p[2]);
        out.push(p[1]);
        out.push(p[0]);
        out.push(p[3]);
        i = i + 1;
    }
    assert(out@ =~= rgba_bytes(pixels@));
    out
}

/// The four little-endian bytes of `v`.
pub open spec fn le_bytes(v: u32) -> Seq<u8> {
    seq![
        (v % 256) as u8,
        (v / 256 % 256) as u8,
        (v / 65536 % 256) as u8,
        (v / 16777216) as u8,
    ]
}

/// The integer that four little-endian bytes stand for.
pub open spec fn le_value(b: Seq<u8>) -> int {
    b[0] + 256 * b[1] + 65536 * b[2] + 16777216 * b[3]
}

/// The raw response format: width and height as little-endian 32-bit
/// integers, then the pixel bytes.
pub open spec fn raw_frame(width: u32, height: u32, pixels: Seq<u8>) -> Seq<u8> {
    le_bytes(width) + le_bytes(height) + pixels
}

fn push_le_u32(out: &mut Vec<u8>, v: u32)
    ensures
        final(out)@ == old(out)@ + le_bytes(v),
{
    out.push((v % 256) as u8);
    out.push((v / 256 % 256) as u8);
    out.push((v / 65536 % 256) as u8);
    out.push((v / 16777216) as u8);
    assert(final(out)@ =~= old(out)@ + le_bytes(v));
}

/// Packs pixel bytes behind a header of their width and height.
pub fn pack_raw_frame(width: u32, height: u32, pixels: &Vec<u8>) -> (r: Vec<u8>)
    ensures
        r@ == raw_frame(width, height, pixels@),
{
    let mut out: Vec<u8> = Vec::new();
    push_le_u32(&mut out, width);
    push_le_u32(&mut out, height);
    let ghost header = out@;
    let mut i: usize = 0;
    while i < pixels.len()
        invariant
            header == le_bytes(width) + le_bytes(height),
            i <= pixels@.len(),
            out@ == header + pixels@.subrange(0, i as int),
        decreases pixels@.len() - i,
    {
        out.push(pixels[i]);
        i = i + 1;
        assert(out@ =~= header + pixels@.subrange(0, i as int));
    }
    assert(pixels@.subrange(0, pixels@.len() as int) =~= pixels@);
    out
}

/// Reading a raw buffer back gives the width and height it was packed with,
/// followed by exactly the pixel bytes.
pub proof fn lemma_raw_frame_round_trip(width: u32, height: u32, pixels: Seq<u8>)
    ensures
        raw_frame(width, height, pixels).len() == 8 + pixels.len(),
        le_value(raw_frame(width, height, pixels).subrange(0, 4)) == width,
        le_value(raw_frame(width, height, pixels).subrange(4, 8)) == height,
        raw_frame(width, height, pixels).subrange(8, 8 + pixels.len() as int) == pixels,
{
    let raw = raw_frame(width, height, pixels);
    assert(raw.subrange(0, 4) =~= le_bytes(width));
    assert(raw.subrange(4, 8) =~= le_bytes(height));
    assert(raw.subrange(8, 8 + pixels.len() as int) =~= pixels);
    lemma_le_bytes_value(width);
    lemma_le_bytes_value(height);
}

proof fn lemma_le_bytes_value(v: u32)
    ensures
        le_value(le_bytes(v)) == v,
{
    let b = le_bytes(v);
    assert(b[0] == v % 256);
    assert(b[1] == v / 256 % 256);
    assert(b[2] == v / 65536 % 256);
    assert(b[3] == v / 16777216);
    assert((v % 256) + 256 * (v / 256 % 256) + 65536 * (v / 65536 % 256) + 16777216 * (v / 16777216) == v) by (nonlinear_arith);
}

} // verus!
