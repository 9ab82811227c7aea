//! Extracting an ordered sequence of placement intents from a template
//! image.
//!
//! The image is decoded into a packed row-major buffer of bytes; each group
//! of four bytes is read, little-endian, as one raw 32-bit pixel value. A
//! pixel whose raw value is in the fixed palette table becomes one intent
//! `(x, y, color)`, in encounter order; unmatched pixels are dropped. The
//! per-pixel x coordinate is the flat index modulo the image width; the y
//! coordinate divides the flat index by the image height, not the width, so
//! only a square template maps one image row to one canvas row.

use vstd::prelude::*;

use crate::errors::DecodeError;
use crate::palette::{hex_to_color, pixel_color, Color};

verus! {

/// The raw 32-bit pixel value at word index `i`: four consecutive bytes read
/// little-endian.
pub open spec fn word_at(data: Seq<u8>, i: int) -> u32 {
    (data[4 * i] + data[4 * i + 1] * 0x100 + data[4 * i + 2] * 0x1_0000 + data[4 * i + 3]
        * 0x100_0000) as u32
}

/// The whole byte buffer read as little-endian 32-bit words; a trailing
/// fragment shorter than four bytes is dropped.
pub open spec fn word_seq(data: Seq<u8>) -> Seq<u32> {
    Seq::new((data.len() / 4) as nat, |i: int| word_at(data, i))
}

/// The intents contributed by the pixel at flat index `i`: one intent if its
/// raw value has a palette color, none otherwise.
pub open spec fn intent_at(px: Seq<u32>, i: int, w: int, h: int) -> Seq<(i32, i32, Color)> {
    match pixel_color(px[i]) {
        Some(c) => seq![(((i % w) as i32, (i / h) as i32, c))],
        None => Seq::empty(),
    }
}

/// The intents extracted from the first `n` pixels, in raster (encounter)
/// order.
pub open spec fn template_prefix(px: Seq<u32>, n: int, w: int, h: int) -> Seq<(i32, i32, Color)>
    decreases n,
{
    if n <= 0 {
        Seq::empty()
    } else {
        template_prefix(px, n - 1, w, h) + intent_at(px, n - 1, w, h)
    }
}

/// The full template: the intents of every pixel with a palette color, in
/// raster order.
pub open spec fn template_spec(px: Seq<u32>, w: int, h: int) -> Seq<(i32, i32, Color)> {
    template_prefix(px, px.len() as int, w, h)
}

/// Reads a byte buffer as little-endian 32-bit words, four bytes per word; a
/// trailing fragment shorter than four bytes is dropped.
pub fn convert(data: &[u8]) -> (r: Vec<u32>)
    ensures
        r@ == word_seq(data@),
{
    let n: usize = data.len() / 4;
    let mut out: Vec<u32> = Vec::new();
    let mut i: usize = 0;
    while i < n
        invariant
            data@.len() <= usize::MAX,
            n == data@.len() / 4,
            i <= n,
            out@ == word_seq(data@).take(i as int),
        decreases n - i,
    {
        proof {
            assert(4 * (i as int) + 3 < data@.len());
        }
        let w: u32 = data[4 * i] as u32 + data[4 * i + 1] as u32 * 0x100 + data[4 * i + 2] as u32
            * 0x1_0000 + data[4 * i + 3] as u32 * 0x100_0000;
        out.push(w);
        proof {
            assert(out@ =~= word_seq(data@).take(i as int + 1));
        }
        i = i + 1;
    }
    proof {
        assert(word_seq(data@).take(n as int) =~= word_seq(data@));
    }
    out
}

/// Extracts the template from a decoded pixel buffer: scans the pixels in
/// raster order, keeps each pixel whose raw value has a palette color, and
/// drops the rest.
pub fn pixels_to_template(pixels: &Vec<u32>, width: u32, height: u32) -> (r: Vec<
    (i32, i32, Color),
>)
    requires
        1 <= width,
        1 <= height,
        pixels@.len() <= 0x7fff_ffff,
    ensures
        r@ == template_spec(pixels@, width as int, height as int),
{
    let mut out: Vec<(i32, i32, Color)> = Vec::new();
    let mut i: usize = 0;
    while i < pixels.len()
        invariant
            i <= pixels@.len() <= 0x7fff_ffff,
            1 <= width,
            1 <= height,
            out@ == template_prefix(pixels@, i as int, width as int, height as int),
        decreases pixels@.len() - i,
    {
        proof {
            vstd::arithmetic::div_mod::lemma_mod_decreases(i as nat, width as nat);
            vstd::arithmetic::div_mod::lemma_div_nonincreasing(i as int, height as int);
        }
        let color = hex_to_color(pixels[i]);
        let x: i32 = (i as u32 % width) as i32;
        let y: i32 = (i / height as usize) as i32;
        if let Some(c) = color {
            out.push((x, y, c));
        }
        proof {
            assert(out@ =~= template_prefix(
                pixels@,
                i as int + 1,
                width as int,
                height as int,
            ));
        }
        i = i + 1;
    }
    out
}

/// What decoding a PNG byte stream yields: the packed row-major frame
/// buffer and the frame's width and height. Decoding is a function of the
/// input bytes alone.
pub uninterp spec fn png_frame_of(data: Seq<u8>) -> (Seq<u8>, u32, u32);

/// Whether a byte stream decodes as a PNG image at all, a function of the
/// input bytes alone.
pub uninterp spec fn png_decodes(data: Seq<u8>) -> bool;

/// Relies on png's `Decoder::read_info` and `Reader::next_frame`: both
/// succeed or fail deterministically in the input bytes, and a successful
/// decode yields the frame's packed row-major sample buffer (truncated to
/// the frame's byte length) together with its width and height, all
/// determined by the input bytes alone.
#[verifier::external_body]
fn decode_png(data: &[u8]) -> (r: Result<(Vec<u8>, u32, u32), DecodeError>)
    ensures
        r is Ok <==> png_decodes(data@),
        r is Ok ==> (r->Ok_0.0@, r->Ok_0.1, r->Ok_0.2) == png_frame_of(data@),
{
    let decoder = png::Decoder::new(std::io::Cursor::new(data));
    let mut reader = decoder.read_info().map_err(|_| DecodeError)?;
    let mut buf = vec![0u8; reader.output_buffer_size().ok_or(DecodeError)?];
    let info = reader.next_frame(&mut buf).map_err(|_| DecodeError)?;
    buf.truncate(info.buffer_size());
    Ok((buf, info.width, info.height))
}

/// Decodes a template image and extracts its ordered placement intents.
/// Succeeds exactly when the bytes decode to a frame with positive
/// dimensions and an addressable pixel count; it then returns that frame's
/// extraction. It fails with [`DecodeError`], and only with it, on every
/// other input; an image with no matching pixels yields an empty template,
/// which is not an error.
pub fn image_to_template(data: &[u8]) -> (r: Result<Vec<(i32, i32, Color)>, DecodeError>)
    ensures
        ({
            let (frame, w, h) = png_frame_of(data@);
            &&& (r is Ok <==> png_decodes(data@) && 1 <= w && 1 <= h && word_seq(frame).len()
                <= 0x7fff_ffff)
            &&& (r is Ok ==> r->Ok_0@ == template_spec(word_seq(frame), w as int, h as int))
        }),
        r is Err ==> r->Err_0 == DecodeError,
{
    let (buf, w, h) = match decode_png(data) {
        Ok(frame) => frame,
        Err(e) => {
            return Err(e);
        },
    };
    if w == 0 || h == 0 {
        return Err(DecodeError);
    }
    let pixels = convert(buf.as_slice());
    if pixels.len() > 0x7fff_ffff {
        return Err(DecodeError);
    }
    Ok(pixels_to_template(&pixels, w, h))
}

/// If every pixel of the buffer has a palette color, extraction drops
/// nothing: the template has one intent per pixel, in raster order, each
/// carrying its pixel's coordinates and color.
pub proof fn lemma_full_template(px: Seq<u32>, w: int, h: int)
    requires
        1 <= w,
        1 <= h,
        forall|i: int| 0 <= i < px.len() ==> pixel_color(#[trigger] px[i]) is Some,
    ensures
        template_spec(px, w, h).len() == px.len(),
        forall|i: int|
            0 <= i < px.len() ==> #[trigger] template_spec(px, w, h)[i] == ((
                (i % w) as i32,
                (i / h) as i32,
                pixel_color(px[i])->Some_0,
            )),
{
    lemma_full_template_prefix(px, px.len() as int, w, h);
}

proof fn lemma_full_template_prefix(px: Seq<u32>, n: int, w: int, h: int)
    requires
        1 <= w,
        1 <= h,
        0 <= n <= px.len(),
        forall|i: int| 0 <= i < n ==> pixel_color(#[trigger] px[i]) is Some,
    ensures
        template_prefix(px, n, w, h).len() == n,
        forall|i: int|
            0 <= i < n ==> #[trigger] template_prefix(px, n, w, h)[i] == ((
                (i % w) as i32,
                (i / h) as i32,
                pixel_color(px[i])->Some_0,
            )),
    decreases n,
{
    if n > 0 {
        lemma_full_template_prefix(px, n - 1, w, h);
        assert forall|i: int| 0 <= i < n implies #[trigger] template_prefix(px, n, w, h)[i] == ((
            (i % w) as i32,
            (i / h) as i32,
            pixel_color(px[i])->Some_0,
        )) by {
            if i < n - 1 {
                assert(template_prefix(px, n, w, h)[i] == template_prefix(px, n - 1, w, h)[i]);
            }
        }
    }
}

} // verus!
