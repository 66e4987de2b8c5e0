//! The pixels of a preview: the canvas that a drawing is painted on, and the
//! PNG file that the painted canvas is encoded as.
//!
//! The canvas is a pixmap of `tiny_skia`, made here at the size of the
//! display and encoded here. Between the two the caller has the document
//! parsed and painted on the canvas, and reports what came of it: the parser
//! and the painter can give up on a drawing in a way that only the caller
//! can contain. What `tiny_skia` does is not verified. The two functions
//! that call it say what is taken from its source; the bytes of the encoded
//! file are named, and the size that the file declares is checked once more
//! on the bytes that came back.

use crate::error::AppError;
use crate::png_header::{png_dimensions, png_size};
use vstd::prelude::*;

verus! {

/// Pixels in memory, four bytes each.
#[verifier::external_type_specification]
#[verifier::external_body]
pub struct ExPixmap(tiny_skia::Pixmap);

/// The width, in pixels, that a pixmap was made with.
pub uninterp spec fn pixmap_width(pixmap: tiny_skia::Pixmap) -> u32;

/// The height, in pixels, that a pixmap was made with.
pub uninterp spec fn pixmap_height(pixmap: tiny_skia::Pixmap) -> u32;

/// The bytes that a pixmap holds: four for each pixel, row after row.
pub uninterp spec fn pixmap_data(pixmap: tiny_skia::Pixmap) -> Seq<u8>;

/// The bytes of the PNG file that `tiny_skia` encodes a pixmap of `width` by
/// `height` pixels with the bytes `data` as.
pub uninterp spec fn png_encoding(width: u32, height: u32, data: Seq<u8>) -> Seq<u8>;

/// The bytes of a pixmap of `width` by `height` pixels that nothing was
/// painted on: every pixel transparent black.
pub open spec fn blank_data(width: u32, height: u32) -> Seq<u8> {
    Seq::new((4 * width * height) as nat, |i: int| 0u8)
}

/// `tiny_skia::Pixmap::new`. The crate gives no pixmap where a side is zero
/// or a row of four bytes a pixel would take more than `i32::MAX` bytes, and
/// in every other case a pixmap of the size asked for, over a vector of four
/// zero bytes for each pixel. What is asked of the caller keeps that vector
/// within the length that a vector can have, beyond which the allocation
/// panics.
#[verifier::external_body]
fn new_pixmap(width: u32, height: u32) -> (pixmap: Option<tiny_skia::Pixmap>)
    requires
        raster_fits(width, height),
    ensures
        pixmap is None <==> (width == 0 || height == 0 || 4 * width > i32::MAX),
        pixmap matches Some(p) ==> pixmap_width(p) == width && pixmap_height(p) == height
            && pixmap_data(p) == blank_data(width, height),
{
    tiny_skia::Pixmap::new(width, height)
}

/// `tiny_skia::Pixmap::encode_png`: the bytes of a PNG file, or the words of
/// the encoder's failure. The bytes are named, not stated: they follow from
/// the size and the bytes of the pixmap alone. Of them it is claimed that
/// they start with the signature and the header chunk with the width and the
/// height of the pixmap. The encoder writes into memory, eight bits a
/// channel, and has no failure on that way.
#[verifier::external_body]
fn encode_png(pixmap: &tiny_skia::Pixmap) -> (encoded: Result<Vec<u8>, String>)
    ensures
        encoded is Ok,
        encoded matches Ok(png) ==> png@ == png_encoding(
            pixmap_width(*pixmap),
            pixmap_height(*pixmap),
            pixmap_data(*pixmap),
        ) && png_size(png@) == Some((pixmap_width(*pixmap), pixmap_height(*pixmap))),
{
    match pixmap.encode_png() {
        Ok(bytes) => Ok(bytes),
        Err(error) => Err(error.to_string()),
    }
}

/// What came of parsing a document and painting it on a canvas.
#[derive(Debug)]
pub enum Drawing {
    /// The parser does not accept the document; these are its words.
    Refused(String),
    /// The document was accepted and nothing was painted: there was no
    /// canvas, or the painter reports that it has not drawn, or the parser
    /// or the painter gave up.
    Failed,
    /// The document was accepted and painted on this pixmap.
    Drawn(tiny_skia::Pixmap),
}

/// A pixmap of `width` by `height` pixels, four bytes each, is no larger
/// than a vector can be.
pub open spec fn raster_fits(width: u32, height: u32) -> bool {
    4 * width * height <= isize::MAX
}

/// There is a pixmap for a display of `width` by `height` pixels: both sides
/// have pixels, a row of four bytes a pixel takes no more than `i32::MAX`
/// bytes, and the whole is no larger than a vector can be.
pub open spec fn can_rasterize(width: u32, height: u32) -> bool {
    width != 0 && height != 0 && 4 * width <= i32::MAX && raster_fits(width, height)
}

/// What is answered where no pixmap of the display's size can be had.
pub open spec fn no_pixmap_text() -> Seq<char> {
    "Could not create a pixmap of the display size!"@
}

/// What is answered where a document was accepted and not painted.
pub open spec fn not_rendered_text() -> Seq<char> {
    "Could not render svg!"@
}

/// What is answered where the encoded preview does not declare the size of
/// the display.
pub open spec fn wrong_size_text() -> Seq<char> {
    "Rendered image does not have the display size!"@
}

/// What is answered where a document was accepted and nothing was painted
/// for a display of `width` by `height` pixels: that there is no pixmap
/// where none can be had, and that the drawing was not rendered otherwise.
pub open spec fn not_drawn_text(width: u32, height: u32) -> Seq<char> {
    if can_rasterize(width, height) {
        not_rendered_text()
    } else {
        no_pixmap_text()
    }
}

/// Whether a pixmap of `width` by `height` pixels is no larger than a vector
/// can be.
pub fn check_raster_fits(width: u32, height: u32) -> (fits: bool)
    ensures
        fits == raster_fits(width, height),
{
    let w: u64 = width as u64;
    let h: u64 = height as u64;
    assert(w * h <= 0xFFFF_FFFF * 0xFFFF_FFFF) by (nonlinear_arith)
        requires
            w <= 0xFFFF_FFFF,
            h <= 0xFFFF_FFFF,
    ;
    assert(4 * width * height == 4 * (w * h)) by (nonlinear_arith)
        requires
            w == width,
            h == height,
    ;
    let pixels: u64 = w * h;
    let most: u64 = (isize::MAX as u64) / 4;
    pixels <= most
}

/// The canvas for a display of `width` by `height` pixels: a blank pixmap
/// of exactly that size, for every display that one can be had for, and
/// none for a display without pixels or one that is too large to hold in
/// memory.
pub fn new_canvas(width: u32, height: u32) -> (canvas: Option<tiny_skia::Pixmap>)
    ensures
        canvas is Some <==> can_rasterize(width, height),
        canvas matches Some(p) ==> pixmap_width(p) == width && pixmap_height(p) == height
            && pixmap_data(p) == blank_data(width, height),
{
    if check_raster_fits(width, height) {
        new_pixmap(width, height)
    } else {
        None
    }
}

/// The failure of the store where a document was accepted and nothing was
/// painted for a display of `width` by `height` pixels.
pub fn not_drawn(width: u32, height: u32) -> (e: AppError)
    ensures
        e is StoreUnavailable,
        e.text() == not_drawn_text(width, height),
{
    let has_pixels = width != 0 && height != 0 && width <= 0x1FFF_FFFF;
    if has_pixels && check_raster_fits(width, height) {
        AppError::StoreUnavailable("Could not render svg!".to_owned())
    } else {
        AppError::StoreUnavailable("Could not create a pixmap of the display size!".to_owned())
    }
}

/// The preview that the encoder gave, if it gave one and the bytes declare a
/// PNG file of `width` by `height` pixels; the failure of the store
/// otherwise.
pub fn checked_preview(encoded: Result<Vec<u8>, String>, width: u32, height: u32) -> (r: Result<
    Vec<u8>,
    AppError,
>)
    ensures
        r is Ok <==> (encoded matches Ok(png) && png_size(png@) == Some((width, height))),
        r matches Ok(png) ==> encoded == Ok::<Vec<u8>, String>(png),
        r matches Err(e) ==> e is StoreUnavailable,
        r matches Err(e) ==> (encoded matches Err(words) ==> e.text() == words@),
        r matches Err(e) ==> (encoded is Ok ==> e.text() == wrong_size_text()),
{
    match encoded {
        Ok(png) => {
            match png_dimensions(&png) {
                Some((w, h)) => {
                    if w == width && h == height {
                        Ok(png)
                    } else {
                        Err(
                            AppError::StoreUnavailable(
                                "Rendered image does not have the display size!".to_owned(),
                            ),
                        )
                    }
                },
                None => Err(
                    AppError::StoreUnavailable(
                        "Rendered image does not have the display size!".to_owned(),
                    ),
                ),
            }
        },
        Err(words) => Err(AppError::StoreUnavailable(words)),
    }
}

/// The preview of a painted canvas for a display of `width` by `height`
/// pixels: the canvas encoded as a PNG file, where the canvas has the size
/// of the display, and the failure of the store where it has another.
pub fn encode_canvas(canvas: &tiny_skia::Pixmap, width: u32, height: u32) -> (r: Result<
    Vec<u8>,
    AppError,
>)
    ensures
        r is Ok <==> (pixmap_width(*canvas) == width && pixmap_height(*canvas) == height),
        r matches Ok(png) ==> png@ == png_encoding(width, height, pixmap_data(*canvas))
            && png_size(png@) == Some((width, height)),
        r matches Err(e) ==> e is StoreUnavailable && e.text() == wrong_size_text(),
{
    checked_preview(encode_png(canvas), width, height)
}

/// What a drawing gives for a display of `width` by `height` pixels: the
/// bytes of the preview where the document was painted on a canvas of the
/// display's size. A document that the parser refused is the client's
/// error, with the parser's words; every other failure is the store's.
pub fn preview_of(drawing: Drawing, width: u32, height: u32) -> (r: Result<Vec<u8>, AppError>)
    ensures
        r is Ok <==> (drawing matches Drawing::Drawn(canvas) && pixmap_width(canvas) == width
            && pixmap_height(canvas) == height),
        r matches Ok(png) ==> png_size(png@) == Some((width, height)),
        r matches Ok(png) ==> (drawing matches Drawing::Drawn(canvas) ==> png@ == png_encoding(
            width,
            height,
            pixmap_data(canvas),
        )),
        drawing matches Drawing::Refused(words) ==> r == Err::<Vec<u8>, AppError>(
            AppError::InvalidVectorInput(words),
        ),
        drawing is Failed ==> (r matches Err(e) && e is StoreUnavailable && e.text()
            == not_drawn_text(width, height)),
        drawing is Drawn ==> (r matches Err(e) ==> e is StoreUnavailable && e.text()
            == wrong_size_text()),
{
    match drawing {
        Drawing::Refused(words) => Err(AppError::InvalidVectorInput(words)),
        Drawing::Failed => Err(not_drawn(width, height)),
        Drawing::Drawn(canvas) => encode_canvas(&canvas, width, height),
    }
}

} // verus!
