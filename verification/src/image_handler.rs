//! The image store: which displays are known, where the files of a display
//! are, when a removal has succeeded, and what is written for a drawing that
//! a client sent.
//!
//! The store does not touch the file system. Each operation says which files
//! to read, remove or write, by their names inside the image directory, and
//! decides from what the file system answered. Nor does it parse or paint a
//! drawing: it gives the document and the canvas, and decides from what the
//! caller reports of the drawing.

use crate::asset::{
    asset_file_name, file_name, list_macs, listed_macs, addresses, AssetKind, StoreEntry,
};
use crate::config::Config;
use crate::directory::removal_succeeded;
use crate::document::{svg_document, wrap_svg_body};
use crate::error::AppError;
use crate::mac::{upper_text, EpdMac};
use crate::png_header::png_size;
use crate::raster::{
    blank_data, can_rasterize, new_canvas, not_drawn_text, pixmap_data, pixmap_height,
    pixmap_width, png_encoding, preview_of, wrong_size_text, Drawing,
};
use vstd::prelude::*;
use vstd::string::*;
use vstd::utf8::encode_utf8;

verus! {

/// A file to write into the image directory: created where it is missing,
/// replaced as a whole where it is there.
#[derive(Debug)]
pub struct StoredFile {
    /// The name of the file inside the image directory.
    pub name: String,
    /// All the bytes of the file.
    pub contents: Vec<u8>,
}

/// What is to be drawn for a display: the caller has the document parsed
/// and painted on the canvas, at the document's own size and without a
/// transform, and reports the drawing.
#[derive(Debug)]
pub struct RenderJob {
    /// The display that the drawing is for.
    pub mac: EpdMac,
    /// The document: the drawing inside a root element of the display's size.
    pub document: String,
    /// The canvas, a pixmap of the display's size; `None` where no pixmap
    /// can be had for the display. The document is parsed all the same, so
    /// that a drawing that is not accepted is refused as such.
    pub canvas: Option<tiny_skia::Pixmap>,
}

/// What is stored for a drawing: the preview and the document that it was
/// rendered from.
#[derive(Debug)]
pub struct RenderedImage {
    /// The preview, a PNG file of the display's size.
    pub preview: StoredFile,
    /// The document, the drawing inside a root element of the display's size.
    pub source: StoredFile,
}

impl RenderedImage {
    /// The image is the one of the display `mac` of geometry `config` that
    /// was rendered from `document`: both files have the names of that
    /// display, the preview declares the display's size, and the source is
    /// the document, in UTF-8.
    pub open spec fn is_rendered_from(
        &self,
        config: Config,
        mac: Seq<u8>,
        document: Seq<char>,
    ) -> bool {
        &&& self.preview.name@ == file_name(mac, AssetKind::Png)
        &&& png_size(self.preview.contents@) == Some((config.epd_width, config.epd_height))
        &&& self.source.name@ == file_name(mac, AssetKind::Svg)
        &&& self.source.contents@ == encode_utf8(document)
    }

    /// The image is the one of the display `mac` of geometry `config` for the
    /// drawing `body`: it was rendered from the document for that drawing.
    pub open spec fn is_image_of(&self, config: Config, mac: Seq<u8>, body: Seq<char>) -> bool {
        self.is_rendered_from(
            config,
            mac,
            svg_document(config.epd_width, config.epd_height, body),
        )
    }

    /// The files to write, in the order in which to write them: the preview
    /// first, then the source.
    pub fn into_writes(self) -> (writes: PendingWrites)
        ensures
            writes@ == seq![self.preview, self.source],
    {
        let mut files: Vec<StoredFile> = Vec::new();
        files.push(self.preview);
        files.push(self.source);
        PendingWrites { files }
    }
}

/// The files of a rendered image that are still to be written, in the order
/// in which to write them. The caller takes the next file, writes it, and
/// reports what became of the write; after a write that failed nothing is
/// left to write. No write is undone.
#[derive(Debug)]
pub struct PendingWrites {
    files: Vec<StoredFile>,
}

impl View for PendingWrites {
    type V = Seq<StoredFile>;

    closed spec fn view(&self) -> Seq<StoredFile> {
        self.files@
    }
}

impl PendingWrites {
    /// The next file to write, taken from those that are left; `None` once
    /// all are written or a write has failed.
    pub fn next_write(&mut self) -> (file: Option<StoredFile>)
        ensures
            old(self)@.len() == 0 ==> file is None && final(self)@ == old(self)@,
            old(self)@.len() > 0 ==> file == Some(old(self)@[0]) && final(self)@ == old(
                self,
            )@.drop_first(),
    {
        if self.files.len() == 0 {
            None
        } else {
            let file = self.files.remove(0);
            assert(self.files@ =~= old(self)@.drop_first());
            Some(file)
        }
    }

    /// Takes note of what became of a write. Where the file was written, the
    /// rest is still to be written. Where it was not, `written` holds the
    /// words of the failure: the store fails with them, and nothing is left
    /// to write.
    pub fn written(&mut self, written: Result<(), String>) -> (r: Result<(), AppError>)
        ensures
            written is Ok ==> r is Ok && final(self)@ == old(self)@,
            written matches Err(words) ==> r == Err::<(), AppError>(
                AppError::StoreUnavailable(words),
            ) && final(self)@.len() == 0,
    {
        match written {
            Ok(()) => Ok(()),
            Err(words) => {
                self.files.clear();
                Err(AppError::StoreUnavailable(words))
            },
        }
    }
}

/// What is answered where no file of a display could be removed.
pub open spec fn no_images_text(mac: Seq<u8>) -> Seq<char> {
    "Could not find any images for MAC "@ + upper_text(mac) + "."@
}

/// The image store of a fleet of displays of one geometry.
pub struct ImageHandler {
    config: Config,
}

impl ImageHandler {
    /// The geometry that the store renders for.
    pub closed spec fn config(&self) -> Config {
        self.config
    }

    /// A store for displays of the geometry `config`.
    pub fn new(config: Config) -> (handler: ImageHandler)
        ensures
            handler.config() == config,
    {
        ImageHandler { config }
    }

    /// The displays that are known, from a listing of the image directory:
    /// those with a preview among the regular files, in the order of the
    /// listing. Entries that are no preview are passed over. Where the
    /// directory could not be listed, `listing` holds the words of the
    /// failure, and the store fails with them.
    pub fn get_macs(&self, listing: Result<Vec<StoreEntry>, String>) -> (r: Result<
        Vec<EpdMac>,
        AppError,
    >)
        ensures
            listing matches Ok(entries) ==> (r matches Ok(macs) && addresses(macs@) == listed_macs(
                entries@,
            )),
            listing matches Err(words) ==> r == Err::<Vec<EpdMac>, AppError>(
                AppError::StoreUnavailable(words),
            ),
    {
        match listing {
            Ok(entries) => Ok(list_macs(&entries)),
            Err(words) => Err(AppError::StoreUnavailable(words)),
        }
    }

    /// The name, inside the image directory, of the document of `mac`.
    pub fn get_svg(&self, mac: EpdMac) -> (name: String)
        ensures
            name@ == file_name(mac@, AssetKind::Svg),
    {
        asset_file_name(&mac, AssetKind::Svg)
    }

    /// The name, inside the image directory, of the preview of `mac`.
    pub fn get_png(&self, mac: EpdMac) -> (name: String)
        ensures
            name@ == file_name(mac@, AssetKind::Png),
    {
        asset_file_name(&mac, AssetKind::Png)
    }

    /// The file that was opened for reading, or, where it could not be
    /// opened, the answer that there is no such image, with the words of the
    /// failure.
    pub fn get_file<T>(&self, opened: Result<T, String>) -> (r: Result<T, AppError>)
        ensures
            opened matches Ok(file) ==> r == Ok::<T, AppError>(file),
            opened matches Err(words) ==> r == Err::<T, AppError>(AppError::AssetNotFound(words)),
    {
        match opened {
            Ok(file) => Ok(file),
            Err(words) => Err(AppError::AssetNotFound(words)),
        }
    }

    /// The names, inside the image directory, of the files to remove for
    /// `mac`, in the order in which to remove them: the document, the bitmap,
    /// the preview. All three are tried, whatever becomes of the others.
    pub fn delete_targets(&self, mac: EpdMac) -> (names: Vec<String>)
        ensures
            names@.len() == 3,
            names@[0]@ == file_name(mac@, AssetKind::Svg),
            names@[1]@ == file_name(mac@, AssetKind::Bmp),
            names@[2]@ == file_name(mac@, AssetKind::Png),
    {
        let mut names: Vec<String> = Vec::new();
        names.push(asset_file_name(&mac, AssetKind::Svg));
        names.push(asset_file_name(&mac, AssetKind::Bmp));
        names.push(asset_file_name(&mac, AssetKind::Png));
        names
    }

    /// Whether the images of `mac` have been removed, from what became of
    /// the three removals. A file that was not there is no failure: the
    /// removal has succeeded where at least one file was removed, and only
    /// where none was is the answer that the display has no images.
    pub fn delete_images(
        &self,
        mac: EpdMac,
        svg_removed: bool,
        bmp_removed: bool,
        png_removed: bool,
    ) -> (r: Result<(), AppError>)
        ensures
            r is Ok <==> removal_succeeded(svg_removed, bmp_removed, png_removed),
            r matches Err(e) ==> e is AssetNotFound && e.text() == no_images_text(mac@),
    {
        if svg_removed || bmp_removed || png_removed {
            Ok(())
        } else {
            let mut words = "Could not find any images for MAC ".to_owned();
            let text = mac.to_string();
            words.append(text.as_str());
            words.append(".");
            Err(AppError::AssetNotFound(words))
        }
    }

    /// Takes up the drawing `svg_body` for the display `mac`: wraps it into
    /// a document of the display's size and makes the canvas to paint the
    /// document on, a blank pixmap of exactly that size. Nothing is written
    /// yet: the caller has the document drawn, and `store_drawing` decides
    /// from the drawing what is stored.
    pub fn post_svg_body(&self, mac: EpdMac, svg_body: &str) -> (job: RenderJob)
        ensures
            job.mac == mac,
            job.document@ == svg_document(
                self.config().epd_width,
                self.config().epd_height,
                svg_body@,
            ),
            job.canvas is Some <==> can_rasterize(
                self.config().epd_width,
                self.config().epd_height,
            ),
            job.canvas matches Some(canvas) ==> pixmap_width(canvas) == self.config().epd_width
                && pixmap_height(canvas) == self.config().epd_height && pixmap_data(canvas)
                == blank_data(self.config().epd_width, self.config().epd_height),
    {
        RenderJob {
            mac,
            document: wrap_svg_body(self.config.epd_width, self.config.epd_height, svg_body),
            canvas: new_canvas(self.config.epd_width, self.config.epd_height),
        }
    }

    /// What is stored for the display `mac` once `document` has been drawn:
    /// `drawing` is what came of parsing and painting it. A document that the
    /// parser refused is the client's error, with the parser's words, and
    /// nothing is to be written. A document that was painted on a canvas of
    /// the display's size is stored with its preview, the canvas as a PNG
    /// file. Every other drawing is the store's failure: nothing was painted,
    /// or the canvas does not have the size of the display.
    pub fn store_drawing(&self, mac: EpdMac, document: String, drawing: Drawing) -> (r: Result<
        RenderedImage,
        AppError,
    >)
        ensures
            r is Ok <==> (drawing matches Drawing::Drawn(canvas) && pixmap_width(canvas)
                == self.config().epd_width && pixmap_height(canvas) == self.config().epd_height),
            r matches Ok(image) ==> image.is_rendered_from(self.config(), mac@, document@),
            r matches Ok(image) ==> (drawing matches Drawing::Drawn(canvas)
                ==> image.preview.contents@ == png_encoding(
                self.config().epd_width,
                self.config().epd_height,
                pixmap_data(canvas),
            )),
            drawing matches Drawing::Refused(words) ==> r == Err::<RenderedImage, AppError>(
                AppError::InvalidVectorInput(words),
            ),
            drawing is Failed ==> (r matches Err(e) && e is StoreUnavailable && e.text()
                == not_drawn_text(self.config().epd_width, self.config().epd_height)),
            drawing is Drawn ==> (r matches Err(e) ==> e is StoreUnavailable && e.text()
                == wrong_size_text()),
    {
        let png = match preview_of(drawing, self.config.epd_width, self.config.epd_height) {
            Ok(png) => png,
            Err(e) => {
                return Err(e);
            },
        };
        Ok(
            RenderedImage {
                preview: StoredFile { name: asset_file_name(&mac, AssetKind::Png), contents: png },
                source: StoredFile {
                    name: asset_file_name(&mac, AssetKind::Svg),
                    contents: document.as_str().as_bytes_vec(),
                },
            },
        )
    }
}

} // verus!
