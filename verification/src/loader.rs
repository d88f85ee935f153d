//! The image loader: from the bytes of an image file to a pixel buffer.
//!
//! The format is taken from the extension of the file's path, never from the
//! bytes. The size that the file declares is read before the pixels, and the
//! buffer that comes out has that size. Reading the file is the caller's
//! part; every failure comes back as a value.

use vstd::prelude::*;
use crate::pixels::{sample_count, PixelBuffer};

verus! {

/// The formats that the loader decodes.
#[derive(Clone, Copy, Debug, PartialEq, Eq, Structural)]
pub enum Format {
    Png,
    Jpeg,
    Bmp,
    /// The portable bitmap, greymap, pixmap and arbitrary-map family.
    Pnm,
}

/// What the extension of a path says about the file's format.
#[derive(Clone, Copy, Debug, PartialEq, Eq, Structural)]
pub enum PathFormat {
    /// The extension is missing or names no format.
    Unknown,
    /// The extension names a format that the loader does not decode.
    Undecodable,
    /// The extension names a format that the loader decodes.
    Decodable(Format),
}

/// Why an image could not be loaded.
#[derive(Clone, Copy, Debug, PartialEq, Eq, Structural)]
pub enum LoadError {
    /// The extension of the path names no format.
    UnrecognizedFormat,
    /// The bytes are not an image of the format that the path names, or the
    /// loader does not decode that format.
    Decode,
}

/// The width and height that `bytes` declare as an image of `format`, where
/// the decoder can read them.
pub uninterp spec fn declared_size(format: Format, bytes: Seq<u8>) -> Option<(u32, u32)>;

/// The width, the height and the RGBA samples that the decoder makes of
/// `bytes` as an image of `format`, where it can decode them.
pub uninterp spec fn decoded_rgba8(format: Format, bytes: Seq<u8>) -> Option<(u32, u32, Seq<u8>)>;

/// Whether the path reads alike under every path syntax: it holds no
/// backslash and no colon, and does not begin with two slashes.
pub open spec fn is_portable(path: Seq<char>) -> bool {
    &&& !path.contains('\\')
    &&& !path.contains(':')
    &&& !(path.len() >= 2 && path[0] == '/' && path[1] == '/')
}

/// The path of the file named `stem`, a full stop and `ext` in the directory
/// `dir`, which is empty or ends in a slash.
pub open spec fn file_path(dir: Seq<char>, stem: Seq<char>, ext: Seq<char>) -> Seq<char> {
    dir + stem + seq!['.'] + ext
}

/// Whether `dir`, `stem` and `ext` are the directory, the stem and the
/// extension of a file: the directory is empty or ends in a slash, the stem
/// is not empty and holds no slash, and the extension holds neither a slash
/// nor a full stop.
pub open spec fn is_file_split(dir: Seq<char>, stem: Seq<char>, ext: Seq<char>) -> bool {
    &&& dir.len() == 0 || dir.last() == '/'
    &&& stem.len() > 0
    &&& !stem.contains('/')
    &&& !ext.contains('/')
    &&& !ext.contains('.')
}

/// Whether `c` is the small letter `small` or its capital.
pub open spec fn same_letter(c: char, small: char) -> bool {
    c == small || (c as u32) + 32 == (small as u32)
}

/// Whether `ext` spells `word`, a word of small letters, in small letters or
/// capitals.
pub open spec fn spells(ext: Seq<char>, word: Seq<char>) -> bool {
    &&& ext.len() == word.len()
    &&& forall|i: int| 0 <= i < ext.len() ==> same_letter(#[trigger] ext[i], word[i])
}

/// Whether `ext` is an extension of the format.
pub open spec fn is_extension_of(format: Format, ext: Seq<char>) -> bool {
    match format {
        Format::Png => spells(ext, seq!['p', 'n', 'g']) || spells(ext, seq!['a', 'p', 'n', 'g']),
        Format::Jpeg => {
            ||| spells(ext, seq!['j', 'p', 'g'])
            ||| spells(ext, seq!['j', 'p', 'e', 'g'])
            ||| spells(ext, seq!['j', 'f', 'i', 'f'])
        },
        Format::Bmp => spells(ext, seq!['b', 'm', 'p']),
        Format::Pnm => {
            ||| spells(ext, seq!['p', 'b', 'm'])
            ||| spells(ext, seq!['p', 'a', 'm'])
            ||| spells(ext, seq!['p', 'p', 'm'])
            ||| spells(ext, seq!['p', 'g', 'm'])
            ||| spells(ext, seq!['p', 'n', 'm'])
        },
    }
}

/// Whether `ext` is an extension of a format that the loader does not decode.
pub open spec fn is_undecodable_extension(ext: Seq<char>) -> bool {
    ||| spells(ext, seq!['a', 'v', 'i', 'f'])
    ||| spells(ext, seq!['g', 'i', 'f'])
    ||| spells(ext, seq!['w', 'e', 'b', 'p'])
    ||| spells(ext, seq!['t', 'i', 'f'])
    ||| spells(ext, seq!['t', 'i', 'f', 'f'])
    ||| spells(ext, seq!['t', 'g', 'a'])
    ||| spells(ext, seq!['d', 'd', 's'])
    ||| spells(ext, seq!['i', 'c', 'o'])
    ||| spells(ext, seq!['h', 'd', 'r'])
    ||| spells(ext, seq!['e', 'x', 'r'])
    ||| spells(ext, seq!['f', 'f'])
    ||| spells(ext, seq!['q', 'o', 'i'])
}

/// What the extension `ext` says about a file's format.
pub open spec fn extension_format(ext: Seq<char>) -> PathFormat {
    if is_extension_of(Format::Png, ext) {
        PathFormat::Decodable(Format::Png)
    } else if is_extension_of(Format::Jpeg, ext) {
        PathFormat::Decodable(Format::Jpeg)
    } else if is_extension_of(Format::Bmp, ext) {
        PathFormat::Decodable(Format::Bmp)
    } else if is_extension_of(Format::Pnm, ext) {
        PathFormat::Decodable(Format::Pnm)
    } else if is_undecodable_extension(ext) {
        PathFormat::Undecodable
    } else {
        PathFormat::Unknown
    }
}

/// What is known of the format `found` of the path `path` on every machine:
/// a path without a full stop has none, and a path that reads alike under
/// every path syntax and ends in a file name with a stem has the format of
/// that name's extension. Of other paths nothing is said: where their
/// extension lies follows the path syntax of the machine.
pub open spec fn agrees_with_path(path: Seq<char>, found: PathFormat) -> bool {
    &&& !path.contains('.') ==> found == PathFormat::Unknown
    &&& forall|dir: Seq<char>, stem: Seq<char>, ext: Seq<char>|
        path == #[trigger] file_path(dir, stem, ext) && is_portable(path) && is_file_split(
            dir,
            stem,
            ext,
        ) ==> found == extension_format(ext)
}

/// Whether `buffer` has the given width, height and samples.
pub open spec fn holds(buffer: PixelBuffer, width: u32, height: u32, samples: Seq<u8>) -> bool {
    &&& buffer.spec_width() == width
    &&& buffer.spec_height() == height
    &&& buffer@ == samples
    &&& buffer.well_formed()
}

/// Whether `loaded` is the result of loading `bytes` as a file whose path
/// has the format `found`: the buffer that the decoder makes of the bytes
/// where it has the size that the file declares, and an error otherwise.
pub open spec fn load_outcome(
    loaded: Result<PixelBuffer, LoadError>,
    found: PathFormat,
    bytes: Seq<u8>,
) -> bool {
    match found {
        PathFormat::Unknown => loaded == Err::<PixelBuffer, LoadError>(
            LoadError::UnrecognizedFormat,
        ),
        PathFormat::Undecodable => loaded == Err::<PixelBuffer, LoadError>(LoadError::Decode),
        PathFormat::Decodable(format) => if decodes(format, bytes) {
            let parts = decoded_rgba8(format, bytes).unwrap();
            loaded matches Ok(buffer) && holds(buffer, parts.0, parts.1, parts.2)
        } else {
            loaded == Err::<PixelBuffer, LoadError>(LoadError::Decode)
        },
    }
}

/// Whether the decoder reads a size from `bytes` as an image of `format`
/// and decodes them into an image of that size.
pub open spec fn decodes(format: Format, bytes: Seq<u8>) -> bool {
    match (declared_size(format, bytes), decoded_rgba8(format, bytes)) {
        (Some(size), Some(parts)) => size.0 == parts.0 && size.1 == parts.1,
        _ => false,
    }
}

/// Calls `image::ImageFormat::from_path`, which looks only at the extension
/// of the path, and tells the variants of the format apart. Trusted: a path
/// without a full stop has no extension and so no format; where the path
/// reads alike under every path syntax and ends in a file name with a stem,
/// the extension is what follows the last full stop, and its format is the
/// one that the decoder's table of extensions gives, without regard to case.
#[verifier::external_body]
fn format_from_path(path: &str) -> (found: PathFormat)
    ensures
        agrees_with_path(path@, found),
{
    match image::ImageFormat::from_path(path) {
        Ok(image::ImageFormat::Png) => PathFormat::Decodable(Format::Png),
        Ok(image::ImageFormat::Jpeg) => PathFormat::Decodable(Format::Jpeg),
        Ok(image::ImageFormat::Bmp) => PathFormat::Decodable(Format::Bmp),
        Ok(image::ImageFormat::Pnm) => PathFormat::Decodable(Format::Pnm),
        Ok(_) => PathFormat::Undecodable,
        Err(_) => PathFormat::Unknown,
    }
}

/// Calls `image::ImageReader::into_dimensions` on a reader made by
/// `image::ImageReader::with_format`, which reads the header of the image
/// and no pixels. Trusted: the result depends on the format and the bytes
/// alone.
#[verifier::external_body]
fn declared_dimensions(format: Format, bytes: &[u8]) -> (size: Option<(u32, u32)>)
    ensures
        size == declared_size(format, bytes@),
{
    let outside = match format {
        Format::Png => image::ImageFormat::Png,
        Format::Jpeg => image::ImageFormat::Jpeg,
        Format::Bmp => image::ImageFormat::Bmp,
        Format::Pnm => image::ImageFormat::Pnm,
    };
    image::ImageReader::with_format(std::io::Cursor::new(bytes), outside).into_dimensions().ok()
}

/// Calls `image::load_from_memory_with_format` and hands the image out as
/// plain values through `image::DynamicImage::to_rgba8`, `width`, `height`
/// and `into_raw`. Trusted: the result depends on the format and the bytes
/// alone, and the samples are a fresh buffer of exactly four bytes for each
/// pixel. The decoder holds the size that the file declares against its own
/// limit on memory before it reads the pixels, and fails above it.
#[verifier::external_body]
fn decode_rgba8(format: Format, bytes: &[u8]) -> (decoded: Option<(u32, u32, Vec<u8>)>)
    ensures
        match decoded {
            Some(parts) => decoded_rgba8(format, bytes@) == Some((parts.0, parts.1, parts.2@))
                && parts.2@.len() == sample_count(parts.0, parts.1),
            None => decoded_rgba8(format, bytes@).is_none(),
        },
{
    let outside = match format {
        Format::Png => image::ImageFormat::Png,
        Format::Jpeg => image::ImageFormat::Jpeg,
        Format::Bmp => image::ImageFormat::Bmp,
        Format::Pnm => image::ImageFormat::Pnm,
    };
    let rgba = image::load_from_memory_with_format(bytes, outside).ok()?.to_rgba8();
    Some((rgba.width(), rgba.height(), rgba.into_raw()))
}

/// What the extension of `path` says about the file's format.
pub fn format_of_path(path: &str) -> (found: PathFormat)
    ensures
        agrees_with_path(path@, found),
{
    format_from_path(path)
}

/// Turns what the decoder handed out into a pixel buffer. Samples that hold
/// four bytes for each pixel give the buffer of that width, that height and
/// those samples; anything else gives `LoadError::Decode`.
pub fn buffer_from_decoded(decoded: Option<(u32, u32, Vec<u8>)>) -> (loaded: Result<
    PixelBuffer,
    LoadError,
>)
    ensures
        match decoded {
            Some(parts) => if parts.2@.len() == sample_count(parts.0, parts.1) {
                loaded matches Ok(buffer) && holds(buffer, parts.0, parts.1, parts.2@)
            } else {
                loaded == Err::<PixelBuffer, LoadError>(LoadError::Decode)
            },
            None => loaded == Err::<PixelBuffer, LoadError>(LoadError::Decode),
        },
{
    match decoded {
        Some((width, height, samples)) => {
            match PixelBuffer::from_raw(width, height, samples) {
                Some(buffer) => Ok(buffer),
                None => Err(LoadError::Decode),
            }
        },
        None => Err(LoadError::Decode),
    }
}

/// Loads `bytes` as a file whose path has the format `found`: without a
/// format the result is `LoadError::UnrecognizedFormat`; a file whose header
/// cannot be read, whose format or whose pixels cannot be decoded, or whose
/// decoded size is not the declared one gives `LoadError::Decode`; every
/// other file gives the buffer that the decoder makes of it.
pub fn decode_with(found: PathFormat, bytes: &[u8]) -> (loaded: Result<PixelBuffer, LoadError>)
    ensures
        load_outcome(loaded, found, bytes@),
{
    match found {
        PathFormat::Unknown => Err(LoadError::UnrecognizedFormat),
        PathFormat::Undecodable => Err(LoadError::Decode),
        PathFormat::Decodable(format) => {
            match declared_dimensions(format, bytes) {
                None => Err(LoadError::Decode),
                Some((width, height)) => {
                    match decode_rgba8(format, bytes) {
                        Some((made_width, made_height, samples)) => {
                            if made_width == width && made_height == height {
                                buffer_from_decoded(Some((made_width, made_height, samples)))
                            } else {
                                Err(LoadError::Decode)
                            }
                        },
                        None => Err(LoadError::Decode),
                    }
                },
            }
        },
    }
}

/// Loads the image whose file has the path `path` and the contents `bytes`.
/// The result is that of `decode_with` for a format that agrees with the
/// path; a buffer is what the decoder makes of the bytes in some format.
pub fn decode_image(path: &str, bytes: &[u8]) -> (loaded: Result<PixelBuffer, LoadError>)
    ensures
        exists|found: PathFormat| #[trigger]
            load_outcome(loaded, found, bytes@) && agrees_with_path(path@, found),
        !path@.contains('.') ==> loaded == Err::<PixelBuffer, LoadError>(
            LoadError::UnrecognizedFormat,
        ),
        loaded matches Ok(buffer) ==> buffer.well_formed() && exists|format: Format|
            {
                &&& #[trigger] decoded_rgba8(format, bytes@) == Some(
                    (buffer.spec_width(), buffer.spec_height(), buffer@),
                )
                &&& declared_size(format, bytes@) == Some(
                    (buffer.spec_width(), buffer.spec_height()),
                )
            },
{
    let found = format_of_path(path);
    let loaded = decode_with(found, bytes);
    proof {
        assert(load_outcome(loaded, found, bytes@) && agrees_with_path(path@, found));
        if loaded.is_ok() {
            let buffer = loaded->Ok_0;
            let format = found->Decodable_0;
            assert(decodes(format, bytes@));
            assert(decoded_rgba8(format, bytes@) == Some(
                (buffer.spec_width(), buffer.spec_height(), buffer@),
            ));
            assert(declared_size(format, bytes@) == Some(
                (buffer.spec_width(), buffer.spec_height()),
            ));
        }
    }
    loaded
}

/// Loading is a function of the path's format and the bytes: two results for
/// the same format and the same bytes fail with the same error or hold
/// buffers of the same width, height and samples.
pub proof fn same_input_same_result(
    found: PathFormat,
    bytes: Seq<u8>,
    first: Result<PixelBuffer, LoadError>,
    second: Result<PixelBuffer, LoadError>,
)
    requires
        load_outcome(first, found, bytes),
        load_outcome(second, found, bytes),
    ensures
        first.is_ok() == second.is_ok(),
        first matches Err(error) ==> second == Err::<PixelBuffer, LoadError>(error),
        first matches Ok(buffer) ==> second matches Ok(other) && holds(
            other,
            buffer.spec_width(),
            buffer.spec_height(),
            buffer@,
        ),
{
}

/// Loading gives a buffer exactly when the path names a format that the
/// loader decodes and the decoder decodes the bytes into an image of the
/// size that they declare; the buffer then has that size and the decoded
/// samples.
pub proof fn success_exactly_when_decoded(
    found: PathFormat,
    bytes: Seq<u8>,
    loaded: Result<PixelBuffer, LoadError>,
)
    requires
        load_outcome(loaded, found, bytes),
    ensures
        loaded.is_ok() <==> (found matches PathFormat::Decodable(format) && decodes(format, bytes)),
        loaded matches Ok(buffer) ==> (found matches PathFormat::Decodable(format) && {
            &&& decoded_rgba8(format, bytes) == Some(
                (buffer.spec_width(), buffer.spec_height(), buffer@),
            )
            &&& declared_size(format, bytes) == Some((buffer.spec_width(), buffer.spec_height()))
        }),
{
}

} // verus!
