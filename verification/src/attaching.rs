//! Getting an attachment's bytes to the library: a name and a length to
//! draw while it waits, a ceiling checked before anything is read, and a
//! clipboard picture encoded as the PNG that will be sent.
use vstd::prelude::*;

use crate::sending::MAX_BYTES;

verus! {

#[verifier::external_type_specification]
#[verifier::external_body]
pub struct ExImageError(image::ImageError);

/// An image crate `RgbaImage`, held whole and never looked into: the
/// crate's `ImageBuffer` is bounded by its own `Pixel` trait, so the
/// picture is carried as an opaque field.
#[verifier::external_body]
struct Pixels {
    image: image::RgbaImage,
}

/// A picture ready to encode: its dimensions and the pixel buffer it was
/// made from, beside the image crate's own value for it.
struct Picture {
    width: u32,
    height: u32,
    rgba: Ghost<Seq<u8>>,
    pixels: Pixels,
}

/// What the room will call a screenshot, which arrives with no name of its own.
pub const PASTED_NAME: &'static str = "pasted-image.png";

/// A refusal, as the shell shows it: a sentence for the person, and the
/// detail for the log.
#[derive(Clone, Debug, PartialEq, Eq)]
pub struct CommandError {
    message: String,
    detail: String,
}

impl CommandError {
    pub fn new(message: &str, detail: String) -> (r: Self)
        ensures
            r.message_text() == message@,
            r.detail_text() == detail@,
    {
        CommandError { message: message.to_owned(), detail }
    }

    pub closed spec fn message_text(&self) -> Seq<char> {
        self.message@
    }

    pub closed spec fn detail_text(&self) -> Seq<char> {
        self.detail@
    }

    /// The sentence for the person.
    pub fn message(&self) -> (r: &str)
        ensures
            r@ == self.message_text(),
    {
        self.message.as_str()
    }

    /// The detail for the log.
    pub fn detail(&self) -> (r: &str)
        ensures
            r@ == self.detail_text(),
    {
        self.detail.as_str()
    }
}

/// A file somebody chose, before anything has been read of it.
#[derive(Clone, Debug, PartialEq, Eq)]
pub struct Chosen {
    pub path: String,
    /// The file's own name, which is what the room will call it.
    pub name: String,
    /// How many bytes it is.
    pub size: u64,
}

/// A screenshot waiting in the composer, before it is sent.
#[derive(Clone, Debug, PartialEq, Eq)]
pub struct Pasted {
    pub name: String,
    pub size: u64,
}

/// A picture off the clipboard, as raw RGBA pixels.
pub struct Screenshot {
    pub rgba: Vec<u8>,
    pub width: u32,
    pub height: u32,
}

/// The desktop's clipboard, as the two questions asked of it.
pub trait Clipboard: Send + Sync {
    fn text(&self) -> Option<String>;

    fn image(&self) -> Option<Screenshot>;
}

/// The sentence for a file too large to send.
pub open spec fn too_large() -> Seq<char> {
    "That file is too large for Consort to send."@
}

/// The log line for a file of `bytes` bytes past the ceiling.
#[verifier::external_body]
fn past_the_ceiling(bytes: u64, limit: usize) -> (r: String) {
    format!("{bytes} bytes is past the {limit} this build will hold")
}

/// Whether this many bytes is more than this build will hold at once.
pub fn within_the_ceiling(bytes: u64) -> (r: Result<(), CommandError>)
    ensures
        bytes <= MAX_BYTES ==> r is Ok,
        bytes > MAX_BYTES ==> (r matches Err(e) && e.message_text() == too_large()),
{
    if bytes <= MAX_BYTES as u64 {
        return Ok(());
    }
    Err(CommandError::new("That file is too large for Consort to send.", past_the_ceiling(bytes, MAX_BYTES)))
}

/// The sentence for a clipboard picture that cannot be sent.
pub open spec fn clipboard_unreadable() -> Seq<char> {
    "Consort could not read what was on the clipboard."@
}

/// `RgbaImage::from_raw` from the image crate: a picture of `width` by
/// `height` RGBA pixels over `rgba`. `from_raw` gives one exactly when the
/// buffer holds at least four bytes for every pixel, and the picture
/// records the dimensions and the buffer it was made from.
#[verifier::external_body]
fn rgba_image(width: u32, height: u32, rgba: Vec<u8>) -> (r: Option<Picture>)
    ensures
        r is Some <==> 4 * width * height <= rgba@.len(),
        r matches Some(p) ==> p.width == width && p.height == height && p.rgba@ == rgba@,
{
    let model = Ghost(rgba@);
    match image::RgbaImage::from_raw(width, height, rgba) {
        Some(image) => Some(Picture { width, height, rgba: model, pixels: Pixels { image } }),
        None => None,
    }
}

/// The PNG file the image crate's encoder writes for a picture of `width`
/// by `height` RGBA pixels over `rgba`, or `None` when it refuses to write
/// one.
pub uninterp spec fn png_encoding(width: u32, height: u32, rgba: Seq<u8>) -> Option<Seq<u8>>;

/// `ImageBuffer::write_to` from the image crate, as a PNG into memory. What
/// the encoder writes, and whether it writes anything, is named by
/// `png_encoding` over the picture's dimensions and pixels.
#[verifier::external_body]
fn encode_png(picture: &Picture) -> (r: Result<Vec<u8>, image::ImageError>)
    ensures
        r is Ok <==> png_encoding(picture.width, picture.height, picture.rgba@) is Some,
        r matches Ok(png) ==> Some(png@) == png_encoding(
            picture.width,
            picture.height,
            picture.rgba@,
        ),
{
    let mut png = Vec::new();
    match picture.pixels.image.write_to(
        &mut std::io::Cursor::new(&mut png),
        image::ImageFormat::Png,
    ) {
        Ok(()) => Ok(png),
        Err(error) => Err(error),
    }
}

/// The log line for a clipboard picture that is not its own dimensions.
#[verifier::external_body]
fn not_its_dimensions(len: usize, width: u32, height: u32) -> (r: String) {
    format!("{len} bytes is not {width}x{height} pixels")
}

/// The log line for a picture the encoder refused.
#[verifier::external_body]
fn encoding_failed(error: &image::ImageError) -> (r: String) {
    format!("encoding a pasted screenshot: {error}")
}

/// A clipboard picture as the PNG that will be sent: the image crate's PNG
/// encoding of the picture's own pixels. Pixels that are not the picture's
/// own dimensions are refused rather than a panic, and so are a picture
/// the encoder refuses and a PNG past the ceiling.
pub fn png_of(shot: &Screenshot) -> (r: Result<Vec<u8>, CommandError>)
    ensures
        4 * shot.width * shot.height > shot.rgba@.len() ==> (r matches Err(e) && e.message_text()
            == clipboard_unreadable()),
        4 * shot.width * shot.height <= shot.rgba@.len() ==> match png_encoding(
            shot.width,
            shot.height,
            shot.rgba@,
        ) {
            Some(png) => if png.len() <= MAX_BYTES {
                r matches Ok(sent) && sent@ == png
            } else {
                r matches Err(e) && e.message_text() == too_large()
            },
            None => r matches Err(e) && e.message_text() == clipboard_unreadable(),
        },
{
    let picture = match rgba_image(shot.width, shot.height, shot.rgba.clone()) {
        Some(picture) => picture,
        None => {
            return Err(
                CommandError::new(
                    "Consort could not read what was on the clipboard.",
                    not_its_dimensions(shot.rgba.len(), shot.width, shot.height),
                ),
            );
        },
    };
    png_from_encoding(encode_png(&picture))
}

/// What the PNG encoder's answer for a clipboard picture becomes: the PNG
/// itself when it is within the ceiling, the ceiling's refusal when it is
/// past it, and the clipboard's refusal when the encoder refused.
pub fn png_from_encoding(encoded: Result<Vec<u8>, image::ImageError>) -> (r: Result<
    Vec<u8>,
    CommandError,
>)
    ensures
        match encoded {
            Ok(png) => if png@.len() <= MAX_BYTES {
                r == Ok::<Vec<u8>, CommandError>(png)
            } else {
                r matches Err(e) && e.message_text() == too_large()
            },
            Err(_) => r matches Err(e) && e.message_text() == clipboard_unreadable(),
        },
{
    let png = match encoded {
        Ok(png) => png,
        Err(error) => {
            return Err(
                CommandError::new(
                    "Consort could not read what was on the clipboard.",
                    encoding_failed(&error),
                ),
            );
        },
    };
    match within_the_ceiling(png.len() as u64) {
        Ok(()) => Ok(png),
        Err(e) => Err(e),
    }
}

} // verus!
