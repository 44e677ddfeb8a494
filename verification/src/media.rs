//! Trusted boundary to the graphics-stream decoding crates.
//!
//! The engine decodes its graphics stream through the `cdg` crate (sector
//! framing and command decoding), accumulates a persistent frame through the
//! `cdg_renderer` interpreter, and copies finished frames out through an
//! `image` RGBA buffer. Verified code sees those types opaquely; the
//! wrappers here state only what the crates' sources show: how many sectors
//! a stream yields, and the dimensions that an image buffer keeps.

use image::GenericImage;
use vstd::prelude::*;

verus! {

/// One drawing command of the graphics-stream format.
#[verifier::external_type_specification]
#[verifier::external_body]
pub struct ExCommand(cdg::Command);

/// The stateful graphics interpreter that accumulates the frame.
#[verifier::external_type_specification]
#[verifier::external_body]
pub struct ExCdgInterpreter(cdg_renderer::CdgInterpreter);

/// Bytes per sector of the graphics-stream format.
pub const SECTOR_BYTES: usize = 96;

/// A streaming reader over the sectors of an in-memory graphics stream.
///
/// Holds the `cdg` crate's sector reader; Verus refuses that type's own
/// declaration (its generic is bound by an I/O trait), so it lives in this
/// opaque wrapper and is reached only through the trusted items below.
#[verifier::external_body]
pub struct SectorStream {
    inner: cdg::SubchannelStreamIter<std::io::Cursor<Vec<u8>>>,
}

/// How many whole sectors the stream has left to yield.
pub uninterp spec fn stream_remaining(s: SectorStream) -> nat;

/// Relies on `cdg::SubchannelStreamIter::new` over `std::io::Cursor::new`:
/// the reader yields one sector per full 96 bytes of input, then reports
/// end of stream.
#[verifier::external_body]
pub(crate) fn new_sector_stream(bytes: Vec<u8>) -> (r: SectorStream)
    ensures
        stream_remaining(r) == bytes@.len() / (SECTOR_BYTES as nat),
{
    SectorStream { inner: cdg::SubchannelStreamIter::new(std::io::Cursor::new(bytes)) }
}

/// Relies on `cdg::SubchannelStreamIter::next`: reads exactly one 96-byte
/// sector and decodes its valid commands, skipping malformed ones; yields
/// `None` at end of input, and forever after.
#[verifier::external_body]
pub(crate) fn next_sector(s: &mut SectorStream) -> (r: Option<Vec<cdg::Command>>)
    ensures
        stream_remaining(*old(s)) == 0 ==> r is None && stream_remaining(*final(s)) == 0,
        stream_remaining(*old(s)) > 0 ==> r is Some && stream_remaining(*final(s))
            == stream_remaining(*old(s)) - 1,
{
    s.inner.next().map(|sector| sector.collect())
}

/// Relies on `cdg_renderer::CdgInterpreter::new`: a fresh interpreter with a
/// cleared frame.
#[verifier::external_body]
pub(crate) fn new_interpreter() -> cdg_renderer::CdgInterpreter {
    cdg_renderer::CdgInterpreter::new()
}

/// Relies on `cdg_renderer::CdgInterpreter::handle_cmd`: applies one drawing
/// command to the interpreter's persistent frame; it returns normally on
/// every decoded command.
#[verifier::external_body]
pub(crate) fn apply_command(interp: &mut cdg_renderer::CdgInterpreter, cmd: cdg::Command) {
    interp.handle_cmd(cmd);
}

/// A reusable RGBA frame buffer that finished frames are copied into.
///
/// Holds the `image` crate's pixel buffer; Verus refuses that type's own
/// declaration (its pixel generic is trait-bound), so it lives in this
/// opaque wrapper and is reached only through the trusted items below.
#[verifier::external_body]
pub struct FrameImage {
    inner: image::RgbaImage,
}

/// The pixel width a frame buffer was created with.
pub uninterp spec fn image_width(img: FrameImage) -> nat;

/// The pixel height a frame buffer was created with.
pub uninterp spec fn image_height(img: FrameImage) -> nat;

/// Relies on `image::RgbaImage::new`: an RGBA buffer of exactly the given
/// dimensions, four bytes per pixel.
#[verifier::external_body]
pub(crate) fn new_frame_image(width: u32, height: u32) -> (r: FrameImage)
    requires
        width as nat * height as nat * 4 <= usize::MAX as nat,
    ensures
        image_width(r) == width,
        image_height(r) == height,
{
    FrameImage { inner: image::RgbaImage::new(width, height) }
}

/// Relies on `image::GenericImage::copy_from`: copies the interpreter's
/// current frame into the buffer, leaving the buffer's dimensions unchanged.
#[verifier::external_body]
pub(crate) fn copy_frame(img: &mut FrameImage, interp: &cdg_renderer::CdgInterpreter)
    ensures
        image_width(*final(img)) == image_width(*old(img)),
        image_height(*final(img)) == image_height(*old(img)),
{
    let _ = img.inner.copy_from(interp, 0, 0);
}

/// Relies on `image::ImageBuffer::into_vec`: the buffer's raw bytes, four
/// per pixel in row-major RGBA order.
#[verifier::external_body]
pub(crate) fn frame_bytes(img: &FrameImage) -> (r: Vec<u8>)
    ensures
        r@.len() == 4 * image_width(*img) * image_height(*img),
{
    img.inner.clone().into_vec()
}

} // verus!
