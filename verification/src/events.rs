use vstd::prelude::*;
use crate::text::joined;

verus! {

/// One RGBA frame from the preview: `width * height` pixels of four bytes,
/// row by row.
#[derive(Clone, Debug)]
pub struct Frame {
    pub width: u32,
    pub height: u32,
    pub pixels: Vec<u8>,
}

/// A report from the camera to the user interface.
#[derive(Clone, Debug)]
pub enum CameraEvent {
    /// A preview frame to show.
    NewFrame(Frame),
    /// A notice to show in the toast (errors as well as confirmations).
    Error(String),
    /// The `MM:SS` time of the running recording.
    RecordingTime(String),
}

/// `event` is a toast notice with exactly the text `text`.
pub open spec fn is_notice(event: CameraEvent, text: Seq<char>) -> bool {
    match event {
        CameraEvent::Error(m) => m@ == text,
        _ => false,
    }
}

/// The notice after a recorder started writing to `location`.
pub fn recording_started_event(location: &str) -> (e: CameraEvent)
    ensures
        is_notice(e, "Recording to "@ + location@),
{
    CameraEvent::Error(joined("Recording to ", location))
}

/// The notice after a recorder could not be built, with the reason.
pub fn recording_failed_event(reason: &str) -> (e: CameraEvent)
    ensures
        is_notice(e, "Rec error: "@ + reason@),
{
    CameraEvent::Error(joined("Rec error: ", reason))
}

/// The notice after a recorder was stopped.
pub fn recording_stopped_event() -> (e: CameraEvent)
    ensures
        is_notice(e, "Recording stopped"@),
{
    CameraEvent::Error("Recording stopped".to_owned())
}

/// The notice after a photo was saved at `location`.
pub fn photo_saved_event(location: &str) -> (e: CameraEvent)
    ensures
        is_notice(e, "Saved "@ + location@),
{
    CameraEvent::Error(joined("Saved ", location))
}

/// The 8-bit RGB pixels of an RGBA image of `width * height` pixels: the
/// first three bytes of each of its pixels, the alpha byte dropped.
pub open spec fn is_rgb_of_rgba(rgb: Seq<u8>, width: u32, height: u32, rgba: Seq<u8>) -> bool {
    let n = (width as int) * (height as int);
    &&& rgb.len() == 3 * n
    &&& forall|i: int, k: int|
        0 <= i < n && 0 <= k < 3 ==> #[trigger] rgb[3 * i + k] == rgba[4 * i + k]
}

/// Calls `image::RgbaImage::from_raw` on the bytes and then
/// `DynamicImage::ImageRgba8(..).into_rgb8().into_raw()`. For 8-bit RGBA to
/// 8-bit RGB the crate copies the red, green and blue byte of each of the
/// first `width * height` pixels and drops the alpha byte, which is what the
/// contract claims. `from_raw` computes `4 * width` and then `* height` with
/// overflow checks and refuses the buffer when either overflows or the buffer
/// is shorter than the product. The precondition rules both out: with a
/// non-empty image, `4 * width <= 4 * width * height <= rgba.len()`.
#[verifier::external_body]
fn rgba_to_rgb(width: u32, height: u32, rgba: Vec<u8>) -> (rgb: Vec<u8>)
    requires
        (width as int) * (height as int) > 0,
        4 * ((width as int) * (height as int)) <= rgba@.len(),
    ensures
        is_rgb_of_rgba(rgb@, width, height, rgba@),
{
    let image = image::RgbaImage::from_raw(width, height, rgba).unwrap();
    image::DynamicImage::ImageRgba8(image).into_rgb8().into_raw()
}

impl Frame {
    /// Whether the frame holds at least `4 * width * height` bytes.
    pub open spec fn is_complete(&self) -> bool {
        4 * ((self.width as int) * (self.height as int)) <= self.pixels@.len()
    }

    /// The frame as 8-bit RGB pixels, for saving as a photo; `None` when the
    /// frame holds fewer bytes than its size needs.
    pub fn photo_rgb(&self) -> (rgb: Option<Vec<u8>>)
        ensures
            rgb is Some <==> self.is_complete(),
            rgb matches Some(v) ==> is_rgb_of_rgba(v@, self.width, self.height, self.pixels@),
    {
        if self.width == 0 || self.height == 0 {
            assert((self.width as int) * (self.height as int) == 0);
            return Some(Vec::new());
        }
        let w: u64 = self.width as u64;
        let h: u64 = self.height as u64;
        assert((w as u128) * (h as u128) <= 0xffff_ffff_ffff_ffff_ffff_ffff) by (nonlinear_arith)
            requires
                w <= 0xffff_ffff,
                h <= 0xffff_ffff,
        ;
        let needed: u128 = 4 * ((w as u128) * (h as u128));
        if needed <= self.pixels.len() as u128 {
            assert((w as int) * (h as int) > 0) by (nonlinear_arith)
                requires
                    w >= 1,
                    h >= 1,
            ;
            Some(rgba_to_rgb(self.width, self.height, self.pixels.clone()))
        } else {
            None
        }
    }
}

} // verus!
