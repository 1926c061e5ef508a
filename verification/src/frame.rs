//! Frames and the slot that holds the most recent one.

use vstd::prelude::*;

verus! {

/// Width in pixels of the frames a session publishes.
pub const FRAME_WIDTH: usize = 1280;

/// Height in pixels of the frames a session publishes.
pub const FRAME_HEIGHT: usize = 720;

/// Bytes per pixel: red, green, blue, alpha.
pub const CHANNELS: usize = 4;

/// Number of bytes in an RGBA buffer of `width` by `height` pixels.
pub open spec fn rgba_len(width: int, height: int) -> int {
    width * height * 4
}

/// Where the pixel in column `x` of row `y` starts in a row-major buffer whose
/// rows are `width` pixels long.
pub open spec fn pixel_offset(width: int, x: int, y: int) -> int {
    (y * width + x) * 4
}

/// The four bytes of a pixel inside the frame lie inside the buffer.
proof fn lemma_pixel_in_bounds(width: int, height: int, x: int, y: int)
    requires
        0 <= x < width,
        0 <= y < height,
    ensures
        0 <= y * width,
        y * width + x < width * height,
        width * height <= rgba_len(width, height),
        0 <= pixel_offset(width, x, y),
        pixel_offset(width, x, y) + 4 <= rgba_len(width, height),
{
    assert(0 <= y * width && (y + 1) * width <= height * width && (y + 1) * width == y * width
        + width && height * width == width * height) by (nonlinear_arith)
        requires
            0 <= x < width,
            0 <= y < height,
    ;
}

/// A buffer is at least as long as the number of its pixels.
proof fn lemma_rgba_len_grows(width: int, height: int)
    requires
        0 <= width,
        0 <= height,
    ensures
        width * height <= rgba_len(width, height),
{
    assert(0 <= width * height) by (nonlinear_arith)
        requires
            0 <= width,
            0 <= height,
    ;
}

/// The image type of `egui`, carried through without looking inside.
#[verifier::external_type_specification]
#[verifier::external_body]
pub struct ExColorImage(egui::ColorImage);

/// The image that `egui` builds from a buffer of `width` by `height` pixels whose
/// alpha is not premultiplied.
pub uninterp spec fn unmultiplied_image(width: int, height: int, rgba: Seq<u8>) -> egui::ColorImage;

/// Calls `egui::ColorImage::from_rgba_unmultiplied`.
///
/// That function panics unless the buffer holds four bytes per pixel, which the
/// precondition rules out. Its result depends on the size and the bytes alone; the
/// contract gives it a name and claims nothing else about it.
#[verifier::external_body]
fn color_image_from_rgba(width: usize, height: usize, rgba: &[u8]) -> (image: egui::ColorImage)
    requires
        rgba@.len() == rgba_len(width as int, height as int),
    ensures
        image == unmultiplied_image(width as int, height as int, rgba@),
{
    egui::ColorImage::from_rgba_unmultiplied([width, height], rgba)
}

/// What a [`Frame`] is: its dimensions and its bytes, row by row from the top,
/// four bytes (red, green, blue, alpha; alpha not premultiplied) per pixel.
pub struct FrameView {
    pub width: nat,
    pub height: nat,
    pub pixels: Seq<u8>,
}

/// One rendered step of the running script: an immutable RGBA pixel buffer.
#[derive(Debug, PartialEq, Eq)]
pub struct Frame {
    width: usize,
    height: usize,
    pixels: Vec<u8>,
}

impl View for Frame {
    type V = FrameView;

    closed spec fn view(&self) -> FrameView {
        FrameView { width: self.width as nat, height: self.height as nat, pixels: self.pixels@ }
    }
}

impl Frame {
    #[verifier::type_invariant]
    spec fn well_formed(self) -> bool {
        self.pixels@.len() == rgba_len(self.width as int, self.height as int)
    }

    /// Interprets `rgba` as a buffer of `width` by `height` pixels.
    ///
    /// Succeeds exactly when the buffer holds four bytes for each pixel.
    pub fn from_rgba(width: usize, height: usize, rgba: Vec<u8>) -> (result: Option<Frame>)
        ensures
            result is Some <==> rgba@.len() == rgba_len(width as int, height as int),
            result matches Some(frame) ==> frame@ == (FrameView {
                width: width as nat,
                height: height as nat,
                pixels: rgba@,
            }),
    {
        let len = rgba.len();
        let area = match width.checked_mul(height) {
            Some(area) => area,
            None => {
                proof {
                    lemma_rgba_len_grows(width as int, height as int);
                }
                return None;
            },
        };
        match area.checked_mul(CHANNELS) {
            Some(n) if n == len => Some(Frame { width, height, pixels: rgba }),
            _ => None,
        }
    }

    /// Width in pixels.
    pub fn width(&self) -> (width: usize)
        ensures
            width == self@.width,
    {
        self.width
    }

    /// Height in pixels.
    pub fn height(&self) -> (height: usize)
        ensures
            height == self@.height,
    {
        self.height
    }

    /// The bytes of the frame, row by row.
    pub fn pixels(&self) -> (pixels: &Vec<u8>)
        ensures
            pixels@ == self@.pixels,
            pixels@.len() == rgba_len(self@.width as int, self@.height as int),
    {
        proof {
            use_type_invariant(self);
        }
        &self.pixels
    }

    /// The four bytes of the pixel in column `x` of row `y`, rows counted from the
    /// top; `None` outside the frame.
    pub fn pixel(&self, x: usize, y: usize) -> (rgba: Option<[u8; 4]>)
        ensures
            rgba is Some <==> x < self@.width && y < self@.height,
            rgba matches Some(p) ==> p@ == self@.pixels.subrange(
                pixel_offset(self@.width as int, x as int, y as int),
                pixel_offset(self@.width as int, x as int, y as int) + 4,
            ),
    {
        proof {
            use_type_invariant(self);
        }
        if x >= self.width || y >= self.height {
            return None;
        }
        proof {
            lemma_pixel_in_bounds(self.width as int, self.height as int, x as int, y as int);
            assert(self.pixels.len() == self.pixels@.len());
        }
        let at: usize = (y * self.width + x) * CHANNELS;
        let p: [u8; 4] = [
            self.pixels[at],
            self.pixels[at + 1],
            self.pixels[at + 2],
            self.pixels[at + 3],
        ];
        assert(p@ =~= self.pixels@.subrange(at as int, at + 4));
        Some(p)
    }

    /// The frame as an image that `egui` can upload as a texture.
    pub fn to_color_image(&self) -> (image: egui::ColorImage)
        ensures
            image == unmultiplied_image(
                self@.width as int,
                self@.height as int,
                self@.pixels,
            ),
    {
        proof {
            use_type_invariant(self);
        }
        color_image_from_rgba(self.width, self.height, self.pixels.as_slice())
    }
}

impl Clone for Frame {
    fn clone(&self) -> (copy: Frame)
        ensures
            copy@ == self@,
    {
        proof {
            use_type_invariant(self);
        }
        let pixels = self.pixels.clone();
        assert(pixels@ =~= self.pixels@);
        Frame { width: self.width, height: self.height, pixels }
    }
}

/// The shared cell that holds the most recently published frame, or none.
///
/// The session thread is the only writer; the UI reads on every repaint. A
/// mutable borrow is needed to publish, so a publish and a read never overlap:
/// whoever shares the slot between threads puts it behind a lock.
#[derive(Debug)]
pub struct FrameSlot {
    frame: Option<Frame>,
}

impl View for FrameSlot {
    type V = Option<FrameView>;

    closed spec fn view(&self) -> Option<FrameView> {
        match self.frame {
            Some(frame) => Some(frame@),
            None => None,
        }
    }
}

impl FrameSlot {
    /// A slot that holds no frame yet.
    pub fn new() -> (slot: FrameSlot)
        ensures
            slot@ is None,
    {
        FrameSlot { frame: None }
    }

    /// Replaces whatever the slot holds with `frame`.
    pub fn publish(&mut self, frame: Frame)
        ensures
            final(self)@ == Some(frame@),
    {
        self.frame = Some(frame);
    }

    /// A copy of the frame the slot holds. The slot keeps its frame: reading
    /// again returns the same until the next publish.
    pub fn read(&self) -> (current: Option<Frame>)
        ensures
            current is Some <==> self@ is Some,
            current matches Some(frame) ==> self@ == Some(frame@),
    {
        match &self.frame {
            Some(frame) => Some(frame.clone()),
            None => None,
        }
    }

    /// The frame the slot holds, without copying it.
    pub fn peek(&self) -> (current: Option<&Frame>)
        ensures
            current is Some <==> self@ is Some,
            current matches Some(frame) ==> self@ == Some(frame@),
    {
        self.frame.as_ref()
    }

    /// Whether a frame has been published.
    pub fn has_frame(&self) -> (present: bool)
        ensures
            present == self@ is Some,
    {
        self.frame.is_some()
    }
}

/// One access to a [`FrameSlot`], as the lock around it orders them.
pub enum SlotAccess {
    /// A call of [`FrameSlot::publish`] with this frame.
    Publish(FrameView),
    /// A call of [`FrameSlot::read`].
    Read,
}

/// What the slot holds after the accesses `accesses`, made in this order on a slot
/// that held `slot`.
pub open spec fn slot_after(slot: Option<FrameView>, accesses: Seq<SlotAccess>) -> Option<
    FrameView,
>
    decreases accesses.len(),
{
    if accesses.len() == 0 {
        slot
    } else {
        match accesses.last() {
            SlotAccess::Publish(frame) => Some(frame),
            SlotAccess::Read => slot_after(slot, accesses.drop_last()),
        }
    }
}

/// What the read at position `at` of `accesses` returns: what the slot holds after
/// the accesses before it.
pub open spec fn read_result(slot: Option<FrameView>, accesses: Seq<SlotAccess>, at: int) -> Option<
    FrameView,
> {
    slot_after(slot, accesses.take(at))
}

/// Reads never see a torn frame. After `publish(first)`, let reads and publishes
/// of `second` follow in any order. Every read then returns `first` or `second`,
/// whole; it returns `second` once a publish of it came before.
pub proof fn lemma_reads_see_whole_frames(
    before: Option<FrameView>,
    first: FrameView,
    second: FrameView,
    accesses: Seq<SlotAccess>,
    at: int,
)
    requires
        accesses.len() > 0,
        accesses[0] == SlotAccess::Publish(first),
        forall|i: int|
            0 < i < accesses.len() ==> accesses[i] == SlotAccess::Read || accesses[i]
                == SlotAccess::Publish(second),
        0 < at < accesses.len(),
        accesses[at] == SlotAccess::Read,
    ensures
        read_result(before, accesses, at) == Some(first) || read_result(before, accesses, at)
            == Some(second),
        (exists|i: int| 0 < i < at && accesses[i] == SlotAccess::Publish(second)) ==> read_result(
            before,
            accesses,
            at,
        ) == Some(second),
        (forall|i: int| 0 < i < at ==> accesses[i] == SlotAccess::Read) ==> read_result(
            before,
            accesses,
            at,
        ) == Some(first),
    decreases at,
{
    let seen = accesses.take(at);
    assert(seen.last() == accesses[at - 1]);
    if at == 1 {
    } else {
        match accesses[at - 1] {
            SlotAccess::Publish(frame) => {},
            SlotAccess::Read => {
                lemma_reads_see_whole_frames(before, first, second, accesses, at - 1);
                assert(seen.drop_last() =~= accesses.take(at - 1));
                if exists|i: int| 0 < i < at && accesses[i] == SlotAccess::Publish(second) {
                    let i = choose|i: int| 0 < i < at && accesses[i] == SlotAccess::Publish(second);
                    assert(0 < i < at - 1);
                }
            },
        }
    }
}

} // verus!
