//! What the viewport panel does on each repaint: keep its texture up to date
//! with the newest frame, and show it as large as the panel allows without
//! distorting it.

use crate::control::GameState;
use crate::frame::{unmultiplied_image, FrameSlot, FrameView};
use vstd::prelude::*;

verus! {

/// An exact fraction `num / den`. Not reduced to lowest terms.
#[derive(Clone, Copy, Debug, PartialEq, Eq, Structural)]
pub struct Ratio {
    pub num: u128,
    pub den: u128,
}

/// The size at which an image is shown, in the unit of the space it was fitted
/// into.
#[derive(Clone, Copy, Debug, PartialEq, Eq, Structural)]
pub struct FitSize {
    pub width: Ratio,
    pub height: Ratio,
}

impl Ratio {
    /// `self <= bound`.
    pub open spec fn at_most(self, bound: int) -> bool {
        self.num <= bound * self.den
    }

    /// `self == value`.
    pub open spec fn equals(self, value: int) -> bool {
        self.num == value * self.den
    }
}

impl FitSize {
    /// Whether width is to height as `width` is to `height`.
    pub open spec fn has_aspect(self, width: int, height: int) -> bool {
        self.width.num * self.height.den * height == self.height.num * self.width.den * width
    }
}

/// Whether an image of `width` by `height`, scaled to be `max_width` wide, is
/// no higher than `max_height`: then the width of the space is what limits it.
pub open spec fn width_limits(width: int, height: int, max_width: int, max_height: int) -> bool {
    width > 0 && max_width * height <= max_height * width
}

/// The largest size with the aspect ratio `width : height` that is at most
/// `max_width` wide and `max_height` high.
///
/// Where the width limits, that is `max_width` by `max_width * height / width`;
/// otherwise `max_height * width / height` by `max_height`. An image that is
/// zero by zero has no aspect ratio and no such size.
pub open spec fn fitted(width: usize, height: usize, max_width: usize, max_height: usize) -> Option<
    FitSize,
> {
    if width_limits(width as int, height as int, max_width as int, max_height as int) {
        Some(
            FitSize {
                width: Ratio { num: max_width as u128, den: 1 },
                height: Ratio { num: (max_width * height) as u128, den: width as u128 },
            },
        )
    } else if height > 0 {
        Some(
            FitSize {
                width: Ratio { num: (max_height * width) as u128, den: height as u128 },
                height: Ratio { num: max_height as u128, den: 1 },
            },
        )
    } else {
        None
    }
}

/// The product of two `usize` fits in a `u128`.
proof fn lemma_product_fits(a: usize, b: usize)
    ensures
        0 <= a * b <= u128::MAX,
{
    assert(0 <= a * b <= 0xffff_ffff_ffff_ffff * 0xffff_ffff_ffff_ffff) by (nonlinear_arith)
        requires
            0 <= a <= 0xffff_ffff_ffff_ffff,
            0 <= b <= 0xffff_ffff_ffff_ffff,
    ;
}

/// Fits an image of the size `size` (width first) into a space of the size
/// `max`, keeping its aspect ratio: the result is the largest such size that
/// exceeds `max` in neither dimension. All arithmetic is exact.
pub fn fit_aspect(size: [usize; 2], max: [usize; 2]) -> (fit: Option<FitSize>)
    ensures
        fit == fitted(size[0], size[1], max[0], max[1]),
{
    let width = size[0] as u128;
    let height = size[1] as u128;
    let max_width = max[0] as u128;
    let max_height = max[1] as u128;
    proof {
        lemma_product_fits(max[0], size[1]);
        lemma_product_fits(max[1], size[0]);
    }
    if width > 0 && max_width * height <= max_height * width {
        Some(
            FitSize {
                width: Ratio { num: max_width, den: 1 },
                height: Ratio { num: max_width * height, den: width },
            },
        )
    } else if height > 0 {
        Some(
            FitSize {
                width: Ratio { num: max_height * width, den: height },
                height: Ratio { num: max_height, den: 1 },
            },
        )
    } else {
        None
    }
}

/// The fitted size is as large as it can be. For an image with a width and a
/// height, it has the image's aspect ratio, exceeds the space in neither
/// dimension, and fills it in at least one.
pub proof fn lemma_fit_is_largest(width: usize, height: usize, max_width: usize, max_height: usize)
    requires
        width > 0,
        height > 0,
    ensures
        fitted(width, height, max_width, max_height) matches Some(fit) && {
            &&& fit.width.den > 0
            &&& fit.height.den > 0
            &&& fit.has_aspect(width as int, height as int)
            &&& fit.width.at_most(max_width as int)
            &&& fit.height.at_most(max_height as int)
            &&& fit.width.equals(max_width as int) || fit.height.equals(max_height as int)
        },
{
    lemma_product_fits(max_width, height);
    lemma_product_fits(max_height, width);
    let fit = fitted(width, height, max_width, max_height)->0;
    if width_limits(width as int, height as int, max_width as int, max_height as int) {
        assert(fit.has_aspect(width as int, height as int)) by (nonlinear_arith)
            requires
                fit.width.num == max_width,
                fit.width.den == 1,
                fit.height.num == max_width * height,
                fit.height.den == width,
        ;
    } else {
        assert(fit.has_aspect(width as int, height as int)) by (nonlinear_arith)
            requires
                fit.width.num == max_height * width,
                fit.width.den == height,
                fit.height.num == max_height,
                fit.height.den == 1,
        ;
    }
}

/// What a repaint does to the viewport's texture.
#[derive(Debug, PartialEq)]
pub enum TextureUpdate {
    /// Leave the texture as it is.
    Keep,
    /// There is no texture yet: create it from this image.
    Create(egui::ColorImage),
    /// Put this image into the texture that exists.
    Replace(egui::ColorImage),
}

impl TextureUpdate {
    /// What a repaint does with the image of the newest frame: it goes into the
    /// texture that exists, or into a new one where none does.
    pub fn with_image(image: egui::ColorImage, has_texture: bool) -> (update: TextureUpdate)
        ensures
            update == if has_texture {
                TextureUpdate::Replace(image)
            } else {
                TextureUpdate::Create(image)
            },
    {
        if has_texture {
            TextureUpdate::Replace(image)
        } else {
            TextureUpdate::Create(image)
        }
    }
}

/// The image that `egui` uploads for a frame.
pub open spec fn image_of(frame: FrameView) -> egui::ColorImage {
    unmultiplied_image(frame.width as int, frame.height as int, frame.pixels)
}

/// Decides what a repaint does to the viewport's texture. While the game is
/// marked as running and a frame has been published, the texture is brought up
/// to date with that frame: created if there is none, updated in place
/// otherwise. While the game is not running, the slot is not even read.
pub fn texture_update(game_state: &GameState, slot: &FrameSlot, has_texture: bool) -> (update:
    TextureUpdate)
    ensures
        update == match slot@ {
            Some(frame) if game_state.running => if has_texture {
                TextureUpdate::Replace(image_of(frame))
            } else {
                TextureUpdate::Create(image_of(frame))
            },
            _ => TextureUpdate::Keep,
        },
{
    if !game_state.running {
        return TextureUpdate::Keep;
    }
    match slot.peek() {
        Some(frame) => TextureUpdate::with_image(frame.to_color_image(), has_texture),
        None => TextureUpdate::Keep,
    }
}

/// What the viewport panel shows.
#[derive(Clone, Copy, Debug, PartialEq, Eq, Structural)]
pub enum ViewportContent {
    /// The notice that no image is available.
    Placeholder,
    /// Nothing.
    Blank,
    /// The texture, at this size.
    Image(FitSize),
}

/// Decides what the viewport panel shows in a space of the size `available`.
/// While the game is not marked as running that is the placeholder. While it is,
/// it is the texture, fitted into the space by the aspect ratio of the frames
/// the UI expects, or nothing as long as there is no texture.
pub fn viewport_content(game_state: &GameState, has_texture: bool, available: [usize; 2]) -> (content:
    ViewportContent)
    ensures
        content == if !game_state.running {
            ViewportContent::Placeholder
        } else if !has_texture {
            ViewportContent::Blank
        } else {
            match fitted(game_state.size[0], game_state.size[1], available[0], available[1]) {
                Some(fit) => ViewportContent::Image(fit),
                None => ViewportContent::Blank,
            }
        },
{
    if !game_state.running {
        ViewportContent::Placeholder
    } else if !has_texture {
        ViewportContent::Blank
    } else {
        match fit_aspect(game_state.size, available) {
            Some(fit) => ViewportContent::Image(fit),
            None => ViewportContent::Blank,
        }
    }
}

} // verus!
