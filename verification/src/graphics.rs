//! Drawing options with their C enum values: alignments, compositing modes,
//! rounded corners, text layout, bitmap formats, status bar separators and
//! content indicators.
use vstd::prelude::*;

use crate::color::GColor;

verus! {

/// Graphics alignment: one of the nine positions made of top / center /
/// bottom and left / center / right.
#[derive(Clone, Copy, PartialEq, Eq, Structural, Debug)]
pub enum GAlign {
    /// Vertically and horizontally centered.
    Center,
    /// Top left.
    TopLeft,
    /// Top right.
    TopRight,
    /// Center top.
    Top,
    /// Center left.
    Left,
    /// Center bottom.
    Bottom,
    /// Center right.
    Right,
    /// Bottom right.
    BottomRight,
    /// Bottom left.
    BottomLeft,
}

impl GAlign {
    /// The C `GAlign` value.
    pub open spec fn spec_raw(self) -> u8 {
        match self {
            GAlign::Center => 0,
            GAlign::TopLeft => 1,
            GAlign::TopRight => 2,
            GAlign::Top => 3,
            GAlign::Left => 4,
            GAlign::Bottom => 5,
            GAlign::Right => 6,
            GAlign::BottomRight => 7,
            GAlign::BottomLeft => 8,
        }
    }

    /// The C `GAlign` value.
    pub fn raw(&self) -> (r: u8)
        ensures
            r == self.spec_raw(),
    {
        match self {
            GAlign::Center => 0,
            GAlign::TopLeft => 1,
            GAlign::TopRight => 2,
            GAlign::Top => 3,
            GAlign::Left => 4,
            GAlign::Bottom => 5,
            GAlign::Right => 6,
            GAlign::BottomRight => 7,
            GAlign::BottomLeft => 8,
        }
    }
}

/// Compositing modes.
#[derive(Clone, Copy, PartialEq, Eq, Structural, Debug)]
pub enum CompOp {
    /// Overwrite all destination pixels with the source pixels.
    Assign,
    /// Overwrite destination pixels with the inverse of each source pixel's color.
    AssignInverted,
    /// Perform logical or between destination and source pixels.
    Or,
    /// Perform logical and between destination and source pixels.
    And,
    /// Clears the bits in the destination image, using the source image as mask.
    Clear,
    /// Sets the bits in the destination image, using the source image as mask.
    SetBits,
}

impl CompOp {
    /// The C `GCompOp` value.
    pub open spec fn spec_raw(self) -> u8 {
        match self {
            CompOp::Assign => 0,
            CompOp::AssignInverted => 1,
            CompOp::Or => 2,
            CompOp::And => 3,
            CompOp::Clear => 4,
            CompOp::SetBits => 5,
        }
    }

    /// The C `GCompOp` value.
    pub fn raw(&self) -> (r: u8)
        ensures
            r == self.spec_raw(),
    {
        match self {
            CompOp::Assign => 0,
            CompOp::AssignInverted => 1,
            CompOp::Or => 2,
            CompOp::And => 3,
            CompOp::Clear => 4,
            CompOp::SetBits => 5,
        }
    }
}

/// `GCornerMask`: top left.
pub const CORNER_TOP_LEFT: u8 = 1;
/// `GCornerMask`: top right.
pub const CORNER_TOP_RIGHT: u8 = 2;
/// `GCornerMask`: bottom left.
pub const CORNER_BOTTOM_LEFT: u8 = 4;
/// `GCornerMask`: bottom right.
pub const CORNER_BOTTOM_RIGHT: u8 = 8;

/// Which corners to round when filling a rectangle.
#[derive(Debug, Clone, Copy, PartialEq, Eq, Structural, PartialOrd, Ord, Hash)]
pub struct CornerMask {
    pub bits: u8,
}

impl CornerMask {
    /// The corners of the given C bits (only the four corner bits are kept).
    pub fn from_bits_truncate(bits: u8) -> (r: Self)
        ensures
            r.bits == bits & 15,
    {
        CornerMask { bits: bits & 15 }
    }

    /// No corners rounded.
    pub fn none() -> (r: Self)
        ensures
            r.bits == 0,
    {
        CornerMask { bits: 0 }
    }

    /// All corners rounded.
    pub fn all() -> (r: Self)
        ensures
            r.bits == 15,
    {
        CornerMask { bits: 15 }
    }

    /// The corners of both masks.
    pub fn union(self, other: Self) -> (r: Self)
        ensures
            r.bits == self.bits | other.bits,
    {
        CornerMask { bits: self.bits | other.bits }
    }

    /// The raw bits for the C API.
    pub fn bits(&self) -> (r: u8)
        ensures
            r == self.bits,
    {
        self.bits
    }
}

/// Behavior for how text should overflow if it is too large for its bounds.
#[derive(Clone, Copy, PartialEq, Eq, Structural, Debug)]
pub enum TextOverflowMode {
    /// Abbreviate text beyond the last line with a trailing ellipsis.
    TrailingEllipsis,
    /// Trim spaces and treat newlines as spaces, filling text most efficiently.
    Fill,
    /// Wrap at word boundaries to the next line, and clip the last line.
    WordWrap,
}

impl TextOverflowMode {
    /// The C `GTextOverflowMode` value.
    pub open spec fn spec_raw(self) -> u8 {
        match self {
            TextOverflowMode::WordWrap => 0,
            TextOverflowMode::TrailingEllipsis => 1,
            TextOverflowMode::Fill => 2,
        }
    }

    /// The C `GTextOverflowMode` value.
    pub fn raw(&self) -> (r: u8)
        ensures
            r == self.spec_raw(),
    {
        match self {
            TextOverflowMode::WordWrap => 0,
            TextOverflowMode::TrailingEllipsis => 1,
            TextOverflowMode::Fill => 2,
        }
    }
}

/// How to align text in its bounding box.
#[derive(Clone, Copy, PartialEq, Eq, Structural, Debug)]
pub enum TextAlignment {
    /// Left-aligned.
    Left,
    /// Centered.
    Center,
    /// Right-aligned.
    Right,
}

impl TextAlignment {
    /// The C `GTextAlignment` value.
    pub open spec fn spec_raw(self) -> u8 {
        match self {
            TextAlignment::Left => 0,
            TextAlignment::Center => 1,
            TextAlignment::Right => 2,
        }
    }

    /// The C `GTextAlignment` value.
    pub fn raw(&self) -> (r: u8)
        ensures
            r == self.spec_raw(),
    {
        match self {
            TextAlignment::Left => 0,
            TextAlignment::Center => 1,
            TextAlignment::Right => 2,
        }
    }
}

/// Attributes for painting text: the font, the overflow behavior, and the
/// C attribute object, which is created once paging or text flow is set.
pub struct TextAttributes<F, A> {
    pub raw: Option<A>,
    pub overflow: TextOverflowMode,
    pub font: F,
}

impl<F, A> TextAttributes<F, A> {
    /// Text attributes with the given font, word wrapping and no C attribute object.
    pub fn new(font: F) -> (r: Self)
        ensures
            r.raw is None,
            r.overflow == TextOverflowMode::WordWrap,
            r.font == font,
    {
        TextAttributes { raw: None, overflow: TextOverflowMode::WordWrap, font }
    }

    /// Sets how the text behaves on overflow.
    pub fn set_overflow(self, mode: TextOverflowMode) -> (r: Self)
        ensures
            r.overflow == mode,
            r.raw == self.raw,
            r.font == self.font,
    {
        let mut s = self;
        s.overflow = mode;
        s
    }
}

/// Bitmap pixel formats.
#[derive(Clone, Copy, PartialEq, Eq, Structural, Debug)]
pub enum BitmapFormat {
    /// One bit per pixel.
    OneBit,
    /// Eight bits (one color) per pixel.
    EightBit,
    /// One bit per pixel, indexing a palette.
    OneBitPalette,
    /// Two bits per pixel, indexing a palette.
    TwoBitPalette,
    /// Four bits per pixel, indexing a palette.
    FourBitPalette,
    /// Eight bits per pixel, laid out for a round display.
    EightBitCircular,
}

impl BitmapFormat {
    /// The C `GBitmapFormat` value.
    pub open spec fn spec_raw(self) -> u8 {
        match self {
            BitmapFormat::OneBit => 0,
            BitmapFormat::EightBit => 1,
            BitmapFormat::OneBitPalette => 2,
            BitmapFormat::TwoBitPalette => 3,
            BitmapFormat::FourBitPalette => 4,
            BitmapFormat::EightBitCircular => 5,
        }
    }

    /// The C `GBitmapFormat` value.
    pub fn raw(&self) -> (r: u8)
        ensures
            r == self.spec_raw(),
    {
        match self {
            BitmapFormat::OneBit => 0,
            BitmapFormat::EightBit => 1,
            BitmapFormat::OneBitPalette => 2,
            BitmapFormat::TwoBitPalette => 3,
            BitmapFormat::FourBitPalette => 4,
            BitmapFormat::EightBitCircular => 5,
        }
    }
}

/// How elements in a status bar are separated.
#[derive(Clone, Copy, PartialEq, Eq, Structural, Hash, Debug)]
pub enum StatusBarSeparatorMode {
    /// Not separated.
    NoSeparator,
    /// A dotted separator at the bottom of the status bar.
    Dotted,
}

impl StatusBarSeparatorMode {
    /// The C `StatusBarLayerSeparatorMode` value.
    pub open spec fn spec_raw(self) -> u8 {
        match self {
            StatusBarSeparatorMode::NoSeparator => 0,
            StatusBarSeparatorMode::Dotted => 1,
        }
    }

    /// The C `StatusBarLayerSeparatorMode` value.
    pub fn raw(&self) -> (r: u8)
        ensures
            r == self.spec_raw(),
    {
        match self {
            StatusBarSeparatorMode::NoSeparator => 0,
            StatusBarSeparatorMode::Dotted => 1,
        }
    }
}

/// Which direction a content indicator applies to.
#[derive(Copy, Clone, PartialEq, Eq, Structural, Hash, Debug)]
pub enum ContentIndicatorDirection {
    /// The up direction.
    Up,
    /// The down direction.
    Down,
}

impl ContentIndicatorDirection {
    /// The C `ContentIndicatorDirection` value.
    pub open spec fn spec_raw(self) -> u8 {
        match self {
            ContentIndicatorDirection::Up => 0,
            ContentIndicatorDirection::Down => 1,
        }
    }

    /// The C `ContentIndicatorDirection` value.
    pub fn raw(&self) -> (r: u8)
        ensures
            r == self.spec_raw(),
    {
        match self {
            ContentIndicatorDirection::Up => 0,
            ContentIndicatorDirection::Down => 1,
        }
    }
}

/// Error of configuring a content indicator: the configuration conflicts with
/// an earlier one.
#[derive(Debug, Clone, Copy)]
pub struct ConfigConflict {
    pub reason: (),
}

/// Configuration of a content indicator direction.
pub struct ContentIndicatorConfig<L> {
    /// Which layer the content indicator should appear on.
    pub layer: L,
    /// Whether displaying the indicator should time out.
    pub times_out: bool,
    /// Alignment of the indicator within the layer.
    pub alignment: GAlign,
    /// Foreground color of the indicator.
    pub foreground: GColor,
    /// Background color of the indicator.
    pub background: GColor,
}

impl<L> ContentIndicatorConfig<L> {
    /// A basic configuration for the given layer: no time-out, centered,
    /// black on white.
    pub fn basic(layer: L) -> (r: Self)
        ensures
            r.layer == layer,
            !r.times_out,
            r.alignment == GAlign::Center,
            r.foreground.argb == 0b1100_0000,
            r.background.argb == 0b1111_1111,
    {
        ContentIndicatorConfig {
            layer,
            times_out: false,
            alignment: GAlign::Center,
            foreground: GColor::black(),
            background: GColor::white(),
        }
    }
}

/// The layers that a content indicator displays on, one per direction; the
/// indicator keeps them alive while they are configured.
pub struct ContentIndicator<L> {
    pub up_layer: Option<L>,
    pub down_layer: Option<L>,
}

impl<L> ContentIndicator<L> {
    /// An indicator without configured layers.
    pub fn new() -> (r: Self)
        ensures
            r.up_layer is None,
            r.down_layer is None,
    {
        ContentIndicator { up_layer: None, down_layer: None }
    }

    /// Records the layer of one direction, leaving the other one alone.
    pub fn save_layer(&mut self, direction: ContentIndicatorDirection, layer: Option<L>)
        ensures
            direction == ContentIndicatorDirection::Up ==> final(self).up_layer == layer
                && final(self).down_layer == old(self).down_layer,
            direction == ContentIndicatorDirection::Down ==> final(self).down_layer == layer
                && final(self).up_layer == old(self).up_layer,
    {
        match direction {
            ContentIndicatorDirection::Up => self.up_layer = layer,
            ContentIndicatorDirection::Down => self.down_layer = layer,
        }
    }

    /// Completes configuring a direction after the C call: on success the
    /// layer is recorded, on failure nothing changes and the conflict is
    /// reported.
    pub fn finish_configure(
        &mut self,
        direction: ContentIndicatorDirection,
        succeeded: bool,
        layer: L,
    ) -> (r: Result<(), ConfigConflict>)
        ensures
            !succeeded ==> r is Err && final(self).up_layer == old(self).up_layer
                && final(self).down_layer == old(self).down_layer,
            succeeded ==> r is Ok,
            succeeded && direction == ContentIndicatorDirection::Up ==> final(self).up_layer
                == Some(layer) && final(self).down_layer == old(self).down_layer,
            succeeded && direction == ContentIndicatorDirection::Down ==> final(self).down_layer
                == Some(layer) && final(self).up_layer == old(self).up_layer,
    {
        if !succeeded {
            return Err(ConfigConflict { reason: () });
        }
        self.save_layer(direction, Some(layer));
        Ok(())
    }
}

/// The selection of system fonts.
#[derive(Copy, Clone, PartialEq, Eq, Structural, Debug)]
pub enum SystemFont {
    /// Bitham, 30px, Black.
    Bitham30Black,
    /// Bitham, 34px, Medium, numbers and symbols only.
    Bitham34MediumNumbers,
    /// Bitham, 42px, Bold.
    Bitham42Bold,
    /// Bitham, 42px, Light.
    Bitham42Light,
    /// Bitham, 42px, Medium, numbers and symbols only.
    Bitham42MediumNumbers,
    /// Droid Serif, 28px, Bold.
    DroidSerif28Bold,
    /// Gothic, 14px.
    Gothic14,
    /// Gothic, 14px, Bold.
    Gothic14Bold,
    /// Gothic, 18px.
    Gothic18,
    /// Gothic, 18px, Bold.
    Gothic18Bold,
    /// Gothic, 24px.
    Gothic24,
    /// Gothic, 24px, Bold.
    Gothic24Bold,
    /// Gothic, 28px.
    Gothic28,
    /// Gothic, 28px, Bold.
    Gothic28Bold,
    /// LECO, 20px, Bold, numbers and symbols only.
    Leco20BoldNumbers,
    /// LECO, 26px, Bold, numbers and symbols and AM/PM only.
    Leco26BoldNumbersAmPm,
    /// LECO, 28px, Light, numbers and symbols only.
    Leco28LightNumbers,
    /// LECO, 32px, Bold, numbers and symbols only.
    Leco32BoldNumbers,
    /// LECO, 36px, Bold, numbers and symbols only.
    Leco36BoldNumbers,
    /// LECO, 38px, Bold, numbers and symbols only.
    Leco38BoldNumbers,
    /// LECO, 42px, numbers and symbols only.
    Leco42Numbers,
    /// LECO, 60px, Bold, numbers and symbols and AM/PM only (larger platforms).
    Leco60BoldNumbersAmPm,
    /// LECO, 60px, numbers and symbols and AM/PM only (larger platforms).
    Leco60NumbersAmPm,
    /// Roboto, 49px, Bold, "subset" (unspecified).
    RobotoBoldSubset49,
    /// Roboto Condensed, 21px.
    RobotoCondensed21,
}

impl SystemFont {
    /// The system font key that the C API looks the font up by.
    pub open spec fn spec_key(self) -> Seq<char> {
        match self {
            SystemFont::Bitham30Black => "RESOURCE_ID_BITHAM_30_BLACK"@,
            SystemFont::Bitham34MediumNumbers => "RESOURCE_ID_BITHAM_34_MEDIUM_NUMBERS"@,
            SystemFont::Bitham42Bold => "RESOURCE_ID_BITHAM_42_BOLD"@,
            SystemFont::Bitham42Light => "RESOURCE_ID_BITHAM_42_LIGHT"@,
            SystemFont::Bitham42MediumNumbers => "RESOURCE_ID_BITHAM_42_MEDIUM_NUMBERS"@,
            SystemFont::DroidSerif28Bold => "RESOURCE_ID_DROID_SERIF_28_BOLD"@,
            SystemFont::Gothic14 => "RESOURCE_ID_GOTHIC_14"@,
            SystemFont::Gothic14Bold => "RESOURCE_ID_GOTHIC_14_BOLD"@,
            SystemFont::Gothic18 => "RESOURCE_ID_GOTHIC_18"@,
            SystemFont::Gothic18Bold => "RESOURCE_ID_GOTHIC_18_BOLD"@,
            SystemFont::Gothic24 => "RESOURCE_ID_GOTHIC_24"@,
            SystemFont::Gothic24Bold => "RESOURCE_ID_GOTHIC_24_BOLD"@,
            SystemFont::Gothic28 => "RESOURCE_ID_GOTHIC_28"@,
            SystemFont::Gothic28Bold => "RESOURCE_ID_GOTHIC_28_BOLD"@,
            SystemFont::Leco20BoldNumbers => "RESOURCE_ID_LECO_20_BOLD_NUMBERS"@,
            SystemFont::Leco26BoldNumbersAmPm => "RESOURCE_ID_LECO_26_BOLD_NUMBERS_AM_PM"@,
            SystemFont::Leco28LightNumbers => "RESOURCE_ID_LECO_28_LIGHT_NUMBERS"@,
            SystemFont::Leco32BoldNumbers => "RESOURCE_ID_LECO_32_BOLD_NUMBERS"@,
            SystemFont::Leco36BoldNumbers => "RESOURCE_ID_LECO_36_BOLD_NUMBERS"@,
            SystemFont::Leco38BoldNumbers => "RESOURCE_ID_LECO_38_BOLD_NUMBERS"@,
            SystemFont::Leco42Numbers => "RESOURCE_ID_LECO_42_NUMBERS"@,
            SystemFont::Leco60BoldNumbersAmPm => "RESOURCE_ID_LECO_60_BOLD_NUMBERS_AM_PM"@,
            SystemFont::Leco60NumbersAmPm => "RESOURCE_ID_LECO_60_NUMBERS_AM_PM"@,
            SystemFont::RobotoBoldSubset49 => "RESOURCE_ID_ROBOTO_BOLD_SUBSET_49"@,
            SystemFont::RobotoCondensed21 => "RESOURCE_ID_ROBOTO_CONDENSED_21"@,
        }
    }

    /// The system font key that the C API looks the font up by.
    pub fn key(&self) -> (r: &'static str)
        ensures
            r@ == self.spec_key(),
    {
        match self {
            SystemFont::Bitham30Black => "RESOURCE_ID_BITHAM_30_BLACK",
            SystemFont::Bitham34MediumNumbers => "RESOURCE_ID_BITHAM_34_MEDIUM_NUMBERS",
            SystemFont::Bitham42Bold => "RESOURCE_ID_BITHAM_42_BOLD",
            SystemFont::Bitham42Light => "RESOURCE_ID_BITHAM_42_LIGHT",
            SystemFont::Bitham42MediumNumbers => "RESOURCE_ID_BITHAM_42_MEDIUM_NUMBERS",
            SystemFont::DroidSerif28Bold => "RESOURCE_ID_DROID_SERIF_28_BOLD",
            SystemFont::Gothic14 => "RESOURCE_ID_GOTHIC_14",
            SystemFont::Gothic14Bold => "RESOURCE_ID_GOTHIC_14_BOLD",
            SystemFont::Gothic18 => "RESOURCE_ID_GOTHIC_18",
            SystemFont::Gothic18Bold => "RESOURCE_ID_GOTHIC_18_BOLD",
            SystemFont::Gothic24 => "RESOURCE_ID_GOTHIC_24",
            SystemFont::Gothic24Bold => "RESOURCE_ID_GOTHIC_24_BOLD",
            SystemFont::Gothic28 => "RESOURCE_ID_GOTHIC_28",
            SystemFont::Gothic28Bold => "RESOURCE_ID_GOTHIC_28_BOLD",
            SystemFont::Leco20BoldNumbers => "RESOURCE_ID_LECO_20_BOLD_NUMBERS",
            SystemFont::Leco26BoldNumbersAmPm => "RESOURCE_ID_LECO_26_BOLD_NUMBERS_AM_PM",
            SystemFont::Leco28LightNumbers => "RESOURCE_ID_LECO_28_LIGHT_NUMBERS",
            SystemFont::Leco32BoldNumbers => "RESOURCE_ID_LECO_32_BOLD_NUMBERS",
            SystemFont::Leco36BoldNumbers => "RESOURCE_ID_LECO_36_BOLD_NUMBERS",
            SystemFont::Leco38BoldNumbers => "RESOURCE_ID_LECO_38_BOLD_NUMBERS",
            SystemFont::Leco42Numbers => "RESOURCE_ID_LECO_42_NUMBERS",
            SystemFont::Leco60BoldNumbersAmPm => "RESOURCE_ID_LECO_60_BOLD_NUMBERS_AM_PM",
            SystemFont::Leco60NumbersAmPm => "RESOURCE_ID_LECO_60_NUMBERS_AM_PM",
            SystemFont::RobotoBoldSubset49 => "RESOURCE_ID_ROBOTO_BOLD_SUBSET_49",
            SystemFont::RobotoCondensed21 => "RESOURCE_ID_ROBOTO_CONDENSED_21",
        }
    }
}

/// The length of a font's key and its characters at indices 18 to 20, which
/// together tell all keys apart.
spec fn key_fingerprint(f: SystemFont) -> (nat, char, char, char) {
    match f {
        SystemFont::Bitham30Black => (27, '_', '3', '0'),
        SystemFont::Bitham34MediumNumbers => (36, '_', '3', '4'),
        SystemFont::Bitham42Bold => (26, '_', '4', '2'),
        SystemFont::Bitham42Light => (27, '_', '4', '2'),
        SystemFont::Bitham42MediumNumbers => (36, '_', '4', '2'),
        SystemFont::DroidSerif28Bold => (31, 'S', 'E', 'R'),
        SystemFont::Gothic14 => (21, '_', '1', '4'),
        SystemFont::Gothic14Bold => (26, '_', '1', '4'),
        SystemFont::Gothic18 => (21, '_', '1', '8'),
        SystemFont::Gothic18Bold => (26, '_', '1', '8'),
        SystemFont::Gothic24 => (21, '_', '2', '4'),
        SystemFont::Gothic24Bold => (26, '_', '2', '4'),
        SystemFont::Gothic28 => (21, '_', '2', '8'),
        SystemFont::Gothic28Bold => (26, '_', '2', '8'),
        SystemFont::Leco20BoldNumbers => (32, '0', '_', 'B'),
        SystemFont::Leco26BoldNumbersAmPm => (38, '6', '_', 'B'),
        SystemFont::Leco28LightNumbers => (33, '8', '_', 'L'),
        SystemFont::Leco32BoldNumbers => (32, '2', '_', 'B'),
        SystemFont::Leco36BoldNumbers => (32, '6', '_', 'B'),
        SystemFont::Leco38BoldNumbers => (32, '8', '_', 'B'),
        SystemFont::Leco42Numbers => (27, '2', '_', 'N'),
        SystemFont::Leco60BoldNumbersAmPm => (38, '0', '_', 'B'),
        SystemFont::Leco60NumbersAmPm => (33, '0', '_', 'N'),
        SystemFont::RobotoBoldSubset49 => (33, '_', 'B', 'O'),
        SystemFont::RobotoCondensed21 => (31, '_', 'C', 'O'),
    }
}

proof fn lemma_key_fingerprint(f: SystemFont)
    ensures
        f.spec_key().len() == key_fingerprint(f).0,
        f.spec_key()[18] == key_fingerprint(f).1,
        f.spec_key()[19] == key_fingerprint(f).2,
        f.spec_key()[20] == key_fingerprint(f).3,
        f.spec_key().subrange(0, 12) == "RESOURCE_ID_"@,
{
    reveal_strlit("RESOURCE_ID_");
    match f {
        SystemFont::Bitham30Black => {
            reveal_strlit("RESOURCE_ID_BITHAM_30_BLACK");
        },
        SystemFont::Bitham34MediumNumbers => {
            reveal_strlit("RESOURCE_ID_BITHAM_34_MEDIUM_NUMBERS");
        },
        SystemFont::Bitham42Bold => {
            reveal_strlit("RESOURCE_ID_BITHAM_42_BOLD");
        },
        SystemFont::Bitham42Light => {
            reveal_strlit("RESOURCE_ID_BITHAM_42_LIGHT");
        },
        SystemFont::Bitham42MediumNumbers => {
            reveal_strlit("RESOURCE_ID_BITHAM_42_MEDIUM_NUMBERS");
        },
        SystemFont::DroidSerif28Bold => {
            reveal_strlit("RESOURCE_ID_DROID_SERIF_28_BOLD");
        },
        SystemFont::Gothic14 => {
            reveal_strlit("RESOURCE_ID_GOTHIC_14");
        },
        SystemFont::Gothic14Bold => {
            reveal_strlit("RESOURCE_ID_GOTHIC_14_BOLD");
        },
        SystemFont::Gothic18 => {
            reveal_strlit("RESOURCE_ID_GOTHIC_18");
        },
        SystemFont::Gothic18Bold => {
            reveal_strlit("RESOURCE_ID_GOTHIC_18_BOLD");
        },
        SystemFont::Gothic24 => {
            reveal_strlit("RESOURCE_ID_GOTHIC_24");
        },
        SystemFont::Gothic24Bold => {
            reveal_strlit("RESOURCE_ID_GOTHIC_24_BOLD");
        },
        SystemFont::Gothic28 => {
            reveal_strlit("RESOURCE_ID_GOTHIC_28");
        },
        SystemFont::Gothic28Bold => {
            reveal_strlit("RESOURCE_ID_GOTHIC_28_BOLD");
        },
        SystemFont::Leco20BoldNumbers => {
            reveal_strlit("RESOURCE_ID_LECO_20_BOLD_NUMBERS");
        },
        SystemFont::Leco26BoldNumbersAmPm => {
            reveal_strlit("RESOURCE_ID_LECO_26_BOLD_NUMBERS_AM_PM");
        },
        SystemFont::Leco28LightNumbers => {
            reveal_strlit("RESOURCE_ID_LECO_28_LIGHT_NUMBERS");
        },
        SystemFont::Leco32BoldNumbers => {
            reveal_strlit("RESOURCE_ID_LECO_32_BOLD_NUMBERS");
        },
        SystemFont::Leco36BoldNumbers => {
            reveal_strlit("RESOURCE_ID_LECO_36_BOLD_NUMBERS");
        },
        SystemFont::Leco38BoldNumbers => {
            reveal_strlit("RESOURCE_ID_LECO_38_BOLD_NUMBERS");
        },
        SystemFont::Leco42Numbers => {
            reveal_strlit("RESOURCE_ID_LECO_42_NUMBERS");
        },
        SystemFont::Leco60BoldNumbersAmPm => {
            reveal_strlit("RESOURCE_ID_LECO_60_BOLD_NUMBERS_AM_PM");
        },
        SystemFont::Leco60NumbersAmPm => {
            reveal_strlit("RESOURCE_ID_LECO_60_NUMBERS_AM_PM");
        },
        SystemFont::RobotoBoldSubset49 => {
            reveal_strlit("RESOURCE_ID_ROBOTO_BOLD_SUBSET_49");
        },
        SystemFont::RobotoCondensed21 => {
            reveal_strlit("RESOURCE_ID_ROBOTO_CONDENSED_21");
        },
    }
}

/// Every system font is looked up by its own firmware key, the
/// `RESOURCE_ID_` name of its family, size and style (for example
/// `Gothic24Bold` by `RESOURCE_ID_GOTHIC_24_BOLD`); distinct fonts have
/// distinct keys, so no font is loaded in place of another.
pub proof fn lemma_system_font_keys(f: SystemFont, g: SystemFont)
    ensures
        f == SystemFont::Bitham30Black <==> f.spec_key() == "RESOURCE_ID_BITHAM_30_BLACK"@,
        f == SystemFont::Bitham34MediumNumbers <==> f.spec_key() == "RESOURCE_ID_BITHAM_34_MEDIUM_NUMBERS"@,
        f == SystemFont::Bitham42Bold <==> f.spec_key() == "RESOURCE_ID_BITHAM_42_BOLD"@,
        f == SystemFont::Bitham42Light <==> f.spec_key() == "RESOURCE_ID_BITHAM_42_LIGHT"@,
        f == SystemFont::Bitham42MediumNumbers <==> f.spec_key() == "RESOURCE_ID_BITHAM_42_MEDIUM_NUMBERS"@,
        f == SystemFont::DroidSerif28Bold <==> f.spec_key() == "RESOURCE_ID_DROID_SERIF_28_BOLD"@,
        f == SystemFont::Gothic14 <==> f.spec_key() == "RESOURCE_ID_GOTHIC_14"@,
        f == SystemFont::Gothic14Bold <==> f.spec_key() == "RESOURCE_ID_GOTHIC_14_BOLD"@,
        f == SystemFont::Gothic18 <==> f.spec_key() == "RESOURCE_ID_GOTHIC_18"@,
        f == SystemFont::Gothic18Bold <==> f.spec_key() == "RESOURCE_ID_GOTHIC_18_BOLD"@,
        f == SystemFont::Gothic24 <==> f.spec_key() == "RESOURCE_ID_GOTHIC_24"@,
        f == SystemFont::Gothic24Bold <==> f.spec_key() == "RESOURCE_ID_GOTHIC_24_BOLD"@,
        f == SystemFont::Gothic28 <==> f.spec_key() == "RESOURCE_ID_GOTHIC_28"@,
        f == SystemFont::Gothic28Bold <==> f.spec_key() == "RESOURCE_ID_GOTHIC_28_BOLD"@,
        f == SystemFont::Leco20BoldNumbers <==> f.spec_key() == "RESOURCE_ID_LECO_20_BOLD_NUMBERS"@,
        f == SystemFont::Leco26BoldNumbersAmPm <==> f.spec_key() == "RESOURCE_ID_LECO_26_BOLD_NUMBERS_AM_PM"@,
        f == SystemFont::Leco28LightNumbers <==> f.spec_key() == "RESOURCE_ID_LECO_28_LIGHT_NUMBERS"@,
        f == SystemFont::Leco32BoldNumbers <==> f.spec_key() == "RESOURCE_ID_LECO_32_BOLD_NUMBERS"@,
        f == SystemFont::Leco36BoldNumbers <==> f.spec_key() == "RESOURCE_ID_LECO_36_BOLD_NUMBERS"@,
        f == SystemFont::Leco38BoldNumbers <==> f.spec_key() == "RESOURCE_ID_LECO_38_BOLD_NUMBERS"@,
        f == SystemFont::Leco42Numbers <==> f.spec_key() == "RESOURCE_ID_LECO_42_NUMBERS"@,
        f == SystemFont::Leco60BoldNumbersAmPm <==> f.spec_key() == "RESOURCE_ID_LECO_60_BOLD_NUMBERS_AM_PM"@,
        f == SystemFont::Leco60NumbersAmPm <==> f.spec_key() == "RESOURCE_ID_LECO_60_NUMBERS_AM_PM"@,
        f == SystemFont::RobotoBoldSubset49 <==> f.spec_key() == "RESOURCE_ID_ROBOTO_BOLD_SUBSET_49"@,
        f == SystemFont::RobotoCondensed21 <==> f.spec_key() == "RESOURCE_ID_ROBOTO_CONDENSED_21"@,
        f.spec_key() == g.spec_key() ==> f == g,
        f.spec_key().subrange(0, 12) == "RESOURCE_ID_"@,
{
    reveal_strlit("RESOURCE_ID_BITHAM_30_BLACK");
    reveal_strlit("RESOURCE_ID_BITHAM_34_MEDIUM_NUMBERS");
    reveal_strlit("RESOURCE_ID_BITHAM_42_BOLD");
    reveal_strlit("RESOURCE_ID_BITHAM_42_LIGHT");
    reveal_strlit("RESOURCE_ID_BITHAM_42_MEDIUM_NUMBERS");
    reveal_strlit("RESOURCE_ID_DROID_SERIF_28_BOLD");
    reveal_strlit("RESOURCE_ID_GOTHIC_14");
    reveal_strlit("RESOURCE_ID_GOTHIC_14_BOLD");
    reveal_strlit("RESOURCE_ID_GOTHIC_18");
    reveal_strlit("RESOURCE_ID_GOTHIC_18_BOLD");
    reveal_strlit("RESOURCE_ID_GOTHIC_24");
    reveal_strlit("RESOURCE_ID_GOTHIC_24_BOLD");
    reveal_strlit("RESOURCE_ID_GOTHIC_28");
    reveal_strlit("RESOURCE_ID_GOTHIC_28_BOLD");
    reveal_strlit("RESOURCE_ID_LECO_20_BOLD_NUMBERS");
    reveal_strlit("RESOURCE_ID_LECO_26_BOLD_NUMBERS_AM_PM");
    reveal_strlit("RESOURCE_ID_LECO_28_LIGHT_NUMBERS");
    reveal_strlit("RESOURCE_ID_LECO_32_BOLD_NUMBERS");
    reveal_strlit("RESOURCE_ID_LECO_36_BOLD_NUMBERS");
    reveal_strlit("RESOURCE_ID_LECO_38_BOLD_NUMBERS");
    reveal_strlit("RESOURCE_ID_LECO_42_NUMBERS");
    reveal_strlit("RESOURCE_ID_LECO_60_BOLD_NUMBERS_AM_PM");
    reveal_strlit("RESOURCE_ID_LECO_60_NUMBERS_AM_PM");
    reveal_strlit("RESOURCE_ID_ROBOTO_BOLD_SUBSET_49");
    reveal_strlit("RESOURCE_ID_ROBOTO_CONDENSED_21");
    lemma_key_fingerprint(f);
    lemma_key_fingerprint(g);
}

} // verus!
