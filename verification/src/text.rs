//! What goes into a layout call and what the shaper returns.
//!
//! A shaper breaks a string into lines and lines into runs of glyphs of one
//! font. This module holds the options of a layout call, decides what the
//! shaper is asked for, and holds what it returns.

use vstd::prelude::*;
use crate::color::Color;
use crate::prim::BoundingBox;
use crate::font::FontContext;

verus! {

/// Layout units per pixel.
pub const UNITS_PER_PIXEL: i64 = 64;

/// The font size a layout call starts from: sixteen pixels.
pub const DEFAULT_FONT_SIZE: i64 = 1024;

/// The largest magnitude of a length that the positioning accepts, and the
/// largest number of lines of a layout and of glyphs of a run.
pub const LIMIT: i64 = 0x8000_0000;

/// Whether `v` is a length that the positioning accepts.
pub open spec fn in_limit(v: int) -> bool {
    -LIMIT <= v <= LIMIT
}

/// How the lines are placed between the left and the right edge.
#[derive(Clone, Copy, Debug, PartialEq, Eq, Structural)]
pub enum Alignment {
    Left,
    Center,
    Right,
    Justify,
}

/// How the block of lines is placed between the top and the bottom edge.
#[derive(Clone, Copy, Debug, PartialEq, Eq, Structural)]
pub enum VerticalAlignment {
    Top,
    Center,
    Bottom,
}

/// What a layout call is configured with.
#[derive(Clone, Debug, PartialEq, Eq)]
pub struct TextOptions {
    pub font_size: i64,
    /// The paint of the glyphs; `None` leaves it to the rasterizer.
    pub color: Option<Color>,
    /// The region the text is laid out in, if any.
    pub bbox: Option<BoundingBox>,
    /// The font families to try, in order; `None` takes the registered ones.
    pub font_names: Option<Vec<String>>,
    pub alignment: Alignment,
    pub vertical_alignment: VerticalAlignment,
    /// Keep lines wider than the region at its left edge.
    pub align_from_left_of_bbox: bool,
    /// Keep a block taller than the region at its top edge.
    pub align_from_top_of_bbox: bool,
    /// Round glyph positions to whole pixels while shaping.
    pub quantize: bool,
}

impl TextOptions {
    /// The options a layout call starts from: sixteen pixels, no region, the
    /// registered fonts, top left.
    pub open spec fn initial() -> TextOptions {
        TextOptions {
            font_size: DEFAULT_FONT_SIZE,
            color: None,
            bbox: None,
            font_names: None,
            alignment: Alignment::Left,
            vertical_alignment: VerticalAlignment::Top,
            align_from_left_of_bbox: false,
            align_from_top_of_bbox: false,
            quantize: false,
        }
    }

    /// Whether the region, if there is one, is within the accepted lengths.
    pub open spec fn wf(&self) -> bool {
        self.bbox matches Some(b) ==> in_limit(b.x as int) && in_limit(b.y as int) && in_limit(
            b.width as int,
        ) && in_limit(b.height as int)
    }

    /// The top of the region, or zero without one.
    pub open spec fn base_y(&self) -> int {
        match self.bbox {
            Some(b) => b.y as int,
            None => 0,
        }
    }

    /// The height of the region, or zero without one.
    pub open spec fn base_height(&self) -> int {
        match self.bbox {
            Some(b) => b.height as int,
            None => 0,
        }
    }

    /// Whether `wf` holds.
    pub fn check(&self) -> (out: bool)
        ensures
            out == self.wf(),
    {
        match self.bbox {
            Some(b) => within_limit(b.x) && within_limit(b.y) && within_limit(b.width)
                && within_limit(b.height),
            None => true,
        }
    }
}

impl Default for TextOptions {
    fn default() -> (out: TextOptions)
        ensures
            out == TextOptions::initial(),
    {
        TextOptions {
            font_size: DEFAULT_FONT_SIZE,
            color: None,
            bbox: None,
            font_names: None,
            alignment: Alignment::Left,
            vertical_alignment: VerticalAlignment::Top,
            align_from_left_of_bbox: false,
            align_from_top_of_bbox: false,
            quantize: false,
        }
    }
}

/// Whether `v` is a length that the positioning accepts.
pub fn within_limit(v: i64) -> (out: bool)
    ensures
        out == in_limit(v as int),
{
    -LIMIT <= v && v <= LIMIT
}

/// A glyph as the shaper returns it: its number in the font and how far the
/// pen moves after it.
#[derive(Clone, Copy, Debug, PartialEq, Eq, Structural)]
pub struct ShapedGlyph {
    pub id: u32,
    pub advance: i64,
}

/// Consecutive glyphs of one font on one line.
#[derive(Clone, Debug, PartialEq, Eq)]
pub struct ShapedRun {
    /// The font, as the shaper numbered it.
    pub font: u64,
    /// Where the run starts, from the left edge of its line's box.
    pub offset: i64,
    pub glyphs: Vec<ShapedGlyph>,
}

/// What a line holds at one place.
#[derive(Clone, Debug, PartialEq, Eq)]
pub enum LineItem {
    GlyphRun(ShapedRun),
    /// Room kept free for something that is no text; never drawn.
    InlineBox,
}

/// One line of a layout.
#[derive(Clone, Debug, PartialEq, Eq)]
pub struct Line {
    pub line_height: i64,
    pub descent: i64,
    pub items: Vec<LineItem>,
}

/// What the shaper returns for a text: its lines after breaking and
/// alignment, and its natural extent.
#[derive(Clone, Debug, PartialEq, Eq)]
pub struct Layout {
    /// The width of the widest line, trailing white space left out.
    pub width: i64,
    /// The width of the widest line, trailing white space counted.
    pub full_width: i64,
    pub height: i64,
    pub lines: Vec<Line>,
}

impl ShapedRun {
    /// Whether offset, advances and the number of glyphs are within the
    /// accepted lengths.
    pub open spec fn wf(&self) -> bool {
        &&& in_limit(self.offset as int)
        &&& self.glyphs@.len() <= LIMIT
        &&& forall|i: int| 0 <= i < self.glyphs@.len() ==> in_limit(#[trigger] self.glyphs@[i].advance as int)
    }

    /// Whether `wf` holds.
    pub fn check(&self) -> (out: bool)
        ensures
            out == self.wf(),
    {
        if !within_limit(self.offset) || self.glyphs.len() > LIMIT as usize {
            return false;
        }
        let mut i: usize = 0;
        while i < self.glyphs.len()
            invariant
                i <= self.glyphs@.len(),
                forall|j: int| 0 <= j < i ==> in_limit(#[trigger] self.glyphs@[j].advance as int),
            decreases self.glyphs@.len() - i,
        {
            if !within_limit(self.glyphs[i].advance) {
                return false;
            }
            i += 1;
        }
        true
    }
}

impl LineItem {
    pub open spec fn wf(&self) -> bool {
        self matches LineItem::GlyphRun(run) ==> run.wf()
    }
}

impl Line {
    /// Whether the metrics and every run are within the accepted lengths.
    pub open spec fn wf(&self) -> bool {
        &&& in_limit(self.line_height as int)
        &&& in_limit(self.descent as int)
        &&& forall|i: int| 0 <= i < self.items@.len() ==> (#[trigger] self.items@[i]).wf()
    }

    /// Whether `wf` holds.
    pub fn check(&self) -> (out: bool)
        ensures
            out == self.wf(),
    {
        if !within_limit(self.line_height) || !within_limit(self.descent) {
            return false;
        }
        let mut i: usize = 0;
        while i < self.items.len()
            invariant
                i <= self.items@.len(),
                forall|j: int| 0 <= j < i ==> (#[trigger] self.items@[j]).wf(),
            decreases self.items@.len() - i,
        {
            match &self.items[i] {
                LineItem::GlyphRun(run) => {
                    if !run.check() {
                        return false;
                    }
                },
                LineItem::InlineBox => {},
            }
            i += 1;
        }
        true
    }
}

impl Layout {
    /// What shaping the empty string gives: no line and no extent.
    pub open spec fn is_empty(&self) -> bool {
        self.width == 0 && self.full_width == 0 && self.height == 0 && self.lines@.len() == 0
    }

    /// Whether the extent, the number of lines and every line are within the
    /// accepted lengths.
    pub open spec fn wf(&self) -> bool {
        &&& in_limit(self.width as int)
        &&& in_limit(self.full_width as int)
        &&& in_limit(self.height as int)
        &&& self.lines@.len() <= LIMIT
        &&& forall|i: int| 0 <= i < self.lines@.len() ==> (#[trigger] self.lines@[i]).wf()
    }

    /// The layout of the empty string.
    pub fn empty() -> (out: Layout)
        ensures
            out.is_empty(),
            out.wf(),
    {
        Layout { width: 0, full_width: 0, height: 0, lines: Vec::new() }
    }

    /// Whether `wf` holds.
    pub fn check(&self) -> (out: bool)
        ensures
            out == self.wf(),
    {
        if !within_limit(self.width) || !within_limit(self.full_width) || !within_limit(
            self.height,
        ) || self.lines.len() > LIMIT as usize {
            return false;
        }
        let mut i: usize = 0;
        while i < self.lines.len()
            invariant
                i <= self.lines@.len(),
                forall|j: int| 0 <= j < i ==> (#[trigger] self.lines@[j]).wf(),
            decreases self.lines@.len() - i,
        {
            if !self.lines[i].check() {
                return false;
            }
            i += 1;
        }
        true
    }
}

/// What the shaper is asked for.
#[derive(Clone, Debug, PartialEq, Eq)]
pub struct ShapingRequest {
    /// The font families to try, in order.
    pub families: Vec<String>,
    /// The size of the one style that spans the whole text.
    pub font_size: i64,
    pub quantize: bool,
    /// The width at which lines are broken; `None` breaks at no width.
    pub max_width: Option<i64>,
    pub alignment: Alignment,
    /// Whether a line wider than `max_width` is still aligned, or is left at
    /// the left edge.
    pub align_when_overflowing: bool,
}

/// The families a layout call tries: those of the options, else the
/// registered ones.
pub open spec fn resolved_families(options: &TextOptions, registered: Seq<String>) -> Seq<String> {
    match options.font_names {
        Some(names) => names@,
        None => registered,
    }
}

/// The width at which lines are broken: that of the region, if there is one.
pub open spec fn break_width(options: &TextOptions) -> Option<i64> {
    match options.bbox {
        Some(b) => Some(b.width),
        None => None,
    }
}

/// Whether lines wider than the region are still aligned: only with a
/// region, and only where the options do not pin them to its left edge.
pub open spec fn aligns_overflow(options: &TextOptions) -> bool {
    options.bbox is Some && !options.align_from_left_of_bbox
}

/// A copy of a list of names.
pub fn copy_names(names: &Vec<String>) -> (out: Vec<String>)
    ensures
        out@ == names@,
{
    let mut out: Vec<String> = Vec::new();
    let mut i: usize = 0;
    while i < names.len()
        invariant
            i <= names@.len(),
            out@ == names@.subrange(0, i as int),
        decreases names@.len() - i,
    {
        out.push(names[i].clone());
        assert(out@ =~= names@.subrange(0, i + 1));
        i += 1;
    }
    assert(names@.subrange(0, names@.len() as int) =~= names@);
    out
}

/// What the shaper is asked for under the given options, with the given
/// registered families.
pub fn shaping_request(options: &TextOptions, fonts: &FontContext) -> (out: ShapingRequest)
    ensures
        out.families@ == resolved_families(options, fonts.fonts@),
        out.font_size == options.font_size,
        out.quantize == options.quantize,
        out.max_width == break_width(options),
        out.alignment == options.alignment,
        out.align_when_overflowing == aligns_overflow(options),
{
    let families = match &options.font_names {
        Some(names) => copy_names(names),
        None => copy_names(&fonts.fonts),
    };
    let (max_width, align_when_overflowing) = match options.bbox {
        Some(b) => (Some(b.width), !options.align_from_left_of_bbox),
        None => (None, false),
    };
    ShapingRequest {
        families,
        font_size: options.font_size,
        quantize: options.quantize,
        max_width,
        alignment: options.alignment,
        align_when_overflowing,
    }
}

} // verus!
