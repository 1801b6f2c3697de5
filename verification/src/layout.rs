//! Where each glyph of a shaped text goes, and how large the text is.

use vstd::prelude::*;
use crate::prim::{half, min_int, Affine, BoundingBox};
use crate::scene::{
    lemma_drawn_append, unplaced, DrawOp, GlyphRun, GlyphRunView, PositionedGlyph, Scene,
};
use crate::text::{
    in_limit, Alignment, Layout, Line, LineItem, ShapedGlyph, ShapedRun, TextOptions, VerticalAlignment,
};

verus! {

/// The top of the first line. A block that is centred or set to the bottom
/// starts at the top of the region instead when it is taller than the region
/// and the options pin it there.
pub open spec fn vertical_start(options: &TextOptions, content_height: int) -> int {
    let pinned = options.align_from_top_of_bbox && content_height > options.base_height();
    match options.vertical_alignment {
        VerticalAlignment::Top => options.base_y(),
        VerticalAlignment::Center => if pinned {
            options.base_y()
        } else {
            half(options.base_height() - content_height) + options.base_y()
        },
        VerticalAlignment::Bottom => if pinned {
            options.base_y()
        } else {
            options.base_height() - content_height + options.base_y()
        },
    }
}

/// The anchor: what is added to the offset of every run. It is the left
/// edge of the region, or, without a region, what moves the block so that it
/// begins at, is centred on, or ends at the origin.
pub open spec fn run_shift(options: &TextOptions, full_width: int) -> int {
    match options.bbox {
        Some(b) => b.x as int,
        None => match options.alignment {
            Alignment::Center => -half(full_width),
            Alignment::Right => -full_width,
            _ => 0,
        },
    }
}

/// The heights of the first `k` lines, added up.
pub open spec fn heights_sum(lines: Seq<Line>, k: int) -> int
    decreases k,
{
    if k <= 0 {
        0
    } else {
        heights_sum(lines, k - 1) + lines[k - 1].line_height
    }
}

/// The top of line `k`, for a block that starts at `start`: the heights of
/// the lines above it, less the descent of the first line, which is taken
/// off once.
pub open spec fn line_top(lines: Seq<Line>, start: int, k: int) -> int {
    if k <= 0 {
        start
    } else {
        start + heights_sum(lines, k) - lines[0].descent
    }
}

/// The height at which the glyphs of line `k` are placed.
pub open spec fn baseline(lines: Seq<Line>, start: int, k: int) -> int {
    line_top(lines, start, k + 1)
}

/// The smallest top among the first `k` lines; `start` where there is none.
pub open spec fn min_top(lines: Seq<Line>, start: int, k: int) -> int
    decreases k,
{
    if k <= 0 {
        start
    } else {
        min_int(min_top(lines, start, k - 1), line_top(lines, start, k - 1))
    }
}

/// The advances of the first `i` glyphs, added up.
pub open spec fn advance_sum(glyphs: Seq<ShapedGlyph>, i: int) -> int
    decreases i,
{
    if i <= 0 {
        0
    } else {
        advance_sum(glyphs, i - 1) + glyphs[i - 1].advance
    }
}

/// The glyphs of a run that starts at `x0` on the baseline `y`: each glyph
/// stands where the advances of those before it end.
pub open spec fn placed_glyphs(glyphs: Seq<ShapedGlyph>, x0: int, y: int) -> Seq<PositionedGlyph> {
    Seq::new(
        glyphs.len(),
        |i: int|
            PositionedGlyph {
                id: glyphs[i].id,
                x: (x0 + advance_sum(glyphs, i)) as i64,
                y: y as i64,
            },
    )
}

/// The draw operation for one shaped run.
pub open spec fn placed_run(
    run: &ShapedRun,
    options: &TextOptions,
    transform: Affine,
    shift: int,
    y: int,
) -> GlyphRunView {
    GlyphRunView {
        font: run.font,
        font_size: options.font_size,
        color: options.color,
        transform,
        glyphs: placed_glyphs(run.glyphs@, run.offset + shift, y),
    }
}

/// The draw operations for the first `n` items of a line, in order: one for
/// each glyph run, none for an inline box.
pub open spec fn line_runs(
    items: Seq<LineItem>,
    n: int,
    options: &TextOptions,
    transform: Affine,
    shift: int,
    y: int,
) -> Seq<GlyphRunView>
    decreases n,
{
    if n <= 0 {
        Seq::empty()
    } else {
        let before = line_runs(items, n - 1, options, transform, shift, y);
        match items[n - 1] {
            LineItem::GlyphRun(run) => before.push(placed_run(&run, options, transform, shift, y)),
            LineItem::InlineBox => before,
        }
    }
}

/// The draw operations for the first `k` lines of a layout, top to bottom.
pub open spec fn layout_runs(layout: &Layout, k: int, options: &TextOptions, transform: Affine) -> Seq<
    GlyphRunView,
>
    decreases k,
{
    if k <= 0 {
        Seq::empty()
    } else {
        layout_runs(layout, k - 1, options, transform) + line_runs(
            layout.lines@[k - 1].items@,
            layout.lines@[k - 1].items@.len() as int,
            options,
            transform,
            run_shift(options, layout.full_width as int),
            baseline(layout.lines@, vertical_start(options, layout.height as int), k - 1),
        )
    }
}

/// The smaller of `low`, where there is one, and `x`.
pub open spec fn lower(low: Option<i64>, x: i64) -> Option<i64> {
    match low {
        Some(l) => if l <= x {
            Some(l)
        } else {
            Some(x)
        },
        None => Some(x),
    }
}

/// The smallest of `low`, where there is one, and the `x` of every glyph;
/// `None` where there is neither.
pub open spec fn min_glyph_x(glyphs: Seq<PositionedGlyph>, low: Option<i64>) -> Option<i64>
    decreases glyphs.len(),
{
    if glyphs.len() == 0 {
        low
    } else {
        lower(min_glyph_x(glyphs.drop_last(), low), glyphs.last().x)
    }
}

/// The smallest `x` of all glyphs of all runs; `None` where the runs hold
/// no glyph.
pub open spec fn min_run_x(runs: Seq<GlyphRunView>) -> Option<i64>
    decreases runs.len(),
{
    if runs.len() == 0 {
        None
    } else {
        min_glyph_x(runs.last().glyphs, min_run_x(runs.drop_last()))
    }
}

/// The left edge of the measured box: the smallest `x` at which a glyph is
/// placed, and the anchor where no glyph is placed.
pub open spec fn measured_x(layout: &Layout, options: &TextOptions, transform: Affine) -> int {
    match min_run_x(layout_runs(layout, layout.lines@.len() as int, options, transform)) {
        Some(x) => x as int,
        None => run_shift(options, layout.full_width as int),
    }
}

/// The top of the measured box: the smallest top of a line, and the start
/// of the block where there is no line.
pub open spec fn measured_y(layout: &Layout, options: &TextOptions) -> int {
    min_top(
        layout.lines@,
        vertical_start(options, layout.height as int),
        layout.lines@.len() as int,
    )
}

/// Whether `after` is `before` with one glyph run operation appended for each
/// element of `runs`, in order.
pub open spec fn appended_runs(before: Seq<DrawOp>, after: Seq<DrawOp>, runs: Seq<GlyphRunView>) -> bool {
    &&& after.len() == before.len() + runs.len()
    &&& forall|i: int| 0 <= i < before.len() ==> after[i] == before[i]
    &&& forall|j: int|
        0 <= j < runs.len() ==> (#[trigger] after[before.len() + j] matches DrawOp::GlyphRun(r)
            && r@ == runs[j])
}

/// Whether `v` is no further from zero than `bound`.
pub open spec fn within(v: int, bound: int) -> bool {
    -bound <= v <= bound
}

/// The measured box of a layout: the left edge and the top as `measured_x`
/// and `measured_y` give them, and the natural extent.
pub open spec fn measured_box(layout: &Layout, options: &TextOptions, transform: Affine) -> BoundingBox {
    BoundingBox {
        x: measured_x(layout, options, transform) as i64,
        y: measured_y(layout, options) as i64,
        width: layout.width,
        height: layout.height,
    }
}

/// The top of the first line, as `vertical_start` gives it.
pub fn start_y(options: &TextOptions, content_height: i64) -> (y: i64)
    requires
        options.wf(),
        -0x8000_0000 <= content_height <= 0x8000_0000,
    ensures
        y == vertical_start(options, content_height as int),
        within(y as int, 0x1_8000_0000),
{
    let (base_y, base_height): (i64, i64) = match options.bbox {
        Some(b) => (b.y, b.height),
        None => (0, 0),
    };
    let pinned = options.align_from_top_of_bbox && content_height > base_height;
    match options.vertical_alignment {
        VerticalAlignment::Top => base_y,
        VerticalAlignment::Center => if pinned {
            base_y
        } else {
            (base_height - content_height) / 2 + base_y
        },
        VerticalAlignment::Bottom => if pinned {
            base_y
        } else {
            base_height - content_height + base_y
        },
    }
}

/// Places the glyphs of one run from `x0` on, and lowers `min_x` to the
/// smallest `x` among them.
pub fn place_run(run: &ShapedRun, x0: i64, y: i64, min_x: Option<i64>) -> (out: (
    Vec<PositionedGlyph>,
    Option<i64>,
))
    requires
        run.wf(),
        within(x0 as int, 0x1_0000_0000),
    ensures
        out.0@ == placed_glyphs(run.glyphs@, x0 as int, y as int),
        out.1 == min_glyph_x(out.0@, min_x),
{
    let mut glyphs: Vec<PositionedGlyph> = Vec::new();
    let mut low: Option<i64> = min_x;
    let mut acc: i64 = 0;
    let mut i: usize = 0;
    while i < run.glyphs.len()
        invariant
            run.wf(),
            within(x0 as int, 0x1_0000_0000),
            i <= run.glyphs@.len(),
            acc == advance_sum(run.glyphs@, i as int),
            within(acc as int, i as int * 0x8000_0000),
            glyphs@.len() == i,
            forall|j: int|
                0 <= j < i ==> #[trigger] glyphs@[j] == (PositionedGlyph {
                    id: run.glyphs@[j].id,
                    x: (x0 + advance_sum(run.glyphs@, j)) as i64,
                    y,
                }),
            low == min_glyph_x(glyphs@, min_x),
        decreases run.glyphs@.len() - i,
    {
        let g = run.glyphs[i];
        assert(in_limit(run.glyphs@[i as int].advance as int));
        assert(i * 0x8000_0000 <= 0x8000_0000 * 0x8000_0000) by (nonlinear_arith)
            requires
                0 <= i <= 0x8000_0000,
        ;
        let x: i64 = x0 + acc;
        let ghost before = glyphs@;
        glyphs.push(PositionedGlyph { id: g.id, x, y });
        assert(glyphs@.drop_last() =~= before);
        low = match low {
            Some(l) => if l <= x {
                Some(l)
            } else {
                Some(x)
            },
            None => Some(x),
        };
        acc = acc + g.advance;
        i += 1;
    }
    assert(glyphs@ =~= placed_glyphs(run.glyphs@, x0 as int, y as int));
    (glyphs, low)
}

/// Lays out a shaped text: appends one glyph run operation to the scene for
/// each run of the layout, line by line and left to right within a line, and
/// returns the measured box.
pub fn draw_text(scene: &mut Scene, layout: &Layout, transform: Affine, options: &TextOptions) -> (out:
    BoundingBox)
    requires
        layout.wf(),
        options.wf(),
    ensures
        appended_runs(
            old(scene)@,
            final(scene)@,
            layout_runs(layout, layout.lines@.len() as int, options, transform),
        ),
        out.x == measured_x(layout, options, transform),
        out.y == measured_y(layout, options),
        out.width == layout.width,
        out.height == layout.height,
        out == measured_box(layout, options, transform),
        final(scene).drawn() == old(scene).drawn() + unplaced(
            final(scene)@.subrange(old(scene)@.len() as int, final(scene)@.len() as int),
        ),
{
    let start: i64 = start_y(options, layout.height);
    let shift: i64 = match options.bbox {
        Some(b) => b.x,
        None => match options.alignment {
            Alignment::Center => -(layout.full_width / 2),
            Alignment::Right => -layout.full_width,
            _ => 0,
        },
    };
    let mut min_x: Option<i64> = None;
    let mut min_y: i64 = start;
    let mut run_y: i64 = start;
    let ghost mut runs: Seq<GlyphRunView> = Seq::empty();
    let mut k: usize = 0;
    while k < layout.lines.len()
        invariant
            layout.wf(),
            options.wf(),
            k <= layout.lines@.len(),
            start == vertical_start(options, layout.height as int),
            within(start as int, 0x1_8000_0000),
            shift == run_shift(options, layout.full_width as int),
            within(shift as int, 0x8000_0000),
            run_y == line_top(layout.lines@, start as int, k as int),
            within(heights_sum(layout.lines@, k as int), k as int * 0x8000_0000),
            min_y == min_top(layout.lines@, start as int, k as int),
            runs == layout_runs(layout, k as int, options, transform),
            appended_runs(old(scene)@, scene@, runs),
            min_x == min_run_x(runs),
        decreases layout.lines@.len() - k,
    {
        let line = &layout.lines[k];
        assert(line.wf());
        assert(layout.lines@[0].wf());
        assert(k as int * 0x8000_0000 <= 0x8000_0000 * 0x8000_0000) by (nonlinear_arith)
            requires
                0 <= k <= 0x8000_0000,
        ;
        if run_y < min_y {
            min_y = run_y;
        }
        run_y = run_y + line.line_height;
        if k == 0 {
            run_y = run_y - line.descent;
        }
        assert(run_y == baseline(layout.lines@, start as int, k as int));
        let ghost above = runs;
        let mut n: usize = 0;
        while n < line.items.len()
            invariant
                line.wf(),
                options.wf(),
                n <= line.items@.len(),
                within(shift as int, 0x8000_0000),
                runs == above + line_runs(
                    line.items@,
                    n as int,
                    options,
                    transform,
                    shift as int,
                    run_y as int,
                ),
                appended_runs(old(scene)@, scene@, runs),
                min_x == min_run_x(runs),
            decreases line.items@.len() - n,
        {
            assert(line.items@[n as int].wf());
            match &line.items[n] {
                LineItem::GlyphRun(run) => {
                    let x0: i64 = run.offset + shift;
                    let (glyphs, low) = place_run(run, x0, run_y, min_x);
                    let op = GlyphRun {
                        font: run.font,
                        font_size: options.font_size,
                        color: options.color,
                        transform,
                        glyphs,
                    };
                    let ghost placed = placed_run(run, options, transform, shift as int, run_y as int);
                    assert(op@ == placed);
                    let ghost earlier = line_runs(
                        line.items@,
                        n as int,
                        options,
                        transform,
                        shift as int,
                        run_y as int,
                    );
                    assert((above + earlier).push(placed) =~= above + earlier.push(placed));
                    assert(runs.push(placed).drop_last() =~= runs);
                    scene.draw_glyph_run(op);
                    proof {
                        runs = runs.push(placed);
                    }
                    min_x = low;
                },
                LineItem::InlineBox => {},
            }
            n += 1;
        }
        k += 1;
    }
    proof {
        let before = old(scene)@;
        let added = scene@.subrange(before.len() as int, scene@.len() as int);
        assert(scene@ =~= before + added);
        assert forall|i: int| 0 <= i < added.len() implies !((#[trigger] added[i]) is SubScene) by {
            assert(scene@[before.len() + i] is GlyphRun);
        }
        lemma_drawn_append(before, added);
    }
    let x: i64 = match min_x {
        Some(low) => low,
        None => shift,
    };
    BoundingBox { x, y: min_y, width: layout.width, height: layout.height }
}

} // verus!
