//! What holds of every layout: bounds on the measured box.

use vstd::prelude::*;
use crate::layout::{
    advance_sum, baseline, heights_sum, layout_runs, line_runs, line_top, measured_box, measured_x,
    measured_y, min_glyph_x, min_run_x, min_top, placed_glyphs, placed_run, run_shift,
    vertical_start,
};
use crate::prim::{half, Affine};
use crate::scene::{GlyphRunView, PositionedGlyph};
use crate::text::{
    in_limit, Alignment, Layout, Line, LineItem, ShapedRun, TextOptions, VerticalAlignment,
};

verus! {

/// Whether every glyph of every run stands at `bound` or to its right.
pub open spec fn runs_from(runs: Seq<GlyphRunView>, bound: int) -> bool {
    forall|j: int, i: int|
        0 <= j < runs.len() && 0 <= i < runs[j].glyphs.len() ==> bound <= (#[trigger] runs[j].glyphs[i]).x
}

/// Whether a run starts at or right of its line's left edge and no glyph
/// moves the pen to the left.
pub open spec fn run_flows_right(run: &ShapedRun) -> bool {
    &&& run.offset >= 0
    &&& forall|i: int| 0 <= i < run.glyphs@.len() ==> (#[trigger] run.glyphs@[i]).advance >= 0
}

/// Whether every run of the line flows right.
pub open spec fn line_flows_right(line: &Line) -> bool {
    forall|n: int|
        0 <= n < line.items@.len() ==> ((#[trigger] line.items@[n]) matches LineItem::GlyphRun(run)
            ==> run_flows_right(&run))
}

/// Whether every run of the layout flows right.
pub open spec fn flows_right(layout: &Layout) -> bool {
    forall|k: int| 0 <= k < layout.lines@.len() ==> line_flows_right(#[trigger] &layout.lines@[k])
}

/// Whether a glyph of a run stands at `x`.
pub open spec fn holds_glyph_at(runs: Seq<GlyphRunView>, x: i64) -> bool {
    exists|j: int, i: int|
        0 <= j < runs.len() && 0 <= i < runs[j].glyphs.len() && (#[trigger] runs[j].glyphs[i]).x == x
}

/// Whether no run holds a glyph.
pub open spec fn holds_no_glyph(runs: Seq<GlyphRunView>) -> bool {
    forall|j: int| 0 <= j < runs.len() ==> (#[trigger] runs[j]).glyphs.len() == 0
}

/// The smallest `x` of some glyphs and an earlier minimum: there is none
/// only where there are no glyphs and no earlier minimum; else nothing is
/// left of it, and it is the earlier minimum or the `x` of a glyph.
pub proof fn lemma_min_glyph_x(glyphs: Seq<PositionedGlyph>, low: Option<i64>)
    ensures
        match min_glyph_x(glyphs, low) {
            None => low is None && glyphs.len() == 0,
            Some(m) => {
                &&& low matches Some(l) ==> m <= l
                &&& forall|i: int| 0 <= i < glyphs.len() ==> m <= (#[trigger] glyphs[i]).x
                &&& low == Some(m) || exists|i: int|
                    0 <= i < glyphs.len() && (#[trigger] glyphs[i]).x == m
            },
        },
    decreases glyphs.len(),
{
    if glyphs.len() > 0 {
        let rest = glyphs.drop_last();
        lemma_min_glyph_x(rest, low);
        let m = min_glyph_x(glyphs, low)->0;
        assert forall|i: int| 0 <= i < glyphs.len() implies m <= (#[trigger] glyphs[i]).x by {
            if i < rest.len() {
                assert(rest[i] == glyphs[i]);
            }
        }
        if low != Some(m) {
            if m == glyphs.last().x {
                assert(glyphs[glyphs.len() - 1].x == m);
            } else {
                let i = choose|i: int| 0 <= i < rest.len() && (#[trigger] rest[i]).x == m;
                assert(glyphs[i].x == m);
            }
        }
    }
}

/// The smallest `x` of the glyphs of some runs: there is none only where
/// the runs hold no glyph; else no glyph stands left of it and a glyph
/// stands at it.
pub proof fn lemma_min_run_x(runs: Seq<GlyphRunView>)
    ensures
        match min_run_x(runs) {
            None => holds_no_glyph(runs),
            Some(m) => runs_from(runs, m as int) && holds_glyph_at(runs, m),
        },
    decreases runs.len(),
{
    if runs.len() > 0 {
        let rest = runs.drop_last();
        let inner = min_run_x(rest);
        lemma_min_run_x(rest);
        lemma_min_glyph_x(runs.last().glyphs, inner);
        match min_run_x(runs) {
            None => {
                assert forall|j: int| 0 <= j < runs.len() implies (#[trigger] runs[j]).glyphs.len()
                    == 0 by {
                    if j < rest.len() {
                        assert(rest[j] == runs[j]);
                    }
                }
            },
            Some(m) => {
                assert forall|j: int, i: int|
                    0 <= j < runs.len() && 0 <= i < runs[j].glyphs.len() implies m <= (
                #[trigger] runs[j].glyphs[i]).x by {
                    if j < rest.len() {
                        assert(rest[j] == runs[j]);
                        assert(inner is Some) by {
                            if inner is None {
                                assert(rest[j].glyphs.len() == 0);
                            }
                        }
                        assert(inner->0 <= rest[j].glyphs[i].x);
                    }
                }
                if inner == Some(m) {
                    let (j, i) = choose|j: int, i: int|
                        0 <= j < rest.len() && 0 <= i < rest[j].glyphs.len() && (
                        #[trigger] rest[j].glyphs[i]).x == m;
                    assert(rest[j] == runs[j]);
                    assert(runs[j].glyphs[i].x == m);
                } else {
                    let last = runs.last().glyphs;
                    let i = choose|i: int| 0 <= i < last.len() && (#[trigger] last[i]).x == m;
                    assert(runs[runs.len() - 1].glyphs[i].x == m);
                }
            },
        }
    }
}

/// Within the accepted lengths the advances of the first `i` glyphs of a run
/// add up to no more than `i` times the limit, either way.
pub proof fn lemma_advance_sum_within(run: &ShapedRun, i: int)
    requires
        run.wf(),
        0 <= i <= run.glyphs@.len(),
    ensures
        -i * 0x8000_0000 <= advance_sum(run.glyphs@, i) <= i * 0x8000_0000,
        i * 0x8000_0000 <= 0x8000_0000 * 0x8000_0000,
    decreases i,
{
    assert(i * 0x8000_0000 <= 0x8000_0000 * 0x8000_0000) by (nonlinear_arith)
        requires
            0 <= i <= 0x8000_0000,
    ;
    if i > 0 {
        lemma_advance_sum_within(run, i - 1);
        assert(in_limit(run.glyphs@[i - 1].advance as int));
    }
}

proof fn lemma_advance_sum_bounds(run: &ShapedRun, i: int)
    requires
        run.wf(),
        run_flows_right(run),
        0 <= i <= run.glyphs@.len(),
    ensures
        0 <= advance_sum(run.glyphs@, i) <= i * 0x8000_0000,
    decreases i,
{
    if i > 0 {
        lemma_advance_sum_bounds(run, i - 1);
        assert(in_limit(run.glyphs@[i - 1].advance as int));
        assert(run.glyphs@[i - 1].advance >= 0);
    }
}

/// Within the accepted lengths the heights of the first `k` lines add up to
/// no more than `k` times the limit, either way.
pub proof fn lemma_heights_sum_within(layout: &Layout, k: int)
    requires
        layout.wf(),
        0 <= k <= layout.lines@.len(),
    ensures
        -k * 0x8000_0000 <= heights_sum(layout.lines@, k) <= k * 0x8000_0000,
        k * 0x8000_0000 <= 0x8000_0000 * 0x8000_0000,
    decreases k,
{
    assert(k * 0x8000_0000 <= 0x8000_0000 * 0x8000_0000) by (nonlinear_arith)
        requires
            0 <= k <= 0x8000_0000,
    ;
    if k > 0 {
        lemma_heights_sum_within(layout, k - 1);
        assert(layout.lines@[k - 1].wf());
    }
}

/// Positions are exact: within the accepted lengths no sum leaves the range
/// of the numbers it is kept in. Glyph `i` of a run on line `k` stands at the
/// run's offset, moved by the shift that the options ask for and by the
/// advances of the glyphs before it, on the baseline of its line.
pub proof fn lemma_positions_exact(
    layout: &Layout,
    options: &TextOptions,
    transform: Affine,
    k: int,
    run: &ShapedRun,
    i: int,
)
    requires
        layout.wf(),
        options.wf(),
        run.wf(),
        0 <= k < layout.lines@.len(),
        0 <= i < run.glyphs@.len(),
    ensures
        ({
            let shift = run_shift(options, layout.full_width as int);
            let y = baseline(layout.lines@, vertical_start(options, layout.height as int), k);
            let placed = placed_run(run, options, transform, shift, y);
            &&& placed.glyphs.len() == run.glyphs@.len()
            &&& placed.glyphs[i].id == run.glyphs@[i].id
            &&& placed.glyphs[i].x == run.offset + shift + advance_sum(run.glyphs@, i)
            &&& placed.glyphs[i].y == y
        }),
{
    lemma_advance_sum_within(run, i);
    lemma_heights_sum_within(layout, k + 1);
    assert(layout.lines@[0].wf());
}

proof fn lemma_placed_from(run: &ShapedRun, x0: int, y: int)
    requires
        run.wf(),
        run_flows_right(run),
        -0x1_0000_0000 <= x0 <= 0x1_0000_0000,
    ensures
        forall|i: int|
            0 <= i < run.glyphs@.len() ==> x0 <= (#[trigger] placed_glyphs(run.glyphs@, x0, y)[i]).x,
{
    assert forall|i: int| 0 <= i < run.glyphs@.len() implies x0 <= (#[trigger] placed_glyphs(
        run.glyphs@,
        x0,
        y,
    )[i]).x by {
        lemma_advance_sum_bounds(run, i);
        assert(i * 0x8000_0000 <= 0x8000_0000 * 0x8000_0000) by (nonlinear_arith)
            requires
                0 <= i <= 0x8000_0000,
        ;
    }
}

proof fn lemma_line_runs_from(
    line: &Line,
    n: int,
    options: &TextOptions,
    transform: Affine,
    shift: int,
    y: int,
)
    requires
        line.wf(),
        line_flows_right(line),
        in_limit(shift),
        0 <= n <= line.items@.len(),
    ensures
        runs_from(line_runs(line.items@, n, options, transform, shift, y), shift),
    decreases n,
{
    if n > 0 {
        lemma_line_runs_from(line, n - 1, options, transform, shift, y);
        let before = line_runs(line.items@, n - 1, options, transform, shift, y);
        let all = line_runs(line.items@, n, options, transform, shift, y);
        let item = line.items@[n - 1];
        assert(item.wf());
        match item {
            LineItem::GlyphRun(run) => {
                lemma_placed_from(&run, run.offset + shift, y);
                assert forall|j: int, i: int| 0 <= j < all.len() && 0 <= i < all[j].glyphs.len() implies shift
                    <= (#[trigger] all[j].glyphs[i]).x by {
                    if j < before.len() {
                        assert(all[j] == before[j]);
                        assert(shift <= before[j].glyphs[i].x);
                    } else {
                        assert(all[j].glyphs == placed_glyphs(run.glyphs@, run.offset + shift, y));
                        assert(run.offset + shift <= placed_glyphs(run.glyphs@, run.offset + shift, y)[i].x);
                    }
                }
            },
            LineItem::InlineBox => {},
        }
    }
}

/// In a layout whose runs flow right, no glyph stands left of the shift that
/// the options ask for.
pub proof fn lemma_layout_runs_from(layout: &Layout, k: int, options: &TextOptions, transform: Affine)
    requires
        layout.wf(),
        options.wf(),
        flows_right(layout),
        0 <= k <= layout.lines@.len(),
    ensures
        runs_from(
            layout_runs(layout, k, options, transform),
            run_shift(options, layout.full_width as int),
        ),
    decreases k,
{
    let shift = run_shift(options, layout.full_width as int);
    if k > 0 {
        lemma_layout_runs_from(layout, k - 1, options, transform);
        let line = &layout.lines@[k - 1];
        assert(line.wf());
        let y = baseline(
            layout.lines@,
            vertical_start(options, layout.height as int),
            k - 1,
        );
        lemma_line_runs_from(line, line.items@.len() as int, options, transform, shift, y);
        let before = layout_runs(layout, k - 1, options, transform);
        let here = line_runs(line.items@, line.items@.len() as int, options, transform, shift, y);
        let all = layout_runs(layout, k, options, transform);
        assert(all == before + here);
        assert forall|j: int, i: int| 0 <= j < all.len() && 0 <= i < all[j].glyphs.len() implies shift <= (
        #[trigger] all[j].glyphs[i]).x by {
            if j < before.len() {
                assert(all[j] == before[j]);
                assert(shift <= before[j].glyphs[i].x);
            } else {
                assert(all[j] == here[j - before.len()]);
                assert(shift <= here[j - before.len()].glyphs[i].x);
            }
        }
    }
}

proof fn lemma_line_runs_hold(
    line: &Line,
    n: int,
    at: int,
    options: &TextOptions,
    transform: Affine,
    shift: int,
    y: int,
)
    requires
        0 <= at < n <= line.items@.len(),
        line.items@[at] is GlyphRun,
    ensures
        exists|j: int|
            0 <= j < line_runs(line.items@, n, options, transform, shift, y).len() && (
            #[trigger] line_runs(line.items@, n, options, transform, shift, y)[j]) == placed_run(
                &line.items@[at]->0,
                options,
                transform,
                shift,
                y,
            ),
    decreases n,
{
    let all = line_runs(line.items@, n, options, transform, shift, y);
    let before = line_runs(line.items@, n - 1, options, transform, shift, y);
    let wanted = placed_run(&line.items@[at]->0, options, transform, shift, y);
    if at == n - 1 {
        assert(all[before.len() as int] == wanted);
    } else {
        lemma_line_runs_hold(line, n - 1, at, options, transform, shift, y);
        let j = choose|j: int| 0 <= j < before.len() && (#[trigger] before[j]) == wanted;
        assert(all[j] == wanted);
    }
}

proof fn lemma_layout_runs_hold(
    layout: &Layout,
    n: int,
    k: int,
    at: int,
    options: &TextOptions,
    transform: Affine,
)
    requires
        0 <= k < n <= layout.lines@.len(),
        0 <= at < layout.lines@[k].items@.len(),
        layout.lines@[k].items@[at] is GlyphRun,
    ensures
        exists|j: int|
            0 <= j < layout_runs(layout, n, options, transform).len() && (#[trigger] layout_runs(
                layout,
                n,
                options,
                transform,
            )[j]) == placed_run(
                &layout.lines@[k].items@[at]->0,
                options,
                transform,
                run_shift(options, layout.full_width as int),
                baseline(layout.lines@, vertical_start(options, layout.height as int), k),
            ),
    decreases n,
{
    let shift = run_shift(options, layout.full_width as int);
    let start = vertical_start(options, layout.height as int);
    let all = layout_runs(layout, n, options, transform);
    let before = layout_runs(layout, n - 1, options, transform);
    let wanted = placed_run(
        &layout.lines@[k].items@[at]->0,
        options,
        transform,
        shift,
        baseline(layout.lines@, start, k),
    );
    if k == n - 1 {
        let line = &layout.lines@[k];
        let here = line_runs(
            line.items@,
            line.items@.len() as int,
            options,
            transform,
            shift,
            baseline(layout.lines@, start, k),
        );
        lemma_line_runs_hold(
            line,
            line.items@.len() as int,
            at,
            options,
            transform,
            shift,
            baseline(layout.lines@, start, k),
        );
        let j = choose|j: int| 0 <= j < here.len() && (#[trigger] here[j]) == wanted;
        assert(all[before.len() + j] == wanted);
    } else {
        lemma_layout_runs_hold(layout, n - 1, k, at, options, transform);
        let j = choose|j: int| 0 <= j < before.len() && (#[trigger] before[j]) == wanted;
        assert(all[j] == wanted);
    }
}

/// Whether item `at` of line `k` is a run with a glyph that starts at the
/// left edge of its line.
pub open spec fn starts_at_edge(layout: &Layout, k: int, at: int) -> bool {
    &&& 0 <= k < layout.lines@.len()
    &&& 0 <= at < layout.lines@[k].items@.len()
    &&& layout.lines@[k].items@[at] matches LineItem::GlyphRun(run)
    &&& run.offset == 0
    &&& run.glyphs@.len() > 0
}

/// In a layout whose runs flow right, the measured box begins at the anchor
/// or right of it.
pub proof fn lemma_measured_from_anchor(layout: &Layout, options: &TextOptions, transform: Affine)
    requires
        layout.wf(),
        options.wf(),
        flows_right(layout),
    ensures
        measured_x(layout, options, transform) >= run_shift(options, layout.full_width as int),
{
    let n = layout.lines@.len() as int;
    lemma_layout_runs_from(layout, n, options, transform);
    lemma_min_run_x(layout_runs(layout, n, options, transform));
}

/// In a layout whose runs flow right and in which a run with a glyph starts
/// at the left edge of its line, the measured box begins at the anchor: at
/// the left edge of the region where there is one.
pub proof fn lemma_measured_at_anchor(
    layout: &Layout,
    options: &TextOptions,
    transform: Affine,
    k: int,
    at: int,
)
    requires
        layout.wf(),
        options.wf(),
        flows_right(layout),
        starts_at_edge(layout, k, at),
    ensures
        measured_x(layout, options, transform) == run_shift(options, layout.full_width as int),
        options.bbox matches Some(b) ==> measured_x(layout, options, transform) == b.x,
{
    let n = layout.lines@.len() as int;
    let shift = run_shift(options, layout.full_width as int);
    let runs = layout_runs(layout, n, options, transform);
    let run = layout.lines@[k].items@[at]->0;
    lemma_layout_runs_from(layout, n, options, transform);
    lemma_min_run_x(runs);
    lemma_layout_runs_hold(layout, n, k, at, options, transform);
    let y = baseline(layout.lines@, vertical_start(options, layout.height as int), k);
    let wanted = placed_run(&run, options, transform, shift, y);
    let j = choose|j: int| 0 <= j < runs.len() && (#[trigger] runs[j]) == wanted;
    assert(layout.lines@[k].wf());
    assert(layout.lines@[k].items@[at].wf());
    lemma_positions_exact(layout, options, transform, k, &run, 0);
    assert(runs[j].glyphs[0].x == shift);
    assert(min_run_x(runs) is Some) by {
        if min_run_x(runs) is None {
            assert(runs[j].glyphs.len() == 0);
        }
    }
}

/// Text without a region that is aligned to the left is measured from zero
/// or right of it, and from zero where a run with a glyph starts at the left
/// edge of its line. Its measured width is the natural width of the layout.
pub proof fn lemma_left_aligned(layout: &Layout, options: &TextOptions, transform: Affine)
    requires
        layout.wf(),
        options.wf(),
        flows_right(layout),
        options.bbox is None,
        options.alignment == Alignment::Left,
    ensures
        measured_x(layout, options, transform) >= 0,
        runs_from(layout_runs(layout, layout.lines@.len() as int, options, transform), 0),
        forall|k: int, at: int| #[trigger]
            starts_at_edge(layout, k, at) ==> measured_x(layout, options, transform) == 0,
        measured_box(layout, options, transform).width == layout.width,
{
    lemma_measured_from_anchor(layout, options, transform);
    lemma_layout_runs_from(layout, layout.lines@.len() as int, options, transform);
    assert forall|k: int, at: int| #[trigger] starts_at_edge(layout, k, at) implies measured_x(
        layout,
        options,
        transform,
    ) == 0 by {
        lemma_measured_at_anchor(layout, options, transform, k, at);
    }
}

/// Where the natural width of a layout is what the glyphs of its one run
/// advance, the measured width of left-aligned text without a region is the
/// sum of the advances, and the box begins at zero.
pub proof fn lemma_width_is_advance(layout: &Layout, options: &TextOptions, transform: Affine)
    requires
        layout.wf(),
        options.wf(),
        flows_right(layout),
        options.bbox is None,
        options.alignment == Alignment::Left,
        starts_at_edge(layout, 0, 0),
        layout.width == advance_sum(
            layout.lines@[0].items@[0]->0.glyphs@,
            layout.lines@[0].items@[0]->0.glyphs@.len() as int,
        ),
    ensures
        measured_box(layout, options, transform).x == 0,
        measured_box(layout, options, transform).width == advance_sum(
            layout.lines@[0].items@[0]->0.glyphs@,
            layout.lines@[0].items@[0]->0.glyphs@.len() as int,
        ),
{
    lemma_measured_at_anchor(layout, options, transform, 0, 0);
}

/// Text without a region that is centred lies around zero: its measured box
/// begins half the full width of the layout left of zero or right of that,
/// and exactly there where a run with a glyph starts at the left edge of
/// its line.
pub proof fn lemma_centered(layout: &Layout, options: &TextOptions, transform: Affine)
    requires
        layout.wf(),
        options.wf(),
        flows_right(layout),
        options.bbox is None,
        options.alignment == Alignment::Center,
    ensures
        measured_x(layout, options, transform) >= -half(layout.full_width as int),
        forall|k: int, at: int| #[trigger]
            starts_at_edge(layout, k, at) ==> measured_x(layout, options, transform) == -half(
                layout.full_width as int,
            ),
        forall|k: int, at: int| #[trigger]
            starts_at_edge(layout, k, at) && layout.full_width == layout.width ==> measured_x(
                layout,
                options,
                transform,
            ) == -half(layout.width as int),
{
    lemma_measured_from_anchor(layout, options, transform);
    assert forall|k: int, at: int| #[trigger] starts_at_edge(layout, k, at) implies measured_x(
        layout,
        options,
        transform,
    ) == -half(layout.full_width as int) by {
        lemma_measured_at_anchor(layout, options, transform, k, at);
    }
}

/// A block that is centred in a region it fits in starts half the free
/// height below the top of the region.
pub proof fn lemma_centered_in_region(options: &TextOptions, content_height: int)
    requires
        options.bbox is Some,
        options.vertical_alignment == VerticalAlignment::Center,
        content_height <= options.bbox->0.height,
    ensures
        vertical_start(options, content_height) == options.bbox->0.y + half(
            options.bbox->0.height - content_height,
        ),
{
}

/// Whether no line has a negative height and the first line does not
/// descend further than it is high.
pub open spec fn lines_go_down(layout: &Layout) -> bool {
    &&& forall|k: int| 0 <= k < layout.lines@.len() ==> (#[trigger] layout.lines@[k]).line_height >= 0
    &&& layout.lines@.len() > 0 ==> layout.lines@[0].descent <= layout.lines@[0].line_height
}

proof fn lemma_tops_go_down(layout: &Layout, start: int, k: int)
    requires
        lines_go_down(layout),
        0 <= k <= layout.lines@.len(),
    ensures
        k >= 1 ==> heights_sum(layout.lines@, k) >= layout.lines@[0].line_height,
        line_top(layout.lines@, start, k) >= start,
        min_top(layout.lines@, start, k) == start,
    decreases k,
{
    if k > 0 {
        lemma_tops_go_down(layout, start, k - 1);
        assert(layout.lines@[k - 1].line_height >= 0);
        if k == 1 {
            assert(heights_sum(layout.lines@, 0) == 0);
        }
    }
}

/// Where the lines go down, the measured box begins at the top of the first
/// line: for a block centred in a region it fits in, half the free height
/// below the top of the region.
pub proof fn lemma_top_is_start(layout: &Layout, options: &TextOptions)
    requires
        lines_go_down(layout),
    ensures
        measured_y(layout, options) == vertical_start(options, layout.height as int),
        options.bbox matches Some(b) ==> (options.vertical_alignment == VerticalAlignment::Center
            && layout.height <= b.height ==> measured_y(layout, options) == b.y + half(
            b.height - layout.height,
        )),
{
    lemma_tops_go_down(
        layout,
        vertical_start(options, layout.height as int),
        layout.lines@.len() as int,
    );
}

/// The layout of the empty string asks for no draw operation, and its
/// measured box has no extent and stands at the anchor: at the left edge of
/// the region, or at zero without one, and at the start of the first line.
pub proof fn lemma_empty_text(layout: &Layout, options: &TextOptions, transform: Affine)
    requires
        layout.is_empty(),
    ensures
        layout_runs(layout, layout.lines@.len() as int, options, transform) == Seq::<
            GlyphRunView,
        >::empty(),
        measured_box(layout, options, transform).width == 0,
        measured_box(layout, options, transform).height == 0,
        measured_x(layout, options, transform) == (match options.bbox {
            Some(b) => b.x as int,
            None => 0,
        }),
        measured_y(layout, options) == vertical_start(options, 0),
{
}

} // verus!
