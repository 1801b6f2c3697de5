//! The retained scene: an ordered list of draw operations.
//!
//! Later operations paint over earlier ones, so the order of the list is the
//! order of the calls that filled it.

use vstd::prelude::*;
use crate::color::Color;
use crate::image::Image;
use crate::layout::{
    appended_runs, draw_text, layout_runs, measured_box, measured_x, measured_y,
};
use crate::prim::{Affine, BoundingBox};
use crate::shapes::{copy_vec, Shape, ShapeView};
use crate::text::{Layout, TextOptions};

verus! {

/// A glyph of a font, placed with its origin at `(x, y)`.
#[derive(Clone, Copy, Debug, PartialEq, Eq, Structural)]
pub struct PositionedGlyph {
    pub id: u32,
    pub x: i64,
    pub y: i64,
}

/// Glyphs of one font that are drawn with one paint.
#[derive(Clone, Debug, PartialEq, Eq)]
pub struct GlyphRun {
    /// The font, as the shaper numbered it.
    pub font: u64,
    pub font_size: i64,
    /// The paint; `None` stands for the rasterizer's default paint.
    pub color: Option<Color>,
    pub transform: Affine,
    pub glyphs: Vec<PositionedGlyph>,
}

/// What a glyph run holds, its glyphs as a sequence.
pub struct GlyphRunView {
    pub font: u64,
    pub font_size: i64,
    pub color: Option<Color>,
    pub transform: Affine,
    pub glyphs: Seq<PositionedGlyph>,
}

impl View for GlyphRun {
    type V = GlyphRunView;

    open spec fn view(&self) -> GlyphRunView {
        GlyphRunView {
            font: self.font,
            font_size: self.font_size,
            color: self.color,
            transform: self.transform,
            glyphs: self.glyphs@,
        }
    }
}

/// One draw operation. Each carries its own transform and paint.
#[derive(Debug, PartialEq, Eq)]
pub enum DrawOp {
    /// Fill a shape by the non-zero rule.
    Fill { color: Color, transform: Affine, shape: Shape },
    /// Stroke the outline of a shape with a line of the given width.
    Stroke { width: i64, color: Color, transform: Affine, shape: Shape },
    /// Draw an image with its top left corner at the origin.
    Image { image: Image, transform: Affine },
    /// Draw all operations of another scene under one more transform, which
    /// is applied after each operation's own.
    SubScene { scene: Scene, transform: Affine },
    /// Draw a run of glyphs.
    GlyphRun(GlyphRun),
}

/// An ordered list of draw operations.
#[derive(Debug, PartialEq, Eq)]
pub struct Scene {
    pub ops: Vec<DrawOp>,
}

impl View for Scene {
    type V = Seq<DrawOp>;

    open spec fn view(&self) -> Seq<DrawOp> {
        self.ops@
    }
}

impl Scene {
    /// What the scene draws, first to last.
    pub open spec fn drawn(&self) -> Seq<Placed> {
        drawn(self.ops@, self.ops@.len() as int)
    }

    /// A scene without operations.
    pub fn new() -> (out: Scene)
        ensures
            out@ == Seq::<DrawOp>::empty(),
            out.drawn() == Seq::<Placed>::empty(),
    {
        Scene { ops: Vec::new() }
    }

    /// Drops every operation. The scene is then what `new` returns.
    pub fn clear(&mut self)
        ensures
            final(self)@ == Seq::<DrawOp>::empty(),
            final(self).drawn() == Seq::<Placed>::empty(),
    {
        self.ops.clear();
    }

    /// Appends one fill.
    pub fn fill(&mut self, color: Color, transform: Affine, shape: Shape)
        ensures
            final(self)@ == old(self)@.push(DrawOp::Fill { color, transform, shape }),
            final(self).drawn() == old(self).drawn().push(
                Placed { op: DrawOp::Fill { color, transform, shape }, under: Seq::empty() },
            ),
    {
        proof {
            lemma_drawn_push(self.ops@, DrawOp::Fill { color, transform, shape });
        }
        self.ops.push(DrawOp::Fill { color, transform, shape });
    }

    /// Appends one stroke.
    pub fn stroke(&mut self, stroke_width: i64, color: Color, transform: Affine, shape: Shape)
        ensures
            final(self)@ == old(self)@.push(
                DrawOp::Stroke { width: stroke_width, color, transform, shape },
            ),
            final(self).drawn() == old(self).drawn().push(
                Placed {
                    op: DrawOp::Stroke { width: stroke_width, color, transform, shape },
                    under: Seq::empty(),
                },
            ),
    {
        proof {
            lemma_drawn_push(
                self.ops@,
                DrawOp::Stroke { width: stroke_width, color, transform, shape },
            );
        }
        self.ops.push(DrawOp::Stroke { width: stroke_width, color, transform, shape });
    }

    /// Appends one image.
    pub fn draw_image(&mut self, image: Image, transform: Affine)
        ensures
            final(self)@ == old(self)@.push(DrawOp::Image { image, transform }),
            final(self).drawn() == old(self).drawn().push(
                Placed { op: DrawOp::Image { image, transform }, under: Seq::empty() },
            ),
    {
        proof {
            lemma_drawn_push(self.ops@, DrawOp::Image { image, transform });
        }
        self.ops.push(DrawOp::Image { image, transform });
    }

    /// Appends another scene as one operation. What is drawn is what that
    /// scene draws, each operation under `transform` after its own
    /// transforms.
    pub fn draw_scene(&mut self, scene: Scene, transform: Affine)
        ensures
            final(self)@ == old(self)@.push(DrawOp::SubScene { scene, transform }),
            final(self).drawn() == old(self).drawn() + placed_under(scene.drawn(), transform),
    {
        proof {
            lemma_drawn_push(self.ops@, DrawOp::SubScene { scene, transform });
        }
        self.ops.push(DrawOp::SubScene { scene, transform });
    }

    /// Appends one run of glyphs.
    pub fn draw_glyph_run(&mut self, run: GlyphRun)
        ensures
            final(self)@ == old(self)@.push(DrawOp::GlyphRun(run)),
            final(self).drawn() == old(self).drawn().push(
                Placed { op: DrawOp::GlyphRun(run), under: Seq::empty() },
            ),
    {
        proof {
            lemma_drawn_push(self.ops@, DrawOp::GlyphRun(run));
        }
        self.ops.push(DrawOp::GlyphRun(run));
    }

    /// Appends the glyph runs of a shaped text and returns its measured box.
    pub fn draw_text(&mut self, layout: &Layout, transform: Affine, options: &TextOptions) -> (out:
        BoundingBox)
        requires
            layout.wf(),
            options.wf(),
        ensures
            appended_runs(
                old(self)@,
                final(self)@,
                layout_runs(layout, layout.lines@.len() as int, options, transform),
            ),
            out == measured_box(layout, options, transform),
            out.x == measured_x(layout, options, transform),
            out.y == measured_y(layout, options),
            out.width == layout.width,
            out.height == layout.height,
            final(self).drawn() == old(self).drawn() + unplaced(
                final(self)@.subrange(old(self)@.len() as int, final(self)@.len() as int),
            ),
    {
        draw_text(self, layout, transform, options)
    }
}

/// Operations stay in the order in which they were appended, the later one
/// after, and so over, the earlier one; two different operations appended in
/// the other order give another scene.
pub proof fn lemma_order_is_kept(ops: Seq<DrawOp>, a: DrawOp, b: DrawOp)
    ensures
        ops.push(a).push(b).len() == ops.len() + 2,
        ops.push(a).push(b)[ops.len() as int] == a,
        ops.push(a).push(b)[ops.len() as int + 1] == b,
        forall|i: int| 0 <= i < ops.len() ==> ops.push(a).push(b)[i] == ops[i],
        a != b ==> ops.push(a).push(b) != ops.push(b).push(a),
{
    if a != b {
        assert(ops.push(a).push(b)[ops.len() as int] != ops.push(b).push(a)[ops.len() as int]);
    }
}

/// A drawing operation as it reaches the rasterizer: the operation itself
/// and the transforms of the scenes it was appended through, the outermost
/// first. The operation's own transform acts first, then the innermost of
/// these, and the outermost last.
pub struct Placed {
    pub op: DrawOp,
    pub under: Seq<Affine>,
}

/// The operations with one more transform around them.
pub open spec fn placed_under(placed: Seq<Placed>, transform: Affine) -> Seq<Placed> {
    Seq::new(
        placed.len(),
        |i: int| Placed { op: placed[i].op, under: seq![transform] + placed[i].under },
    )
}

/// What the first `n` operations draw, in order: each drawing operation
/// once, and in place of each scene that was appended what that scene draws,
/// under the transform it was appended with.
pub open spec fn drawn(ops: Seq<DrawOp>, n: int) -> Seq<Placed>
    decreases ops, n,
{
    if n <= 0 || n > ops.len() {
        Seq::empty()
    } else {
        let before = drawn(ops, n - 1);
        match ops[n - 1] {
            DrawOp::SubScene { scene, transform } => before + placed_under(
                drawn(scene.ops@, scene.ops@.len() as int),
                transform,
            ),
            op => before.push(Placed { op, under: Seq::empty() }),
        }
    }
}

/// What the first `n` operations draw does not depend on what comes after
/// them.
pub proof fn lemma_drawn_prefix(ops: Seq<DrawOp>, more: Seq<DrawOp>, n: int)
    requires
        0 <= n <= ops.len(),
    ensures
        drawn(ops + more, n) == drawn(ops, n),
    decreases n,
{
    if n > 0 {
        lemma_drawn_prefix(ops, more, n - 1);
        assert((ops + more)[n - 1] == ops[n - 1]);
    }
}

/// Appending an operation that draws adds it, under no transform, after
/// what was drawn before. Appending a scene adds what that scene draws,
/// in its order and under the transform it was appended with, after what was
/// drawn before.
pub proof fn lemma_drawn_push(ops: Seq<DrawOp>, op: DrawOp)
    ensures
        drawn(ops.push(op), ops.len() as int + 1) == (match op {
            DrawOp::SubScene { scene, transform } => drawn(ops, ops.len() as int) + placed_under(
                drawn(scene.ops@, scene.ops@.len() as int),
                transform,
            ),
            _ => drawn(ops, ops.len() as int).push(Placed { op, under: Seq::empty() }),
        }),
{
    assert(ops.push(op) =~= ops + seq![op]);
    lemma_drawn_prefix(ops, seq![op], ops.len() as int);
}

/// The operations, each under no transform.
pub open spec fn unplaced(ops: Seq<DrawOp>) -> Seq<Placed> {
    Seq::new(ops.len(), |i: int| Placed { op: ops[i], under: Seq::empty() })
}

/// Appending operations that draw adds them, in their order and under no
/// transform, after what was drawn before.
pub proof fn lemma_drawn_append(ops: Seq<DrawOp>, more: Seq<DrawOp>)
    requires
        forall|i: int| 0 <= i < more.len() ==> !((#[trigger] more[i]) is SubScene),
    ensures
        drawn(ops + more, (ops + more).len() as int) == drawn(ops, ops.len() as int) + unplaced(
            more,
        ),
    decreases more.len(),
{
    if more.len() == 0 {
        assert(ops + more =~= ops);
        assert(drawn(ops, ops.len() as int) + unplaced(more) =~= drawn(ops, ops.len() as int));
    } else {
        let rest = more.drop_last();
        let last = more.last();
        lemma_drawn_append(ops, rest);
        lemma_drawn_push(ops + rest, last);
        assert((ops + rest).push(last) =~= ops + more);
        assert(more[more.len() - 1] == last);
        assert(unplaced(rest).push(Placed { op: last, under: Seq::empty() }) =~= unplaced(more));
        assert((drawn(ops, ops.len() as int) + unplaced(rest)).push(
            Placed { op: last, under: Seq::empty() },
        ) =~= drawn(ops, ops.len() as int) + unplaced(more));
    }
}

/// What a draw operation holds, every list in it as a sequence.
pub enum DrawOpView {
    Fill { color: Color, transform: Affine, shape: ShapeView },
    Stroke { width: i64, color: Color, transform: Affine, shape: ShapeView },
    Image { rgba: Seq<u8>, width: u32, height: u32, transform: Affine },
    SubScene { ops: Seq<DrawOpView>, transform: Affine },
    GlyphRun(GlyphRunView),
}

/// What the first `n` operations hold.
pub open spec fn ops_view(ops: Seq<DrawOp>, n: int) -> Seq<DrawOpView>
    decreases ops, n,
{
    if n <= 0 || n > ops.len() {
        Seq::empty()
    } else {
        ops_view(ops, n - 1).push(
            match ops[n - 1] {
                DrawOp::Fill { color, transform, shape } => DrawOpView::Fill {
                    color,
                    transform,
                    shape: shape@,
                },
                DrawOp::Stroke { width, color, transform, shape } => DrawOpView::Stroke {
                    width,
                    color,
                    transform,
                    shape: shape@,
                },
                DrawOp::Image { image, transform } => DrawOpView::Image {
                    rgba: image.rgba@,
                    width: image.width,
                    height: image.height,
                    transform,
                },
                DrawOp::SubScene { scene, transform } => DrawOpView::SubScene {
                    ops: ops_view(scene.ops@, scene.ops@.len() as int),
                    transform,
                },
                DrawOp::GlyphRun(run) => DrawOpView::GlyphRun(run@),
            },
        )
    }
}

/// What one operation holds.
pub open spec fn op_view(op: DrawOp) -> DrawOpView {
    ops_view(seq![op], 1)[0]
}

/// What the first `n` operations hold does not depend on what comes after
/// them, and is one view for each of them.
pub proof fn lemma_ops_view_prefix(ops: Seq<DrawOp>, more: Seq<DrawOp>, n: int)
    requires
        0 <= n <= ops.len(),
    ensures
        ops_view(ops + more, n) == ops_view(ops, n),
        ops_view(ops, n).len() == n,
    decreases n,
{
    if n > 0 {
        lemma_ops_view_prefix(ops, more, n - 1);
        assert((ops + more)[n - 1] == ops[n - 1]);
    }
}

/// What a list of operations holds after one more: what it held, and what
/// that one holds.
pub proof fn lemma_ops_view_push(ops: Seq<DrawOp>, op: DrawOp)
    ensures
        ops_view(ops.push(op), ops.len() as int + 1) == ops_view(ops, ops.len() as int).push(
            op_view(op),
        ),
{
    assert(ops.push(op) =~= ops + seq![op]);
    lemma_ops_view_prefix(ops, seq![op], ops.len() as int);
    assert(ops_view(seq![op], 0) =~= Seq::<DrawOpView>::empty());
    assert(seq![op][0] == op);
    assert(ops.push(op)[ops.len() as int] == op);
}

/// A copy of one operation.
pub fn copy_op(op: &DrawOp) -> (out: DrawOp)
    ensures
        op_view(out) == op_view(*op),
    decreases op,
{
    let out = match op {
        DrawOp::Fill { color, transform, shape } => DrawOp::Fill {
            color: *color,
            transform: *transform,
            shape: shape.copy(),
        },
        DrawOp::Stroke { width, color, transform, shape } => DrawOp::Stroke {
            width: *width,
            color: *color,
            transform: *transform,
            shape: shape.copy(),
        },
        DrawOp::Image { image, transform } => DrawOp::Image {
            image: Image { rgba: copy_vec(&image.rgba), width: image.width, height: image.height },
            transform: *transform,
        },
        DrawOp::SubScene { scene, transform } => DrawOp::SubScene {
            scene: Scene { ops: copy_ops(&scene.ops) },
            transform: *transform,
        },
        DrawOp::GlyphRun(run) => DrawOp::GlyphRun(
            GlyphRun {
                font: run.font,
                font_size: run.font_size,
                color: run.color,
                transform: run.transform,
                glyphs: copy_vec(&run.glyphs),
            },
        ),
    };
    assert(ops_view(seq![out], 0) =~= ops_view(seq![*op], 0));
    assert(seq![out][0] == out && seq![*op][0] == *op);
    out
}

/// A copy of a list of operations.
pub fn copy_ops(ops: &Vec<DrawOp>) -> (out: Vec<DrawOp>)
    ensures
        out@.len() == ops@.len(),
        ops_view(out@, out@.len() as int) == ops_view(ops@, ops@.len() as int),
    decreases ops,
{
    let mut out: Vec<DrawOp> = Vec::new();
    let mut i: usize = 0;
    while i < ops.len()
        invariant
            i <= ops@.len(),
            out@.len() == i,
            ops_view(out@, i as int) == ops_view(ops@, i as int),
        decreases ops@.len() - i,
    {
        let copied = copy_op(&ops[i]);
        proof {
            lemma_ops_view_push(out@, copied);
            lemma_ops_view_push(ops@.subrange(0, i as int), ops@[i as int]);
            assert(ops@.subrange(0, i as int).push(ops@[i as int]) =~= ops@.subrange(0, i + 1));
            assert(ops@ =~= ops@.subrange(0, i as int) + ops@.subrange(i as int, ops@.len() as int));
            lemma_ops_view_prefix(
                ops@.subrange(0, i as int),
                ops@.subrange(i as int, ops@.len() as int),
                i as int,
            );
            assert(ops@ =~= ops@.subrange(0, i + 1) + ops@.subrange(i + 1, ops@.len() as int));
            lemma_ops_view_prefix(
                ops@.subrange(0, i + 1),
                ops@.subrange(i + 1, ops@.len() as int),
                i + 1,
            );
        }
        out.push(copied);
        i += 1;
    }
    out
}

impl Clone for DrawOp {
    /// A copy that holds what the operation holds.
    fn clone(&self) -> (out: DrawOp)
        ensures
            op_view(out) == op_view(*self),
    {
        copy_op(self)
    }
}

impl Clone for Scene {
    /// A copy that holds what the scene holds, operation by operation.
    fn clone(&self) -> (out: Scene)
        ensures
            out@.len() == self@.len(),
            ops_view(out@, out@.len() as int) == ops_view(self@, self@.len() as int),
    {
        Scene { ops: copy_ops(&self.ops) }
    }
}

} // verus!
