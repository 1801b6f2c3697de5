use purple::color::Color;
use purple::prim::{Affine, Point};
use purple::image::Image;
use purple::scene::{DrawOp, GlyphRun, PositionedGlyph, Scene};
use purple::shapes::{Circle, PathElement, Rect, Shape};

fn red() -> Color {
    Color { r: 255, g: 0, b: 0, a: 255 }
}

fn blue() -> Color {
    Color { r: 0, g: 0, b: 255, a: 255 }
}

#[test]
fn new_scene_is_empty() {
    let scene = Scene::new();
    assert!(scene.ops.is_empty());
}

#[test]
fn clear_gives_a_fresh_scene() {
    let mut scene = Scene::new();
    scene.fill(red(), Affine::new(), Shape::Rect(Rect::new(0, 0, 640, 640)));
    scene.stroke(64, blue(), Affine::new(), Shape::Rect(Rect::new(0, 0, 640, 640)));
    scene.clear();
    assert_eq!(scene, Scene::new());
}

#[test]
fn later_operations_come_later() {
    let a = Shape::Rect(Rect::new(0, 0, 640, 640));
    let b = Shape::Rect(Rect::new(320, 320, 640, 640));
    let mut first = Scene::new();
    first.fill(red(), Affine::new(), a.clone());
    first.fill(blue(), Affine::new(), b.clone());
    let mut second = Scene::new();
    second.fill(blue(), Affine::new(), b.clone());
    second.fill(red(), Affine::new(), a.clone());
    assert_eq!(first.ops.len(), 2);
    assert_eq!(first.ops[1], DrawOp::Fill { color: blue(), transform: Affine::new(), shape: b });
    assert_eq!(second.ops[1], DrawOp::Fill { color: red(), transform: Affine::new(), shape: a });
    assert_ne!(first, second);
}

#[test]
fn every_kind_of_operation_is_appended_once() {
    let mut child = Scene::new();
    child.fill(red(), Affine::new(), Shape::Circle(Circle::new(0, 0, 64)));
    let image = Image::new(vec![1, 2, 3, 4], 1, 1);
    let run = GlyphRun {
        font: 3,
        font_size: 1024,
        color: None,
        transform: Affine::new(),
        glyphs: vec![PositionedGlyph { id: 1, x: 2, y: 3 }],
    };
    let moved = Affine::new().translate(64, 64);
    let mut scene = Scene::new();
    scene.stroke(128, blue(), moved, Shape::Rect(Rect::abs(0, 0, 64, 64)));
    scene.draw_image(image.clone(), moved);
    scene.draw_scene(child, moved);
    scene.draw_glyph_run(run.clone());
    assert_eq!(scene.ops.len(), 4);
    assert_eq!(
        scene.ops[0],
        DrawOp::Stroke {
            width: 128,
            color: blue(),
            transform: moved,
            shape: Shape::Rect(Rect::abs(0, 0, 64, 64)),
        }
    );
    assert_eq!(scene.ops[1], DrawOp::Image { image, transform: moved });
    match &scene.ops[2] {
        DrawOp::SubScene { scene: inner, transform } => {
            assert_eq!(*transform, moved);
            assert_eq!(inner.ops.len(), 1);
            assert!(matches!(inner.ops[0], DrawOp::Fill { .. }));
        },
        other => panic!("unexpected {:?}", other),
    }
    assert_eq!(scene.ops[3], DrawOp::GlyphRun(run));
}

#[test]
fn shapes_without_area_are_kept() {
    let mut scene = Scene::new();
    scene.fill(red(), Affine::new(), Shape::Rect(Rect::abs(5, 5, 5, 5)));
    assert_eq!(scene.ops.len(), 1);
}

#[test]
fn outlines_are_kept_step_by_step() {
    let outline = vec![
        PathElement::MoveTo(Point { x: 0, y: 0 }),
        PathElement::LineTo(Point { x: 64, y: 0 }),
        PathElement::QuadTo(Point { x: 64, y: 64 }, Point { x: 0, y: 64 }),
        PathElement::CurveTo(Point { x: 1, y: 2 }, Point { x: 3, y: 4 }, Point { x: 5, y: 6 }),
        PathElement::ClosePath,
    ];
    let mut scene = Scene::new();
    scene.fill(red(), Affine::new(), Shape::Path(outline.clone()));
    assert_eq!(
        scene.ops,
        vec![DrawOp::Fill { color: red(), transform: Affine::new(), shape: Shape::Path(outline) }]
    );
}

#[test]
fn a_scene_can_be_copied_and_appended_twice() {
    let mut leaf = Scene::new();
    leaf.fill(red(), Affine::new(), Shape::Path(vec![PathElement::MoveTo(Point { x: 1, y: 2 })]));
    leaf.draw_image(Image::new(vec![1, 2, 3, 4], 1, 1), Affine::new());
    let mut child = Scene::new();
    child.draw_scene(leaf.clone(), Affine::new().translate(1, 1));
    child.draw_glyph_run(GlyphRun {
        font: 1,
        font_size: 64,
        color: Some(blue()),
        transform: Affine::new(),
        glyphs: vec![PositionedGlyph { id: 4, x: 5, y: 6 }],
    });
    child.stroke(64, blue(), Affine::new(), Shape::Circle(Circle::new(0, 0, 64)));
    let copy = child.clone();
    assert_eq!(copy, child);
    assert_eq!(copy.ops[0].clone(), child.ops[0]);
    let mut scene = Scene::new();
    scene.draw_scene(child.clone(), Affine::new().translate(10, 0));
    scene.draw_scene(child.clone(), Affine::new().translate(20, 0));
    assert_eq!(scene.ops.len(), 2);
    match (&scene.ops[0], &scene.ops[1]) {
        (
            DrawOp::SubScene { scene: first, transform: a },
            DrawOp::SubScene { scene: second, transform: b },
        ) => {
            assert_eq!(first, &child);
            assert_eq!(second, &child);
            assert_eq!((a.dx, b.dx), (10, 20));
        },
        other => panic!("unexpected {:?}", other),
    }
    child.clear();
    assert_eq!(copy.ops.len(), 3);
}
