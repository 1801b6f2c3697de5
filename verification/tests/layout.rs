use purple::color::Color;
use purple::font::{record, FontContext};
use purple::layout::{draw_text, place_run, start_y};
use purple::prim::{Affine, BoundingBox};
use purple::scene::{DrawOp, GlyphRun, PositionedGlyph, Scene};
use purple::text::{
    shaping_request, Alignment, Layout, Line, LineItem, ShapedGlyph, ShapedRun,
    TextOptions, VerticalAlignment, DEFAULT_FONT_SIZE, LIMIT,
};

fn glyph(id: u32, advance: i64) -> ShapedGlyph {
    ShapedGlyph { id, advance }
}

fn run(font: u64, offset: i64, glyphs: Vec<ShapedGlyph>) -> LineItem {
    LineItem::GlyphRun(ShapedRun { font, offset, glyphs })
}

fn one_line(width: i64) -> Layout {
    Layout {
        width,
        full_width: width,
        height: 1280,
        lines: vec![Line {
            line_height: 1280,
            descent: 256,
            items: vec![run(1, 0, vec![glyph(7, 600), glyph(8, 500), glyph(9, 820)])],
        }],
    }
}

fn two_lines() -> Layout {
    Layout {
        width: 2000,
        full_width: 2100,
        height: 2400,
        lines: vec![
            Line {
                line_height: 1200,
                descent: 300,
                items: vec![
                    run(1, 0, vec![glyph(1, 500), glyph(2, 500)]),
                    LineItem::InlineBox,
                    run(2, 1000, vec![glyph(3, 1000)]),
                ],
            },
            Line { line_height: 1200, descent: 300, items: vec![run(1, 200, vec![glyph(4, 700)])] },
        ],
    }
}

fn region() -> BoundingBox {
    BoundingBox { x: 640, y: 1280, width: 6400, height: 3200 }
}

fn glyphs_of(op: &DrawOp) -> &GlyphRun {
    match op {
        DrawOp::GlyphRun(run) => run,
        other => panic!("not a glyph run: {:?}", other),
    }
}

#[test]
fn default_options() {
    let options = TextOptions::default();
    assert_eq!(options.font_size, DEFAULT_FONT_SIZE);
    assert_eq!(options.font_size, 16 * 64);
    assert_eq!(options.color, None);
    assert_eq!(options.bbox, None);
    assert_eq!(options.font_names, None);
    assert_eq!(options.alignment, Alignment::Left);
    assert_eq!(options.vertical_alignment, VerticalAlignment::Top);
    assert!(!options.align_from_left_of_bbox);
    assert!(!options.align_from_top_of_bbox);
    assert!(!options.quantize);
}

#[test]
fn left_aligned_without_region_measures_from_zero() {
    let layout = one_line(1920);
    let options = TextOptions::default();
    let mut scene = Scene::new();
    let measured = draw_text(&mut scene, &layout, Affine::new(), &options);
    assert_eq!(measured, BoundingBox { x: 0, y: 0, width: 600 + 500 + 820, height: 1280 });
    assert_eq!(scene.ops.len(), 1);
    let drawn = glyphs_of(&scene.ops[0]);
    assert_eq!(drawn.font, 1);
    assert_eq!(drawn.font_size, DEFAULT_FONT_SIZE);
    assert_eq!(drawn.color, None);
    assert_eq!(drawn.transform, Affine::new());
    assert_eq!(
        drawn.glyphs,
        vec![
            PositionedGlyph { id: 7, x: 0, y: 1024 },
            PositionedGlyph { id: 8, x: 600, y: 1024 },
            PositionedGlyph { id: 9, x: 1100, y: 1024 },
        ]
    );
}

#[test]
fn centered_without_region_lies_around_zero() {
    let layout = one_line(1920);
    let options = TextOptions { alignment: Alignment::Center, ..TextOptions::default() };
    let mut scene = Scene::new();
    let measured = draw_text(&mut scene, &layout, Affine::new(), &options);
    assert_eq!(measured.x, -960);
    assert_eq!(measured.width, 1920);
    let drawn = glyphs_of(&scene.ops[0]);
    assert_eq!(drawn.glyphs[0].x, -960);
    assert_eq!(drawn.glyphs[2].x, 140);
}

#[test]
fn centered_with_odd_width_rounds_toward_zero() {
    let layout = Layout { width: 1921, full_width: 1921, ..one_line(1921) };
    let options = TextOptions { alignment: Alignment::Center, ..TextOptions::default() };
    let mut scene = Scene::new();
    let measured = draw_text(&mut scene, &layout, Affine::new(), &options);
    assert_eq!(measured.x, -960);
}

#[test]
fn right_aligned_without_region_ends_at_zero() {
    let layout = one_line(1920);
    let options = TextOptions { alignment: Alignment::Right, ..TextOptions::default() };
    let mut scene = Scene::new();
    let measured = draw_text(&mut scene, &layout, Affine::new(), &options);
    let drawn = glyphs_of(&scene.ops[0]);
    assert_eq!(drawn.glyphs[0].x, -1920);
    assert_eq!(drawn.glyphs[2].x, -820);
    assert_eq!(measured.x, -1920);
}

#[test]
fn vertical_center_in_region() {
    let options = TextOptions {
        bbox: Some(region()),
        vertical_alignment: VerticalAlignment::Center,
        ..TextOptions::default()
    };
    assert_eq!(start_y(&options, 1920), 1280 + (3200 - 1920) / 2);
    assert_eq!(start_y(&options, 1920), 30 * 64);
    let layout = Layout { height: 1920, ..one_line(1920) };
    let mut scene = Scene::new();
    let measured = draw_text(&mut scene, &layout, Affine::new(), &options);
    assert_eq!(measured.y, 1920);
    assert_eq!(measured.height, 1920);
    let drawn = glyphs_of(&scene.ops[0]);
    assert_eq!(drawn.glyphs[0].y, 1920 + 1280 - 256);
    assert_eq!(drawn.glyphs[0].x, 640);
    assert_eq!(measured.x, 640);
}

#[test]
fn vertical_start_for_each_alignment() {
    let top = TextOptions { bbox: Some(region()), ..TextOptions::default() };
    assert_eq!(start_y(&top, 1920), 1280);
    let bottom = TextOptions {
        bbox: Some(region()),
        vertical_alignment: VerticalAlignment::Bottom,
        ..TextOptions::default()
    };
    assert_eq!(start_y(&bottom, 1920), 3200 - 1920 + 1280);
    let free_center =
        TextOptions { vertical_alignment: VerticalAlignment::Center, ..TextOptions::default() };
    assert_eq!(start_y(&free_center, 1921), -960);
    let free_bottom =
        TextOptions { vertical_alignment: VerticalAlignment::Bottom, ..TextOptions::default() };
    assert_eq!(start_y(&free_bottom, 1920), -1920);
}

#[test]
fn overflowing_block_is_pinned_to_the_top_when_asked() {
    let pinned_center = TextOptions {
        bbox: Some(region()),
        vertical_alignment: VerticalAlignment::Center,
        align_from_top_of_bbox: true,
        ..TextOptions::default()
    };
    assert_eq!(start_y(&pinned_center, 4000), 1280);
    assert_eq!(start_y(&pinned_center, 3200), 1280);
    assert_eq!(start_y(&pinned_center, 3000), 1280 + 100);
    let loose_center = TextOptions { align_from_top_of_bbox: false, ..pinned_center.clone() };
    assert_eq!(start_y(&loose_center, 4000), 1280 - 400);
    let pinned_bottom =
        TextOptions { vertical_alignment: VerticalAlignment::Bottom, ..pinned_center.clone() };
    assert_eq!(start_y(&pinned_bottom, 4000), 1280);
    let loose_bottom = TextOptions { align_from_top_of_bbox: false, ..pinned_bottom.clone() };
    assert_eq!(start_y(&loose_bottom, 4000), 3200 - 4000 + 1280);
}

#[test]
fn lines_runs_and_first_line_descent() {
    let layout = two_lines();
    let options = TextOptions {
        bbox: Some(region()),
        color: Some(Color { r: 1, g: 2, b: 3, a: 4 }),
        font_size: 2048,
        ..TextOptions::default()
    };
    let transform = Affine::new().translate(64, 128);
    let mut scene = Scene::new();
    scene.fill(
        Color { r: 9, g: 9, b: 9, a: 9 },
        Affine::new(),
        purple::shapes::Shape::Circle(purple::shapes::Circle::new(0, 0, 64)),
    );
    let measured = draw_text(&mut scene, &layout, transform, &options);
    assert_eq!(scene.ops.len(), 4);
    assert!(matches!(scene.ops[0], DrawOp::Fill { .. }));
    let first = glyphs_of(&scene.ops[1]);
    let second = glyphs_of(&scene.ops[2]);
    let third = glyphs_of(&scene.ops[3]);
    assert_eq!((first.font, second.font, third.font), (1, 2, 1));
    assert_eq!(first.font_size, 2048);
    assert_eq!(first.color, Some(Color { r: 1, g: 2, b: 3, a: 4 }));
    assert_eq!(first.transform, transform);
    let base_one = 1280 + 1200 - 300;
    let base_two = base_one + 1200;
    assert_eq!(
        first.glyphs,
        vec![
            PositionedGlyph { id: 1, x: 640, y: base_one },
            PositionedGlyph { id: 2, x: 1140, y: base_one },
        ]
    );
    assert_eq!(second.glyphs, vec![PositionedGlyph { id: 3, x: 1640, y: base_one }]);
    assert_eq!(third.glyphs, vec![PositionedGlyph { id: 4, x: 840, y: base_two }]);
    assert_eq!(measured, BoundingBox { x: 640, y: 1280, width: 2000, height: 2400 });
}

#[test]
fn measured_left_edge_is_the_smallest_glyph_x() {
    let layout = Layout {
        width: 1000,
        full_width: 1000,
        height: 1000,
        lines: vec![Line {
            line_height: 1000,
            descent: 0,
            items: vec![run(1, -300, vec![glyph(1, 100), glyph(2, -500), glyph(3, 50)])],
        }],
    };
    let mut scene = Scene::new();
    let measured = draw_text(&mut scene, &layout, Affine::new(), &TextOptions::default());
    let drawn = glyphs_of(&scene.ops[0]);
    assert_eq!(drawn.glyphs.iter().map(|g| g.x).collect::<Vec<i64>>(), vec![-300, -200, -700]);
    assert_eq!(measured.x, -700);
}

#[test]
fn measured_top_is_the_smallest_line_top() {
    let layout = Layout {
        width: 0,
        full_width: 0,
        height: 0,
        lines: vec![
            Line { line_height: 100, descent: 400, items: vec![] },
            Line { line_height: 100, descent: 0, items: vec![] },
        ],
    };
    let mut scene = Scene::new();
    let measured = draw_text(&mut scene, &layout, Affine::new(), &TextOptions::default());
    assert_eq!(measured.y, -300);
    assert!(scene.ops.is_empty());
}

#[test]
fn empty_text_draws_nothing() {
    let layout = Layout::empty();
    assert_eq!(layout, Layout { width: 0, full_width: 0, height: 0, lines: vec![] });
    let options = TextOptions {
        bbox: Some(region()),
        alignment: Alignment::Right,
        vertical_alignment: VerticalAlignment::Bottom,
        ..TextOptions::default()
    };
    let mut scene = Scene::new();
    let measured = draw_text(&mut scene, &layout, Affine::new(), &options);
    assert!(scene.ops.is_empty());
    assert_eq!(measured, BoundingBox { x: 640, y: 1280 + 3200, width: 0, height: 0 });
    let plain = draw_text(&mut scene, &layout, Affine::new(), &TextOptions::default());
    assert_eq!(plain, BoundingBox { x: 0, y: 0, width: 0, height: 0 });
    assert!(scene.ops.is_empty());
}

#[test]
fn run_without_glyphs_is_kept_as_an_empty_run() {
    let layout = Layout {
        width: 0,
        full_width: 0,
        height: 1000,
        lines: vec![Line { line_height: 1000, descent: 0, items: vec![run(5, 0, vec![])] }],
    };
    let mut scene = Scene::new();
    draw_text(&mut scene, &layout, Affine::new(), &TextOptions::default());
    assert_eq!(scene.ops.len(), 1);
    assert!(glyphs_of(&scene.ops[0]).glyphs.is_empty());
}

#[test]
fn scene_method_draws_the_same() {
    let layout = two_lines();
    let options = TextOptions { bbox: Some(region()), ..TextOptions::default() };
    let mut by_function = Scene::new();
    let mut by_method = Scene::new();
    let a = draw_text(&mut by_function, &layout, Affine::new(), &options);
    let b = by_method.draw_text(&layout, Affine::new(), &options);
    assert_eq!(a, b);
    assert_eq!(by_function, by_method);
}

#[test]
fn place_run_places_and_lowers_the_minimum() {
    let shaped = ShapedRun { font: 0, offset: 0, glyphs: vec![glyph(1, 10), glyph(2, 20)] };
    let (glyphs, low) = place_run(&shaped, 100, 7, Some(105));
    assert_eq!(
        glyphs,
        vec![PositionedGlyph { id: 1, x: 100, y: 7 }, PositionedGlyph { id: 2, x: 110, y: 7 }]
    );
    assert_eq!(low, Some(100));
    let (_, kept) = place_run(&shaped, 100, 7, Some(50));
    assert_eq!(kept, Some(50));
    let (_, first) = place_run(&shaped, 100, 7, None);
    assert_eq!(first, Some(100));
    let empty = ShapedRun { font: 0, offset: 0, glyphs: vec![] };
    assert_eq!(place_run(&empty, 100, 7, None), (vec![], None));
    assert_eq!(place_run(&empty, 100, 7, Some(3)), (vec![], Some(3)));
}

#[test]
fn checks_tell_what_is_within_limits() {
    assert!(two_lines().check());
    assert!(Layout::empty().check());
    assert!(!Layout { width: LIMIT + 1, ..two_lines() }.check());
    assert!(Layout { width: -LIMIT, ..two_lines() }.check());
    assert!(!Layout { full_width: -LIMIT - 1, ..two_lines() }.check());
    assert!(!Layout { height: LIMIT + 1, ..two_lines() }.check());
    let mut bad_line = two_lines();
    bad_line.lines[1].descent = LIMIT + 1;
    assert!(!bad_line.check());
    let mut bad_glyph = two_lines();
    bad_glyph.lines[0].items[2] = run(2, 0, vec![glyph(1, LIMIT + 1)]);
    assert!(!bad_glyph.check());
    let mut bad_offset = two_lines();
    bad_offset.lines[0].items[0] = run(2, -LIMIT - 1, vec![]);
    assert!(!bad_offset.check());
    assert!(TextOptions::default().check());
    assert!(TextOptions { bbox: Some(region()), ..TextOptions::default() }.check());
    let wide = BoundingBox { width: LIMIT + 1, ..region() };
    assert!(!TextOptions { bbox: Some(wide), ..TextOptions::default() }.check());
}

#[test]
fn request_with_region() {
    let mut fonts = FontContext::new();
    assert!(fonts.fonts.is_empty());
    assert_eq!(record(&mut fonts.fonts, Some("Rubik".to_string())), Some("Rubik".to_string()));
    assert_eq!(record(&mut fonts.fonts, None), None);
    assert_eq!(
        record(&mut fonts.fonts, Some("Noto Sans".to_string())),
        Some("Noto Sans".to_string())
    );
    assert_eq!(fonts.fonts, vec!["Rubik".to_string(), "Noto Sans".to_string()]);
    let options = TextOptions {
        bbox: Some(region()),
        alignment: Alignment::Justify,
        quantize: true,
        font_size: 777,
        ..TextOptions::default()
    };
    let request = shaping_request(&options, &fonts);
    assert_eq!(request.families, vec!["Rubik".to_string(), "Noto Sans".to_string()]);
    assert_eq!(request.font_size, 777);
    assert!(request.quantize);
    assert_eq!(request.max_width, Some(6400));
    assert_eq!(request.alignment, Alignment::Justify);
    assert!(request.align_when_overflowing);
    let pinned = TextOptions { align_from_left_of_bbox: true, ..options };
    assert!(!shaping_request(&pinned, &fonts).align_when_overflowing);
}

#[test]
fn request_without_region() {
    let mut fonts = FontContext::new();
    record(&mut fonts.fonts, Some("Rubik".to_string()));
    let options = TextOptions {
        font_names: Some(vec!["Mono".to_string(), "Serif".to_string()]),
        align_from_left_of_bbox: false,
        ..TextOptions::default()
    };
    let request = shaping_request(&options, &fonts);
    assert_eq!(request.families, vec!["Mono".to_string(), "Serif".to_string()]);
    assert_eq!(request.max_width, None);
    assert!(!request.align_when_overflowing);
    assert_eq!(request.alignment, Alignment::Left);
    assert!(!request.quantize);
    assert_eq!(request.font_size, DEFAULT_FONT_SIZE);
}

#[test]
fn bytes_without_a_font_register_nothing() {
    let mut fonts = FontContext::new();
    assert_eq!(fonts.load(vec![1, 2, 3, 4, 5, 6, 7, 8]), None);
    assert_eq!(fonts.load(Vec::new()), None);
    assert!(fonts.fonts.is_empty());
    record(&mut fonts.fonts, Some("Rubik".to_string()));
    assert_eq!(fonts.load(vec![0; 64]), None);
    assert_eq!(fonts.fonts, vec!["Rubik".to_string()]);
}

/// A font file with nothing but a character map and the family name "Tiny".
const TINY_FONT: [u8; 108] = [
    0, 1, 0, 0, 0, 2, 0, 32, 0, 1, 0, 0, 99, 109, 97, 112, 0, 0, 0, 0, 0, 0, 0, 44, 0, 0, 0, 36,
    110, 97, 109, 101, 0, 0, 0, 0, 0, 0, 0, 80, 0, 0, 0, 26, 0, 0, 0, 1, 0, 3, 0, 1, 0, 0, 0, 12,
    0, 4, 0, 24, 0, 0, 0, 2, 0, 2, 0, 0, 0, 0, 255, 255, 0, 0, 255, 255, 0, 1, 0, 0, 0, 0, 0, 1,
    0, 18, 0, 3, 0, 1, 4, 9, 0, 1, 0, 8, 0, 0, 0, 84, 0, 105, 0, 110, 0, 121, 0, 0,
];

#[test]
fn new_font_context_lists_no_family() {
    let mut fonts = FontContext::new();
    assert!(fonts.fonts.is_empty());
    assert_eq!(fonts.collection.family_names().count(), 0);
}

#[test]
fn load_records_the_family_of_a_font() {
    let mut fonts = FontContext::new();
    assert_eq!(fonts.load(TINY_FONT.to_vec()), Some("Tiny".to_string()));
    assert_eq!(fonts.fonts, vec!["Tiny".to_string()]);
    let listed: Vec<String> = fonts.collection.family_names().map(|name| name.to_string()).collect();
    assert_eq!(listed, vec!["Tiny".to_string()]);
    assert_eq!(fonts.load(vec![9; 16]), None);
    assert_eq!(fonts.load(TINY_FONT.to_vec()), Some("Tiny".to_string()));
    assert_eq!(fonts.fonts, vec!["Tiny".to_string(), "Tiny".to_string()]);
    assert_eq!(fonts.collection.family_names().count(), 1);
}

#[test]
fn copies_of_the_collection_see_what_is_registered() {
    let mut fonts = FontContext::new();
    let mut copy = fonts.collection.clone();
    assert_eq!(copy.family_names().count(), 0);
    assert_eq!(fonts.load(TINY_FONT.to_vec()), Some("Tiny".to_string()));
    assert_eq!(copy.family_names().count(), 1);
}

#[test]
fn measured_left_edge_is_where_the_glyphs_are() {
    let layout = Layout {
        width: 1000,
        full_width: 1000,
        height: 1000,
        lines: vec![Line {
            line_height: 1000,
            descent: 0,
            items: vec![run(1, 300, vec![glyph(1, 100), glyph(2, 50)])],
        }],
    };
    let mut scene = Scene::new();
    let plain = draw_text(&mut scene, &layout, Affine::new(), &TextOptions::default());
    assert_eq!(plain.x, 300);
    let in_region = TextOptions { bbox: Some(region()), ..TextOptions::default() };
    assert_eq!(draw_text(&mut scene, &layout, Affine::new(), &in_region).x, 640 + 300);
    let right = TextOptions { alignment: Alignment::Right, ..TextOptions::default() };
    assert_eq!(draw_text(&mut scene, &layout, Affine::new(), &right).x, 300 - 1000);
    let right_in_region =
        TextOptions { alignment: Alignment::Right, bbox: Some(region()), ..TextOptions::default() };
    assert_eq!(draw_text(&mut scene, &layout, Affine::new(), &right_in_region).x, 640 + 300);
    let centered_in_region =
        TextOptions { alignment: Alignment::Center, bbox: Some(region()), ..TextOptions::default() };
    assert_eq!(draw_text(&mut scene, &layout, Affine::new(), &centered_in_region).x, 640 + 300);
}

#[test]
fn without_a_glyph_the_box_stands_at_the_anchor() {
    let layout = Layout {
        width: 1000,
        full_width: 1201,
        height: 500,
        lines: vec![Line {
            line_height: 500,
            descent: 0,
            items: vec![LineItem::InlineBox, run(1, 70, vec![])],
        }],
    };
    let mut scene = Scene::new();
    let with = |alignment: Alignment, bbox: Option<BoundingBox>| TextOptions {
        alignment,
        bbox,
        ..TextOptions::default()
    };
    let mut x_of = |options: TextOptions| draw_text(&mut scene, &layout, Affine::new(), &options).x;
    assert_eq!(x_of(with(Alignment::Left, None)), 0);
    assert_eq!(x_of(with(Alignment::Justify, None)), 0);
    assert_eq!(x_of(with(Alignment::Center, None)), -600);
    assert_eq!(x_of(with(Alignment::Right, None)), -1201);
    assert_eq!(x_of(with(Alignment::Left, Some(region()))), 640);
    assert_eq!(x_of(with(Alignment::Center, Some(region()))), 640);
    assert_eq!(x_of(with(Alignment::Right, Some(region()))), 640);
}
