use subimage_scene::color::{rgbu, Color};
use subimage_scene::compositor::{compose, demo_scene, Blit, Canvas, DrawOp};
use subimage_scene::geometry::{Rect, Vector};
use subimage_scene::loader::decode_image;
use subimage_scene::pixels::PixelBuffer;

fn rect(x: i32, y: i32, w: i32, h: i32) -> Rect {
    Rect::new(Vector::new(x, y), Vector::new(w, h))
}

fn five_blits() -> Vec<Blit> {
    vec![
        Blit::new(rect(0, 0, 100, 100), rect(10, 300, 60, 80)),
        Blit::new(rect(300, 300, 100, 100), rect(10, 20, 70, 80)),
        Blit::new(rect(300, 300, 150, 150), rect(120, 20, 70, 80)),
        Blit::new(rect(300, 400, 100, 100), rect(10, 120, 70, 80)),
        Blit::new(rect(300, 400, 150, 150), rect(120, 120, 70, 80)),
    ]
}

#[test]
fn rect_new_and_from_size() {
    let r = rect(1, 2, 3, 4);
    assert_eq!(r.origin, Vector { x: 1, y: 2 });
    assert_eq!(r.size, Vector { x: 3, y: 4 });
    assert_eq!(Rect::from_size(Vector::new(500, 500)), rect(0, 0, 500, 500));
}

#[test]
fn rect_is_within_bounds() {
    assert!(rect(0, 0, 100, 100).is_within(1280, 853));
    assert!(rect(1180, 753, 100, 100).is_within(1280, 853));
    assert!(!rect(1181, 753, 100, 100).is_within(1280, 853));
    assert!(!rect(1180, 754, 100, 100).is_within(1280, 853));
    assert!(!rect(-1, 0, 10, 10).is_within(1280, 853));
    assert!(!rect(0, -1, 10, 10).is_within(1280, 853));
    assert!(!rect(5, 5, -1, 1).is_within(1280, 853));
    assert!(!rect(5, 5, 1, -1).is_within(1280, 853));
    assert!(rect(0, 0, 0, 0).is_within(0, 0));
    assert!(rect(i32::MAX, i32::MAX, i32::MAX, i32::MAX).is_within(u32::MAX - 1, u32::MAX - 1));
    assert!(!rect(i32::MAX, i32::MAX, i32::MAX, i32::MAX).is_within(u32::MAX - 2, u32::MAX - 1));
    assert!(!rect(i32::MAX, i32::MAX, i32::MAX, i32::MAX).is_within(u32::MAX - 1, u32::MAX - 2));
    assert!(rect(i32::MAX, 0, 1, 1).is_within(u32::MAX, 1));
}

#[test]
fn fresh_canvas_is_empty_and_fills_black() {
    let mut canvas = Canvas::new(Vector::new(500, 500));
    assert_eq!(canvas.len(), 0);
    assert_eq!(canvas.size(), Vector { x: 500, y: 500 });
    assert_eq!(canvas.fill_style(), Color { r: 0, g: 0, b: 0, a: 255 });
    canvas.fill_rect(rect(0, 0, 1, 1));
    let scene = canvas.into_scene();
    assert_eq!(
        scene.get(0),
        Some(DrawOp::Fill { rect: rect(0, 0, 1, 1), color: Color { r: 0, g: 0, b: 0, a: 255 } })
    );
}

#[test]
fn fill_style_applies_to_later_fills_only() {
    let mut canvas = Canvas::new(Vector::new(10, 10));
    canvas.set_fill_style(rgbu(1, 2, 3));
    assert_eq!(canvas.len(), 0);
    canvas.fill_rect(rect(0, 0, 5, 5));
    canvas.set_fill_style(rgbu(4, 5, 6));
    canvas.fill_rect(rect(5, 5, 5, 5));
    let scene = canvas.into_scene();
    assert_eq!(
        scene.ops(),
        &vec![
            DrawOp::Fill { rect: rect(0, 0, 5, 5), color: rgbu(1, 2, 3) },
            DrawOp::Fill { rect: rect(5, 5, 5, 5), color: rgbu(4, 5, 6) },
        ]
    );
}

#[test]
fn canvas_keeps_operations_in_drawing_order() {
    let mut canvas = Canvas::new(Vector::new(500, 500));
    canvas.set_fill_style(rgbu(255, 255, 255));
    canvas.fill_rect(rect(0, 0, 500, 500));
    for blit in five_blits() {
        canvas.draw_subimage(blit.source, blit.dest);
    }
    canvas.draw_image(rect(300, 20, 70, 80));
    assert_eq!(canvas.len(), 7);
    let scene = canvas.into_scene();
    assert_eq!(scene.len(), 7);
    assert_eq!(scene.size(), Vector { x: 500, y: 500 });
    assert_eq!(
        scene.get(0),
        Some(DrawOp::Fill { rect: rect(0, 0, 500, 500), color: rgbu(255, 255, 255) })
    );
    assert_eq!(
        scene.get(1),
        Some(DrawOp::Subimage { source: rect(0, 0, 100, 100), dest: rect(10, 300, 60, 80) })
    );
    assert_eq!(
        scene.get(5),
        Some(DrawOp::Subimage { source: rect(300, 400, 150, 150), dest: rect(120, 120, 70, 80) })
    );
    assert_eq!(scene.get(6), Some(DrawOp::Image { dest: rect(300, 20, 70, 80) }));
    assert_eq!(scene.get(7), None);
    assert_eq!(scene.blits(), five_blits());
}

#[test]
fn composing_n_blits_gives_n_operations_in_order() {
    let blits = five_blits();
    let scene = compose(Vector::new(500, 500), rgbu(255, 255, 255), &blits);
    assert_eq!(scene.len(), 6);
    assert_eq!(scene.blits(), blits);
    for (i, blit) in blits.iter().enumerate() {
        assert_eq!(
            scene.get(i + 1),
            Some(DrawOp::Subimage { source: blit.source, dest: blit.dest })
        );
    }
    assert_eq!(
        scene.get(0),
        Some(DrawOp::Fill { rect: rect(0, 0, 500, 500), color: rgbu(255, 255, 255) })
    );
}

#[test]
fn composing_no_blits_gives_the_background_only() {
    let scene = compose(Vector::new(3, 4), rgbu(9, 9, 9), &Vec::new());
    assert_eq!(scene.len(), 1);
    assert_eq!(scene.blits(), Vec::new());
    assert_eq!(scene.ops(), &vec![DrawOp::Fill { rect: rect(0, 0, 3, 4), color: rgbu(9, 9, 9) }]);
}

#[test]
fn repeated_blits_are_all_kept() {
    let blit = Blit::new(rect(0, 0, 1, 1), rect(2, 2, 1, 1));
    let scene = compose(Vector::new(5, 5), rgbu(0, 0, 0), &vec![blit, blit, blit]);
    assert_eq!(scene.len(), 4);
    assert_eq!(scene.blits(), vec![blit, blit, blit]);
}

#[test]
fn destinations_are_not_checked_against_the_canvas() {
    let outside = Blit::new(rect(0, 0, 1, 1), rect(-50, 900, 7000, 3));
    let scene = compose(Vector::new(5, 5), rgbu(0, 0, 0), &vec![outside]);
    assert_eq!(scene.blits(), vec![outside]);
}

#[test]
fn sources_within_checks_every_blit() {
    let large = PixelBuffer::from_raw(1280, 853, vec![0; 1280 * 853 * 4]).unwrap();
    let small = PixelBuffer::from_raw(400, 400, vec![0; 400 * 400 * 4]).unwrap();
    let scene = compose(Vector::new(500, 500), rgbu(255, 255, 255), &five_blits());
    assert!(scene.sources_within(&large));
    assert!(!scene.sources_within(&small));
    let empty = compose(Vector::new(500, 500), rgbu(255, 255, 255), &Vec::new());
    assert!(empty.sources_within(&PixelBuffer::from_raw(0, 0, Vec::new()).unwrap()));
}

#[test]
fn blit_from_a_wide_jpeg_stays_inside_its_source() {
    let width: u32 = 1280;
    let height: u32 = 120;
    let mut samples = Vec::new();
    for y in 0..height {
        for x in 0..width {
            samples.push((x % 256) as u8);
            samples.push((y % 256) as u8);
            samples.push(128);
        }
    }
    let picture = image::RgbImage::from_raw(width, height, samples).unwrap();
    let mut file = std::io::Cursor::new(Vec::new());
    image::DynamicImage::ImageRgb8(picture)
        .write_to(&mut file, image::ImageFormat::Jpeg)
        .unwrap();
    let buffer = decode_image("wide.jpg", &file.into_inner()).unwrap();
    assert_eq!((buffer.width(), buffer.height()), (1280, 120));

    let blit = Blit::new(rect(0, 0, 100, 100), rect(10, 300, 60, 80));
    let scene = compose(Vector::new(500, 500), rgbu(255, 255, 255), &vec![blit]);
    assert_eq!(scene.len(), 2);
    assert_eq!(
        scene.get(1),
        Some(DrawOp::Subimage { source: rect(0, 0, 100, 100), dest: rect(10, 300, 60, 80) })
    );
    assert!(scene.sources_within(&buffer));
    assert!(buffer.contains(&blit.source));
    assert!(blit.dest.is_within(500, 500));
}

#[test]
fn demo_scene_holds_seven_operations() {
    let scene = demo_scene(Vector::new(500, 500));
    assert_eq!(scene.size(), Vector { x: 500, y: 500 });
    assert_eq!(scene.len(), 7);
    assert_eq!(
        scene.get(0),
        Some(DrawOp::Fill { rect: rect(0, 0, 500, 500), color: rgbu(255, 255, 255) })
    );
    assert_eq!(
        scene.get(1),
        Some(DrawOp::Subimage { source: rect(0, 0, 100, 100), dest: rect(10, 300, 60, 80) })
    );
    assert_eq!(scene.blits(), five_blits());
    assert_eq!(scene.get(6), Some(DrawOp::Image { dest: rect(300, 20, 70, 80) }));
}
