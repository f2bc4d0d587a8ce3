use zinnebeeld::geometry::clip_rect;
use zinnebeeld::raster::CLEAR_PIXEL;
use zinnebeeld::{
    Color, Image, Material, PixelGrid, PixelRect, Region, ResourceManager, ResourceNamespace,
    Size, SoftwarePainter,
};

fn no_images() -> ResourceManager<PixelGrid> {
    ResourceManager::new(ResourceNamespace::Image)
}

fn four_pixels() -> PixelGrid {
    let data: Vec<u8> = vec![
        255, 0, 0, 255, 0, 255, 0, 255, // red, green
        0, 0, 255, 255, 255, 255, 255, 255, // blue, white
    ];
    PixelGrid::from_rgba(2, 2, data).unwrap()
}

#[test]
fn clip_keeps_a_rectangle_inside_the_frame() {
    let region = clip_rect(PixelRect::new(200, 200, 400, 200), 800, 600);
    assert_eq!(region, Region { min_x: 200, min_y: 200, max_x: 600, max_y: 400, span: 400 });
}

#[test]
fn clip_moves_a_negative_corner_to_zero_and_keeps_the_sides() {
    let region = clip_rect(PixelRect::new(-50, -20, 100, 60), 800, 600);
    assert_eq!(region, Region { min_x: 0, min_y: 0, max_x: 100, max_y: 60, span: 100 });
}

#[test]
fn clip_clamps_the_sides_to_one_less_than_the_frame() {
    let region = clip_rect(PixelRect::new(0, 0, 800, 600), 800, 600);
    assert_eq!(region, Region { min_x: 0, min_y: 0, max_x: 799, max_y: 599, span: 799 });
    let region = clip_rect(PixelRect::new(1, 1, 5000, 5000), 800, 600);
    assert_eq!(region, Region { min_x: 1, min_y: 1, max_x: 800, max_y: 600, span: 799 });
}

#[test]
fn clip_cuts_what_reaches_beyond_the_frame() {
    let region = clip_rect(PixelRect::new(700, 500, 400, 300), 800, 600);
    assert_eq!(region, Region { min_x: 700, min_y: 500, max_x: 800, max_y: 600, span: 400 });
}

#[test]
fn clip_of_a_rectangle_outside_is_empty() {
    let region = clip_rect(PixelRect::new(900, 700, 10, 10), 800, 600);
    assert_eq!(region.min_x, region.max_x);
    assert_eq!(region.min_y, region.max_y);
    let region = clip_rect(PixelRect::new(i64::MAX, i64::MAX, i64::MAX, i64::MAX), 800, 600);
    assert_eq!(region, Region { min_x: 800, min_y: 600, max_x: 800, max_y: 600, span: 799 });
}

#[test]
fn clip_of_zero_or_negative_sides_is_empty() {
    let region = clip_rect(PixelRect::new(10, 10, 0, 5), 800, 600);
    assert_eq!(region, Region { min_x: 10, min_y: 10, max_x: 10, max_y: 15, span: 0 });
    let region = clip_rect(PixelRect::new(10, 10, -3, i64::MIN), 800, 600);
    assert_eq!(region, Region { min_x: 10, min_y: 10, max_x: 10, max_y: 10, span: 0 });
}

#[test]
fn clip_in_an_empty_frame_is_empty() {
    let region = clip_rect(PixelRect::new(0, 0, 10, 10), 0, 0);
    assert_eq!(region, Region { min_x: 0, min_y: 0, max_x: 0, max_y: 0, span: 0 });
}

#[test]
fn new_frame_is_cleared() {
    let images = no_images();
    let painter = SoftwarePainter::new(Size::new(7, 5), &images);
    assert_eq!(painter.size(), Size::new(7, 5));
    let pixels = painter.finish();
    assert_eq!(pixels.len(), 35);
    assert!(pixels.iter().all(|p| *p == 0xFF00_0000));
    assert_eq!(CLEAR_PIXEL, Color::BLACK().as_bgra());
}

#[test]
fn yellow_rectangle_in_a_frame_of_800_by_600() {
    let images = no_images();
    let mut painter = SoftwarePainter::new(Size::new(800, 600), &images);
    painter.paint_filled_rect(PixelRect::new(200, 200, 400, 200), Color::YELLOW().into());
    let pixels = painter.finish();
    assert_eq!(pixels.len(), 800 * 600);
    for y in 0..600usize {
        for x in 0..800usize {
            let inside = (200..600).contains(&x) && (200..400).contains(&y);
            let expected: u32 = if inside { 0xFF00_FFFF } else { 0xFF00_0000 };
            assert_eq!(pixels[y * 800 + x], expected, "at ({}, {})", x, y);
        }
    }
}

#[test]
fn painting_nothing_leaves_the_frame_cleared() {
    let images = no_images();
    let painter = SoftwarePainter::new(Size::new(16, 9), &images);
    let pixels = painter.finish();
    assert_eq!(pixels, vec![0xFF00_0000u32; 16 * 9]);
}

#[test]
fn rectangles_anywhere_keep_the_frame_length() {
    let images = no_images();
    let rects = [
        PixelRect::new(-10, -10, 5, 5),
        PixelRect::new(-10, -10, 500, 500),
        PixelRect::new(30, 30, 10, 10),
        PixelRect::new(5, 5, -4, 7),
        PixelRect::new(5, 5, 0, 0),
        PixelRect::new(19, 9, 100, 100),
        PixelRect::new(i64::MIN, i64::MAX, i64::MAX, i64::MIN),
        PixelRect::new(i64::MAX, i64::MIN, i64::MAX, i64::MAX),
    ];
    for rect in rects {
        let mut painter = SoftwarePainter::new(Size::new(20, 10), &images);
        painter.paint_filled_rect(rect, Material::Color(Color::RED()));
        let region = clip_rect(rect, 20, 10);
        let pixels = painter.finish();
        assert_eq!(pixels.len(), 200);
        for y in 0..10usize {
            for x in 0..20usize {
                let inside = region.min_x <= x && x < region.max_x && region.min_y <= y
                    && y < region.max_y;
                let expected: u32 = if inside { 0xFF00_00FF } else { 0xFF00_0000 };
                assert_eq!(pixels[y * 20 + x], expected);
            }
        }
    }
}

#[test]
fn rectangle_at_the_right_edge_does_not_run_into_the_next_row() {
    let images = no_images();
    let mut painter = SoftwarePainter::new(Size::new(10, 4), &images);
    painter.paint_filled_rect(PixelRect::new(8, 1, 5, 1), Material::Color(Color::GREEN()));
    let pixels = painter.finish();
    for y in 0..4usize {
        for x in 0..10usize {
            let inside = y == 1 && x >= 8;
            let expected: u32 = if inside { 0xFF00_FF00 } else { 0xFF00_0000 };
            assert_eq!(pixels[y * 10 + x], expected);
        }
    }
}

#[test]
fn later_rectangles_paint_over_earlier_ones() {
    let images = no_images();
    let mut painter = SoftwarePainter::new(Size::new(4, 4), &images);
    painter.paint_filled_rect(PixelRect::new(0, 0, 3, 3), Material::Color(Color::RED()));
    painter.paint_filled_rect(PixelRect::new(1, 1, 1, 1), Material::Color(Color::BLUE()));
    let pixels = painter.finish();
    assert_eq!(pixels[0], 0xFF00_00FF);
    assert_eq!(pixels[1 * 4 + 1], 0xFFFF_0000);
    assert_eq!(pixels[2 * 4 + 2], 0xFF00_00FF);
    assert_eq!(pixels[3 * 4 + 3], 0xFF00_0000);
}

#[test]
fn paint_rect_with_color_fills_exactly_the_region() {
    let images = no_images();
    let mut painter = SoftwarePainter::new(Size::new(5, 5), &images);
    let region = Region { min_x: 1, min_y: 2, max_x: 4, max_y: 3, span: 3 };
    painter.paint_rect_with_color(region, Color::new(1, 2, 3, 4));
    let pixels = painter.finish();
    for y in 0..5usize {
        for x in 0..5usize {
            let inside = y == 2 && (1..4).contains(&x);
            let expected: u32 = if inside { 0x0403_0201 } else { 0xFF00_0000 };
            assert_eq!(pixels[y * 5 + x], expected);
        }
    }
}

#[test]
fn image_is_sampled_by_the_nearest_pixel() {
    let mut images = no_images();
    let id = images.add(four_pixels());
    let image = Image::new(Size::new(2, 2), id);
    let mut painter = SoftwarePainter::new(Size::new(4, 4), &images);
    painter.paint_filled_rect(PixelRect::new(0, 0, 4, 4), image.into());
    let pixels = painter.finish();
    let red: u32 = 0xFF00_00FF;
    let green: u32 = 0xFF00_FF00;
    let blue: u32 = 0xFFFF_0000;
    let white: u32 = 0xFFFF_FFFF;
    let clear: u32 = 0xFF00_0000;
    let expected: Vec<u32> = vec![
        red, red, green, clear, //
        red, red, green, clear, //
        blue, blue, white, clear, //
        clear, clear, clear, clear,
    ];
    assert_eq!(pixels, expected);
}

#[test]
fn image_rows_are_scaled_by_the_width_of_the_rectangle() {
    let mut images = no_images();
    let id = images.add(four_pixels());
    let image = Image::new(Size::new(2, 2), id);
    let mut painter = SoftwarePainter::new(Size::new(8, 8), &images);
    painter.paint_filled_rect(PixelRect::new(3, 1, 2, 6), Material::Image(image));
    let pixels = painter.finish();
    let red: u32 = 0xFF00_00FF;
    let green: u32 = 0xFF00_FF00;
    let blue: u32 = 0xFFFF_0000;
    let white: u32 = 0xFFFF_FFFF;
    for y in 0..8usize {
        for x in 0..8usize {
            let expected: u32 = match (x, y) {
                (3, 1) => red,
                (4, 1) => green,
                (3, 2) => blue,
                (4, 2) => white,
                _ => 0xFF00_0000,
            };
            assert_eq!(pixels[y * 8 + x], expected, "at ({}, {})", x, y);
        }
    }
}

#[test]
fn wide_rectangle_repeats_the_first_row_of_the_image() {
    let mut images = no_images();
    let id = images.add(four_pixels());
    let image = Image::new(Size::new(2, 2), id);
    let mut painter = SoftwarePainter::new(Size::new(9, 3), &images);
    painter.paint_rect_with_image(
        Region { min_x: 0, min_y: 0, max_x: 8, max_y: 2, span: 8 },
        image,
    );
    let pixels = painter.finish();
    let red: u32 = 0xFF00_00FF;
    let green: u32 = 0xFF00_FF00;
    let clear: u32 = 0xFF00_0000;
    let expected: Vec<u32> = vec![
        red, red, red, red, green, green, green, green, clear, //
        red, red, red, red, green, green, green, green, clear, //
        clear, clear, clear, clear, clear, clear, clear, clear, clear,
    ];
    assert_eq!(pixels, expected);
}

#[test]
fn only_images_of_the_store_can_be_painted() {
    let mut images = no_images();
    let id = images.add(four_pixels());
    let painter = SoftwarePainter::new(Size::new(2, 2), &images);
    assert!(painter.can_paint(Material::Color(Color::RED())));
    assert!(painter.can_paint(Material::Image(Image::new(Size::new(2, 2), id))));
    let stranger = zinnebeeld::ResourceId::new(ResourceNamespace::Image, 1);
    assert!(!painter.can_paint(Material::Image(Image::new(Size::new(2, 2), stranger))));
}

#[test]
fn area_is_width_times_height() {
    assert_eq!(Size::new(800, 600).area(), 480_000);
    assert_eq!(Size::new(0, 600).area(), 0);
    assert_eq!(Size::new(u32::MAX, u32::MAX).area(), 18_446_744_065_119_617_025);
    assert!(Size::new(0, 3).is_empty());
    assert!(Size::new(3, 0).is_empty());
    assert!(!Size::new(1, 1).is_empty());
}
