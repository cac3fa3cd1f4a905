use rpi_led_matrix::LedCanvas;
use rpi_led_matrix::LedColor;
use rpi_led_matrix::LedFont;
use rpi_led_matrix::Pixel;

fn red() -> LedColor {
    LedColor { red: 255, green: 0, blue: 0 }
}

fn off() -> LedColor {
    LedColor { red: 0, green: 0, blue: 0 }
}

fn ten_by_twenty() -> LedFont {
    LedFont::new(Some((10, 20))).unwrap()
}

#[test]
fn blank_canvas_is_off() {
    let c = LedCanvas::blank(8, 4);
    assert_eq!(c.size(), (8, 4));
    for x in 0..8 {
        for y in 0..4 {
            assert_eq!(c.pixel_at(Pixel { x, y }), Some(off()));
        }
    }
}

#[test]
fn set_writes_one_pixel() {
    let mut c = LedCanvas::blank(8, 8);
    c.set(Pixel { x: 3, y: 5 }, &red());
    assert_eq!(c.pixel_at(Pixel { x: 3, y: 5 }), Some(red()));
    assert_eq!(c.pixel_at(Pixel { x: 5, y: 3 }), Some(off()));
    assert_eq!(c.pixel_at(Pixel { x: 0, y: 0 }), Some(off()));
}

#[test]
fn set_outside_grid_is_noop() {
    let mut c = LedCanvas::blank(4, 4);
    c.set(Pixel { x: -1, y: 0 }, &red());
    c.set(Pixel { x: 0, y: -1 }, &red());
    c.set(Pixel { x: 4, y: 0 }, &red());
    c.set(Pixel { x: 0, y: 4 }, &red());
    for x in 0..4 {
        for y in 0..4 {
            assert_eq!(c.pixel_at(Pixel { x, y }), Some(off()));
        }
    }
    assert_eq!(c.pixel_at(Pixel { x: 4, y: 0 }), None);
}

#[test]
fn fill_sets_every_pixel() {
    let mut c = LedCanvas::blank(6, 3);
    let teal = LedColor { red: 0, green: 128, blue: 128 };
    c.fill(&teal);
    for x in 0..6 {
        for y in 0..3 {
            assert_eq!(c.pixel_at(Pixel { x, y }), Some(teal));
        }
    }
}

#[test]
fn clear_sets_every_pixel_off() {
    let mut c = LedCanvas::blank(6, 3);
    c.fill(&red());
    c.clear();
    for x in 0..6 {
        for y in 0..3 {
            assert_eq!(c.pixel_at(Pixel { x, y }), Some(off()));
        }
    }
}

#[test]
fn draw_line_paints_endpoints_and_diagonal() {
    let mut c = LedCanvas::blank(8, 8);
    c.draw_line(Pixel { x: 0, y: 0 }, Pixel { x: 7, y: 7 }, &red());
    assert_eq!(c.pixel_at(Pixel { x: 0, y: 0 }), Some(red()));
    assert_eq!(c.pixel_at(Pixel { x: 7, y: 7 }), Some(red()));
    for i in 0..8 {
        assert_eq!(c.pixel_at(Pixel { x: i, y: i }), Some(red()));
    }
    assert_eq!(c.pixel_at(Pixel { x: 0, y: 7 }), Some(off()));
}

#[test]
fn draw_line_horizontal_and_degenerate() {
    let mut c = LedCanvas::blank(8, 8);
    c.draw_line(Pixel { x: 1, y: 2 }, Pixel { x: 6, y: 2 }, &red());
    for x in 1..=6 {
        assert_eq!(c.pixel_at(Pixel { x, y: 2 }), Some(red()));
    }
    assert_eq!(c.pixel_at(Pixel { x: 0, y: 2 }), Some(off()));
    let mut d = LedCanvas::blank(4, 4);
    d.draw_line(Pixel { x: 2, y: 2 }, Pixel { x: 2, y: 2 }, &red());
    assert_eq!(d.pixel_at(Pixel { x: 2, y: 2 }), Some(red()));
}

#[test]
fn draw_line_clips_outside_grid() {
    let mut c = LedCanvas::blank(4, 4);
    c.draw_line(Pixel { x: -10, y: -10 }, Pixel { x: -2, y: -2 }, &red());
    for x in 0..4 {
        for y in 0..4 {
            assert_eq!(c.pixel_at(Pixel { x, y }), Some(off()));
        }
    }
    assert_eq!(c.size(), (4, 4));
}

#[test]
fn draw_circle_paints_cardinal_points() {
    let mut c = LedCanvas::blank(16, 16);
    c.draw_circle(Pixel { x: 8, y: 8 }, 5, &red());
    assert_eq!(c.pixel_at(Pixel { x: 13, y: 8 }), Some(red()));
    assert_eq!(c.pixel_at(Pixel { x: 3, y: 8 }), Some(red()));
    assert_eq!(c.pixel_at(Pixel { x: 8, y: 13 }), Some(red()));
    assert_eq!(c.pixel_at(Pixel { x: 8, y: 3 }), Some(red()));
    assert_eq!(c.pixel_at(Pixel { x: 8, y: 8 }), Some(off()));
    assert_eq!(c.size(), (16, 16));
}

#[test]
fn draw_circle_radius_zero_paints_center() {
    let mut c = LedCanvas::blank(4, 4);
    c.draw_circle(Pixel { x: 1, y: 1 }, 0, &red());
    assert_eq!(c.pixel_at(Pixel { x: 1, y: 1 }), Some(red()));
}

#[test]
fn draw_text_empty_has_zero_advance() {
    let mut c = LedCanvas::blank(32, 32);
    let font = ten_by_twenty();
    let green = LedColor { red: 0, green: 127, blue: 0 };
    let advance = c.draw_text(&font, "", Pixel { x: 0, y: 16 }, &green, 0, false);
    assert_eq!(advance, 0);
}

#[test]
fn draw_text_advance_counts_glyphs() {
    let mut c = LedCanvas::blank(32, 32);
    let font = ten_by_twenty();
    let green = LedColor { red: 0, green: 127, blue: 0 };
    let advance = c.draw_text(&font, "Mah boy! ", Pixel { x: 0, y: 16 }, &green, 0, false);
    assert_eq!(advance, 90);
    assert!(advance > 0);
}

#[test]
fn draw_text_kerning_widens_advance() {
    let mut c = LedCanvas::blank(32, 32);
    let font = ten_by_twenty();
    let green = LedColor { red: 0, green: 127, blue: 0 };
    let advance = c.draw_text(&font, "abc", Pixel { x: 0, y: 16 }, &green, 2, false);
    assert_eq!(advance, 36);
    let narrowed = c.draw_text(&font, "abc", Pixel { x: 0, y: 16 }, &green, -3, false);
    assert_eq!(narrowed, 21);
}

#[test]
fn draw_text_vertical_uses_glyph_height() {
    let mut c = LedCanvas::blank(32, 64);
    let font = ten_by_twenty();
    let green = LedColor { red: 0, green: 127, blue: 0 };
    let advance = c.draw_text(&font, "ab", Pixel { x: 8, y: 0 }, &green, 0, true);
    assert_eq!(advance, 40);
}

#[test]
fn draw_text_counts_characters_not_bytes() {
    let mut c = LedCanvas::blank(64, 32);
    let font = ten_by_twenty();
    let green = LedColor { red: 0, green: 127, blue: 0 };
    let advance = c.draw_text(&font, "h\u{00e9}llo", Pixel { x: 0, y: 16 }, &green, 0, false);
    assert_eq!(advance, 50);
}
