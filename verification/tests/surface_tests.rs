use clue_dash::surface::Surface;
use clue_dash::geometry::Rect;
use clue_dash::controller::{apply_draw, DrawCmd, Controller, Event, Reading};
use clue_dash::layout::{FieldId, DISPLAY_W, DISPLAY_H};
use clue_dash::color::{BLACK, WHITE};
use clue_dash::render::build_temp_line;

fn snapshot(s: &Surface) -> Vec<u16> {
    let mut out = Vec::new();
    for y in 0..s.height() {
        for x in 0..s.width() {
            out.push(s.pixel(x, y));
        }
    }
    out
}

#[test]
fn redraw_changes_nothing_outside_region() {
    // a non-black canvas shows any bleed immediately
    let mut s = Surface::new(DISPLAY_W, DISPLAY_H, 7);
    let before = snapshot(&s);
    let region = Rect { x: 0, y: 220, w: 240, h: 20 };
    let text = build_temp_line(42);
    s.redraw_text_region(region, &text, BLACK, WHITE);
    let after = snapshot(&s);
    for y in 0..240usize {
        for x in 0..240usize {
            let inside = y >= 220;
            if !inside {
                assert_eq!(after[y * 240 + x], before[y * 240 + x], "bleed at {},{}", x, y);
            }
        }
    }
    // the region itself was cleared to the background
    assert_eq!(s.pixel(0, 220), BLACK);
    assert_eq!(s.pixel(239, 239), BLACK);
}

#[test]
fn redraw_twice_is_idempotent() {
    let mut s = Surface::new(DISPLAY_W, DISPLAY_H, 7);
    let region = Rect { x: 0, y: 180, w: 240, h: 20 };
    let text = build_temp_line(-123);
    s.redraw_text_region(region, &text, BLACK, WHITE);
    let once = snapshot(&s);
    s.redraw_text_region(region, &text, BLACK, WHITE);
    let twice = snapshot(&s);
    assert_eq!(once, twice);
}

#[test]
fn shrinking_value_erases_stale_digits() {
    let mut s = Surface::new(DISPLAY_W, DISPLAY_H, BLACK);
    let region = Rect { x: 0, y: 180, w: 240, h: 20 };
    let wide = build_temp_line(123456);
    s.redraw_text_region(region, &wide, BLACK, WHITE);
    // the six-digit value lights pixels beyond the two-digit extent
    let mut lit_beyond = false;
    for y in 180..200usize {
        for x in 52..240usize {
            if s.pixel(x, y) != BLACK {
                lit_beyond = true;
            }
        }
    }
    assert!(lit_beyond, "expected the wide value to reach past the narrow extent");
    // "TEMP 12" spans seven cells from x = 10: its extent ends at x = 52
    let narrow = build_temp_line(12);
    s.redraw_text_region(region, &narrow, BLACK, WHITE);
    for y in 180..200usize {
        for x in 52..240usize {
            assert_eq!(s.pixel(x, y), BLACK, "stale pixel at {},{}", x, y);
        }
    }
}

#[test]
fn color_region_disc_shows_channel_mapping() {
    let mut s = Surface::new(DISPLAY_W, DISPLAY_H, BLACK);
    let mut c = Controller::new();
    c.step(Event::InitDone);
    c.step(Event::Read(Reading::Gyro { x: 0, y: 0, z: 0 }));
    let out = c.step(Event::Read(Reading::Light { red: 12, green: 34, blue: 56, clear: 99 }));
    assert_eq!(out.draws.len(), 1);
    let cmd = &out.draws[0];
    assert_eq!(cmd.field, FieldId::ColorLight);
    assert_eq!(cmd.text.as_slice(), b"RGB (12,34,56,99)");
    let expected = (12u16 << 11) | (34u16 << 5) | 24u16;
    assert_eq!(cmd.disc_color, Some(expected));
    apply_draw(&mut s, cmd);
    // the disc's bounding square has its corner at (10, 200), side 10: its
    // centre pixels carry the mapped colour
    assert_eq!(s.pixel(14, 204), expected);
    assert_eq!(s.pixel(15, 205), expected);
    // outside the region nothing changed
    assert_eq!(s.pixel(0, 0), BLACK);
}

#[test]
fn draw_command_paints_its_own_region_only() {
    let mut s = Surface::new(DISPLAY_W, DISPLAY_H, 9);
    let cmd = DrawCmd { field: FieldId::Humidity, text: build_temp_line(1), disc_color: None };
    apply_draw(&mut s, &cmd);
    // the humidity band was cleared, its neighbours untouched
    assert_eq!(s.pixel(5, 125), BLACK);
    assert_eq!(s.pixel(5, 119), 9);
    assert_eq!(s.pixel(5, 140), 9);
}
