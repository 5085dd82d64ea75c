use clue_dash::render::{
    build_gyro_line, build_rgb_line, build_temp_line, build_pressure_line, build_mag_line,
    build_humid_line, render_gyro_line,
};
use clue_dash::linebuf::{pack_line, line_to_vec, line_len, RenderError};
use clue_dash::color::rgb565_pack;

#[test]
fn gyro_line_scenario() {
    // 0.1234, -0.0001, 9.8000 in ten-thousandths
    let v = build_gyro_line(1234, -1, 98000);
    assert_eq!(v.as_slice(), b"GYRO (0.1234,-0.0001,9.8000)");
}

#[test]
fn gyro_line_through_fixed_buffer() {
    let buf = render_gyro_line(1234, -1, 98000).unwrap();
    assert_eq!(line_len(&buf), 28);
    let v = line_to_vec(&buf);
    assert_eq!(v.as_slice(), b"GYRO (0.1234,-0.0001,9.8000)");
}

#[test]
fn rgb_line_scenario() {
    let v = build_rgb_line(12, 34, 56, 99);
    assert_eq!(v.as_slice(), b"RGB (12,34,56,99)");
}

#[test]
fn rgb565_direct_channel_mapping() {
    // red 12 -> bits 11..16, green 34 -> bits 5..11, blue 56 -> low byte 56
    // masked to five bits = 24
    assert_eq!(rgb565_pack(12, 34, 56), (12u16 << 11) | (34u16 << 5) | 24u16);
    // channels above one byte are narrowed to their low byte first
    assert_eq!(rgb565_pack(0x0100, 0x0100, 0x0100), 0);
    assert_eq!(rgb565_pack(0xffff, 0xffff, 0xffff), (31u16 << 11) | (63u16 << 5) | 31u16);
}

#[test]
fn temp_and_pressure_lines() {
    assert_eq!(build_temp_line(2537).as_slice(), b"TEMP 2537");
    assert_eq!(build_temp_line(-5).as_slice(), b"TEMP -5");
    assert_eq!(build_pressure_line(100325).as_slice(), b"PRESSURE 100325");
    assert_eq!(build_pressure_line(0).as_slice(), b"PRESSURE 0");
}

#[test]
fn mag_line_values() {
    assert_eq!(build_mag_line(-100, 0, 452).as_slice(), b"MAG (-100,0,452)");
}

#[test]
fn humid_line_values() {
    assert_eq!(build_humid_line(4567, -12).as_slice(), b"HUMID 4567 TEMP -12");
}

#[test]
fn widest_values_fit_line_buffer() {
    // the widest possible value of every field fits the 64-byte buffer
    let g = build_gyro_line(i32::MIN, i32::MIN, i32::MIN);
    assert_eq!(g.as_slice(), b"GYRO (-214748.3648,-214748.3648,-214748.3648)");
    assert!(g.len() <= 64);
    assert!(pack_line(&g).is_ok());
    let r = build_rgb_line(u16::MAX, u16::MAX, u16::MAX, u16::MAX);
    assert!(r.len() <= 64 && pack_line(&r).is_ok());
    let t = build_temp_line(i32::MIN);
    assert!(t.len() <= 64 && pack_line(&t).is_ok());
    let p = build_pressure_line(i32::MIN);
    assert!(p.len() <= 64 && pack_line(&p).is_ok());
    let m = build_mag_line(i32::MIN, i32::MIN, i32::MIN);
    assert!(m.len() <= 64 && pack_line(&m).is_ok());
    let h = build_humid_line(i32::MIN, i32::MIN);
    assert!(h.len() <= 64 && pack_line(&h).is_ok());
}

#[test]
fn oversized_text_is_a_capacity_error() {
    let wide: Vec<u8> = vec![65u8; 65];
    assert_eq!(pack_line(&wide).unwrap_err(), RenderError::CapacityExceeded);
    let exact: Vec<u8> = vec![65u8; 64];
    assert!(pack_line(&exact).is_ok());
}

#[test]
fn fixed_point_edges() {
    assert_eq!(build_gyro_line(0, -10000, 10001).as_slice(), b"GYRO (0.0000,-1.0000,1.0001)");
    assert_eq!(build_gyro_line(9999, -9999, 2147483647).as_slice(), b"GYRO (0.9999,-0.9999,214748.3647)");
}
