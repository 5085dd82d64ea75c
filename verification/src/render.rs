//! The per-field text templates: each sensor reading renders into one fixed
//! line of ASCII text — label, then the values in a fixed decimal form. Each
//! template has an exact byte-level specification and a proved bound showing
//! that the widest possible value still fits the fixed line buffer.

use vstd::prelude::*;
use crate::numfmt::{
    spec_udec, spec_idec, spec_fix4, push_udec, push_idec, push_fix4, lemma_udec_len_u16,
    lemma_idec_len, lemma_fix4_len,
};
use crate::linebuf::{RenderError, pack_line, line_bytes};

verus! {

/// Capacity of a render line buffer, in bytes.
pub const LINE_CAP: usize = 64;

/// `"GYRO ("`.
pub open spec fn gyro_prefix() -> Seq<u8> {
    seq![71u8, 89u8, 82u8, 79u8, 32u8, 40u8]
}

/// `"RGB ("`.
pub open spec fn rgb_prefix() -> Seq<u8> {
    seq![82u8, 71u8, 66u8, 32u8, 40u8]
}

/// `"TEMP "`.
pub open spec fn temp_prefix() -> Seq<u8> {
    seq![84u8, 69u8, 77u8, 80u8, 32u8]
}

/// `"PRESSURE "`.
pub open spec fn pressure_prefix() -> Seq<u8> {
    seq![80u8, 82u8, 69u8, 83u8, 83u8, 85u8, 82u8, 69u8, 32u8]
}

/// `"MAG ("`.
pub open spec fn mag_prefix() -> Seq<u8> {
    seq![77u8, 65u8, 71u8, 32u8, 40u8]
}

/// `"HUMID "`.
pub open spec fn humid_prefix() -> Seq<u8> {
    seq![72u8, 85u8, 77u8, 73u8, 68u8, 32u8]
}

/// `" TEMP "`.
pub open spec fn mid_temp() -> Seq<u8> {
    seq![32u8, 84u8, 69u8, 77u8, 80u8, 32u8]
}

/// The gyroscope line: `GYRO (x,y,z)` with each axis in fixed-point
/// ten-thousandths.
pub open spec fn spec_gyro_line(x: int, y: int, z: int) -> Seq<u8> {
    gyro_prefix() + spec_fix4(x) + seq![44u8] + spec_fix4(y) + seq![44u8] + spec_fix4(z)
        + seq![41u8]
}

/// The light line: `RGB (r,g,b,c)` with the four raw channel values.
pub open spec fn spec_rgb_line(r: int, g: int, b: int, c: int) -> Seq<u8> {
    rgb_prefix() + spec_udec(r as nat) + seq![44u8] + spec_udec(g as nat) + seq![44u8] + spec_udec(
        b as nat,
    ) + seq![44u8] + spec_udec(c as nat) + seq![41u8]
}

/// The temperature line: `TEMP t`.
pub open spec fn spec_temp_line(t: int) -> Seq<u8> {
    temp_prefix() + spec_idec(t)
}

/// The pressure line: `PRESSURE p`.
pub open spec fn spec_pressure_line(p: int) -> Seq<u8> {
    pressure_prefix() + spec_idec(p)
}

/// The magnetometer line: `MAG (x,y,z)` in milligauss.
pub open spec fn spec_mag_line(x: int, y: int, z: int) -> Seq<u8> {
    mag_prefix() + spec_idec(x) + seq![44u8] + spec_idec(y) + seq![44u8] + spec_idec(z)
        + seq![41u8]
}

/// The humidity line: `HUMID h TEMP t`.
pub open spec fn spec_humid_line(h: int, t: int) -> Seq<u8> {
    humid_prefix() + spec_idec(h) + mid_temp() + spec_idec(t)
}

/// Append the bytes of `s` (an ASCII label) to `buf`.
fn push_bytes(buf: &mut Vec<u8>, s: &[u8])
    ensures
        final(buf)@ == old(buf)@ + s@,
{
    let mut i: usize = 0;
    while i < s.len()
        invariant
            i <= s.len(),
            buf@ == old(buf)@ + s@.take(i as int),
        decreases s.len() - i,
    {
        buf.push(s[i]);
        proof {
            assert(old(buf)@ + s@.take(i + 1) =~= (old(buf)@ + s@.take(i as int)).push(
                s@[i as int],
            ));
        }
        i = i + 1;
    }
    proof {
        assert(s@.take(s.len() as int) =~= s@);
    }
}

/// Build the gyroscope line.
pub fn build_gyro_line(x: i32, y: i32, z: i32) -> (v: Vec<u8>)
    ensures
        v@ == spec_gyro_line(x as int, y as int, z as int),
        v@.len() <= LINE_CAP,
{
    let mut buf: Vec<u8> = Vec::new();
    push_bytes(&mut buf, &[71u8, 89u8, 82u8, 79u8, 32u8, 40u8]);
    push_fix4(&mut buf, x);
    buf.push(44);
    push_fix4(&mut buf, y);
    buf.push(44);
    push_fix4(&mut buf, z);
    buf.push(41);
    proof {
        assert(buf@ =~= spec_gyro_line(x as int, y as int, z as int));
        lemma_fix4_len(x as int);
        lemma_fix4_len(y as int);
        lemma_fix4_len(z as int);
    }
    buf
}

/// Build the light line.
pub fn build_rgb_line(r: u16, g: u16, b: u16, c: u16) -> (v: Vec<u8>)
    ensures
        v@ == spec_rgb_line(r as int, g as int, b as int, c as int),
        v@.len() <= LINE_CAP,
{
    let mut buf: Vec<u8> = Vec::new();
    push_bytes(&mut buf, &[82u8, 71u8, 66u8, 32u8, 40u8]);
    push_udec(&mut buf, r as u32);
    buf.push(44);
    push_udec(&mut buf, g as u32);
    buf.push(44);
    push_udec(&mut buf, b as u32);
    buf.push(44);
    push_udec(&mut buf, c as u32);
    buf.push(41);
    proof {
        assert(buf@ =~= spec_rgb_line(r as int, g as int, b as int, c as int));
        lemma_udec_len_u16(r as nat);
        lemma_udec_len_u16(g as nat);
        lemma_udec_len_u16(b as nat);
        lemma_udec_len_u16(c as nat);
    }
    buf
}

/// Build the temperature line.
pub fn build_temp_line(t: i32) -> (v: Vec<u8>)
    ensures
        v@ == spec_temp_line(t as int),
        v@.len() <= LINE_CAP,
{
    let mut buf: Vec<u8> = Vec::new();
    push_bytes(&mut buf, &[84u8, 69u8, 77u8, 80u8, 32u8]);
    push_idec(&mut buf, t);
    proof {
        assert(buf@ =~= spec_temp_line(t as int));
        lemma_idec_len(t as int);
    }
    buf
}

/// Build the pressure line.
pub fn build_pressure_line(p: i32) -> (v: Vec<u8>)
    ensures
        v@ == spec_pressure_line(p as int),
        v@.len() <= LINE_CAP,
{
    let mut buf: Vec<u8> = Vec::new();
    push_bytes(&mut buf, &[80u8, 82u8, 69u8, 83u8, 83u8, 85u8, 82u8, 69u8, 32u8]);
    push_idec(&mut buf, p);
    proof {
        assert(buf@ =~= spec_pressure_line(p as int));
        lemma_idec_len(p as int);
    }
    buf
}

/// Build the magnetometer line.
pub fn build_mag_line(x: i32, y: i32, z: i32) -> (v: Vec<u8>)
    ensures
        v@ == spec_mag_line(x as int, y as int, z as int),
        v@.len() <= LINE_CAP,
{
    let mut buf: Vec<u8> = Vec::new();
    push_bytes(&mut buf, &[77u8, 65u8, 71u8, 32u8, 40u8]);
    push_idec(&mut buf, x);
    buf.push(44);
    push_idec(&mut buf, y);
    buf.push(44);
    push_idec(&mut buf, z);
    buf.push(41);
    proof {
        assert(buf@ =~= spec_mag_line(x as int, y as int, z as int));
        lemma_idec_len(x as int);
        lemma_idec_len(y as int);
        lemma_idec_len(z as int);
    }
    buf
}

/// Build the humidity line.
pub fn build_humid_line(h: i32, t: i32) -> (v: Vec<u8>)
    ensures
        v@ == spec_humid_line(h as int, t as int),
        v@.len() <= LINE_CAP,
{
    let mut buf: Vec<u8> = Vec::new();
    push_bytes(&mut buf, &[72u8, 85u8, 77u8, 73u8, 68u8, 32u8]);
    push_idec(&mut buf, h);
    push_bytes(&mut buf, &[32u8, 84u8, 69u8, 77u8, 80u8, 32u8]);
    push_idec(&mut buf, t);
    proof {
        assert(buf@ =~= spec_humid_line(h as int, t as int));
        lemma_idec_len(h as int);
        lemma_idec_len(t as int);
    }
    buf
}

/// Render the gyroscope line into a fixed-capacity buffer. The widest
/// possible gyroscope line fits the capacity, so this always succeeds.
pub fn render_gyro_line(x: i32, y: i32, z: i32) -> (r: Result<
    heapless::Vec<u8, 64>,
    RenderError,
>)
    ensures
        r is Ok,
        line_bytes(r->Ok_0) == spec_gyro_line(x as int, y as int, z as int),
{
    let bytes = build_gyro_line(x, y, z);
    pack_line(&bytes)
}

} // verus!
