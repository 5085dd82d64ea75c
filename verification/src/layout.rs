//! The static dashboard layout: one fixed display region per semantic field,
//! the fixed polling order of the sensors, and the display dimensions. All
//! of it is compile-time configuration; the regions are full-width bands
//! stacked so that no two fields' clear rectangles overlap.

use vstd::prelude::*;
use crate::geometry::{Rect, rect_contains};

verus! {

/// Width of the display in pixels.
pub const DISPLAY_W: usize = 240;

/// Height of the display in pixels.
pub const DISPLAY_H: usize = 240;

/// The semantic fields of the dashboard, each bound to one display region.
#[derive(Clone, Copy, PartialEq, Eq, Structural, Debug)]
pub enum FieldId {
    Gyro,
    ColorLight,
    Temperature,
    Pressure,
    Magnetometer,
    Humidity,
}

/// The fixed region of each field: a full-width band, twenty pixels tall,
/// wide enough to cover the maximum rendered glyph extent of its field.
pub open spec fn spec_region_of(f: FieldId) -> Rect {
    match f {
        FieldId::Gyro => Rect { x: 0, y: 220, w: 240, h: 20 },
        FieldId::ColorLight => Rect { x: 0, y: 200, w: 240, h: 20 },
        FieldId::Temperature => Rect { x: 0, y: 180, w: 240, h: 20 },
        FieldId::Pressure => Rect { x: 0, y: 160, w: 240, h: 20 },
        FieldId::Magnetometer => Rect { x: 0, y: 140, w: 240, h: 20 },
        FieldId::Humidity => Rect { x: 0, y: 120, w: 240, h: 20 },
    }
}

/// The fixed region of each field.
pub fn region_of(f: FieldId) -> (r: Rect)
    ensures
        r == spec_region_of(f),
{
    match f {
        FieldId::Gyro => Rect { x: 0, y: 220, w: 240, h: 20 },
        FieldId::ColorLight => Rect { x: 0, y: 200, w: 240, h: 20 },
        FieldId::Temperature => Rect { x: 0, y: 180, w: 240, h: 20 },
        FieldId::Pressure => Rect { x: 0, y: 160, w: 240, h: 20 },
        FieldId::Magnetometer => Rect { x: 0, y: 140, w: 240, h: 20 },
        FieldId::Humidity => Rect { x: 0, y: 120, w: 240, h: 20 },
    }
}

/// Every field's region lies inside the display and is large enough for its
/// content, disc included.
pub proof fn lemma_region_fits(f: FieldId)
    ensures
        spec_region_of(f).fits(DISPLAY_W as int, DISPLAY_H as int),
        spec_region_of(f).w >= 20,
        spec_region_of(f).h >= 10,
{
}

/// Regions of distinct fields never overlap: a pixel inside one field's
/// clear rectangle lies inside no other field's clear rectangle, so one
/// field's partial redraw can never clip another field's content.
pub proof fn lemma_regions_disjoint(f1: FieldId, f2: FieldId, x: int, y: int)
    requires
        f1 != f2,
        rect_contains(spec_region_of(f1), x, y),
    ensures
        !rect_contains(spec_region_of(f2), x, y),
{
}

/// The physical sensors, one session each.
#[derive(Clone, Copy, PartialEq, Eq, Structural, Debug)]
pub enum SensorId {
    GyroAccel,
    ColorLight,
    PressureTemp,
    Magnetometer,
    Humidity,
}

/// How many sensors are polled each cycle.
pub const SENSOR_COUNT: usize = 5;

/// The fixed, deterministic polling order of one cycle.
pub open spec fn spec_sensor_at(i: int) -> SensorId {
    if i == 0 {
        SensorId::GyroAccel
    } else if i == 1 {
        SensorId::ColorLight
    } else if i == 2 {
        SensorId::PressureTemp
    } else if i == 3 {
        SensorId::Magnetometer
    } else {
        SensorId::Humidity
    }
}

/// The sensor polled at position `i` of a cycle.
pub fn sensor_at(i: usize) -> (s: SensorId)
    requires
        i < SENSOR_COUNT,
    ensures
        s == spec_sensor_at(i as int),
{
    if i == 0 {
        SensorId::GyroAccel
    } else if i == 1 {
        SensorId::ColorLight
    } else if i == 2 {
        SensorId::PressureTemp
    } else if i == 3 {
        SensorId::Magnetometer
    } else {
        SensorId::Humidity
    }
}

} // verus!
