//! A verified model of a small sensor dashboard firmware: a bus arbiter that
//! hands out serialized logical handles to one shared bus, a display surface
//! with region-scoped partial redraws, a render pipeline that formats sensor
//! readings into bounded text buffers, and the main polling state machine
//! with its terminal fault path.

pub mod arbiter;
pub mod color;
pub mod controller;
pub mod font;
pub mod geometry;
pub mod layout;
pub mod linebuf;
pub mod numfmt;
pub mod render;
pub mod session;
pub mod surface;
