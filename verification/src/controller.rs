//! The main polling loop as a state machine, and the terminal fault path.
//! One step takes the machine's phase and an event — initialization finished,
//! a read completed or failed, the inter-cycle delay elapsed — and returns
//! the next phase, the draw commands for the event's reading, and a directive
//! telling the caller what to do next. Every failure converges on the
//! terminal fault phase, whose only activity is the indicator blink pattern.

use vstd::prelude::*;
use crate::color::{spec_rgb565, rgb565_pack, BLACK, WHITE};
use crate::layout::{FieldId, SensorId, spec_region_of, region_of, spec_sensor_at, sensor_at,
    lemma_region_fits, DISPLAY_W, DISPLAY_H};
use crate::linebuf::{RenderError, pack_line, line_to_vec};
use crate::render::{spec_gyro_line, spec_rgb_line, spec_temp_line, spec_pressure_line,
    spec_mag_line, spec_humid_line, build_gyro_line, build_rgb_line, build_temp_line,
    build_pressure_line, build_mag_line, build_humid_line};
use crate::surface::{Surface, text_redrawn, color_redrawn};

verus! {

/// The fixed inter-cycle cadence, in milliseconds.
pub const CADENCE_MS: u32 = 250;

/// How long the fault indicator stays lit in each blink period, in
/// milliseconds.
pub const BLINK_ON_MS: u32 = 500;

/// How long the fault indicator stays dark in each blink period, in
/// milliseconds.
pub const BLINK_OFF_MS: u32 = 100;

/// One sensor reading, immutable once produced. Fractional sensor values are
/// carried as fixed-point integers: gyroscope axes in ten-thousandths of the
/// driver's unit.
#[derive(Clone, Copy, PartialEq, Eq, Structural, Debug)]
pub enum Reading {
    /// Three gyroscope axes, ten-thousandths each.
    Gyro { x: i32, y: i32, z: i32 },
    /// The four raw light channels.
    Light { red: u16, green: u16, blue: u16, clear: u16 },
    /// Temperature and pressure, as the driver's raw integers.
    PressureTemp { temperature: i32, pressure: i32 },
    /// Three magnetometer axes in milligauss.
    Mag { x: i32, y: i32, z: i32 },
    /// Relative humidity and temperature, as the driver's raw integers.
    Humidity { humidity: i32, temperature: i32 },
}

/// Whether a reading is of the kind the given sensor produces.
pub open spec fn reading_matches(r: Reading, s: SensorId) -> bool {
    match (r, s) {
        (Reading::Gyro { .. }, SensorId::GyroAccel) => true,
        (Reading::Light { .. }, SensorId::ColorLight) => true,
        (Reading::PressureTemp { .. }, SensorId::PressureTemp) => true,
        (Reading::Mag { .. }, SensorId::Magnetometer) => true,
        (Reading::Humidity { .. }, SensorId::Humidity) => true,
        _ => false,
    }
}

/// Whether a reading is of the kind the given sensor produces.
pub fn reading_kind_matches(r: &Reading, s: SensorId) -> (b: bool)
    ensures
        b == reading_matches(*r, s),
{
    match (*r, s) {
        (Reading::Gyro { .. }, SensorId::GyroAccel) => true,
        (Reading::Light { .. }, SensorId::ColorLight) => true,
        (Reading::PressureTemp { .. }, SensorId::PressureTemp) => true,
        (Reading::Mag { .. }, SensorId::Magnetometer) => true,
        (Reading::Humidity { .. }, SensorId::Humidity) => true,
        _ => false,
    }
}

/// The phase of the main loop: starting up, in the steady polling cycle, or
/// terminally faulted.
#[derive(Clone, Copy, PartialEq, Eq, Structural, Debug)]
pub enum Phase {
    /// Acquiring the board, configuring sessions, initializing the display.
    Init,
    /// The steady state: `idx` sensors of cycle `cycle` have been read; at
    /// `idx` five the cycle waits out the inter-cycle delay.
    Polling { cycle: u64, idx: u8 },
    /// The terminal fault phase; never exited.
    Faulted,
}

/// An event the surrounding loop reports to the state machine.
#[derive(Clone, Copy, PartialEq, Eq, Structural, Debug)]
pub enum Event {
    /// Board, sessions and display all initialized.
    InitDone,
    /// Some initialization step failed.
    InitFailed,
    /// The pending read completed with this reading.
    Read(Reading),
    /// The pending read failed in the transport.
    ReadFailed,
    /// The inter-cycle delay elapsed.
    DelayDone,
}

/// What the surrounding loop must do next.
#[derive(Clone, Copy, PartialEq, Eq, Structural, Debug)]
pub enum Directive {
    /// Read this sensor and report the outcome.
    ReadSensor(SensorId),
    /// Wait this many milliseconds, then report the delay done.
    Delay(u32),
    /// Enter the terminal fault indicator loop; never report back.
    HaltBlink,
}

/// One region redraw ordered by the state machine.
pub struct DrawCmd {
    /// The field whose region is redrawn.
    pub field: FieldId,
    /// The text to paint, already rendered.
    pub text: Vec<u8>,
    /// The fill colour of the indicator disc, for the colour region alone.
    pub disc_color: Option<u16>,
}

/// The outcome of one step: zero or more region redraws, then a directive.
pub struct StepOut {
    pub draws: Vec<DrawCmd>,
    pub next: Directive,
}

/// The next phase after taking `ev` in phase `pre`. Deterministic and total:
/// any event out of turn is a fatal error, and the fault phase absorbs
/// everything.
pub open spec fn spec_next_phase(pre: Phase, ev: Event) -> Phase {
    match (pre, ev) {
        (Phase::Init, Event::InitDone) => Phase::Polling { cycle: 0, idx: 0 },
        (Phase::Init, _) => Phase::Faulted,
        (Phase::Polling { cycle, idx }, Event::Read(r)) => {
            if idx < 5 && reading_matches(r, spec_sensor_at(idx as int)) {
                Phase::Polling { cycle, idx: (idx + 1) as u8 }
            } else {
                Phase::Faulted
            }
        },
        (Phase::Polling { cycle, idx }, Event::DelayDone) => {
            if idx == 5 {
                Phase::Polling {
                    cycle: if cycle < u64::MAX {
                        (cycle + 1) as u64
                    } else {
                        cycle
                    },
                    idx: 0,
                }
            } else {
                Phase::Faulted
            }
        },
        (Phase::Polling { .. }, _) => Phase::Faulted,
        (Phase::Faulted, _) => Phase::Faulted,
    }
}

/// The directive owed in a phase: read the next sensor of the cycle, wait
/// out the cadence at the cycle's end, or blink forever once faulted.
pub open spec fn spec_directive(post: Phase) -> Directive {
    match post {
        Phase::Init => Directive::HaltBlink,
        Phase::Polling { cycle, idx } => {
            if idx < 5 {
                Directive::ReadSensor(spec_sensor_at(idx as int))
            } else {
                Directive::Delay(CADENCE_MS)
            }
        },
        Phase::Faulted => Directive::HaltBlink,
    }
}

/// The draw commands owed for a reading: the reading's field redrawn with
/// its rendered line; the light reading also fills the indicator disc with
/// the direct channel mapping; the combined pressure sensor redraws its two
/// fields in order.
pub open spec fn draws_for_ok(r: Reading, draws: Seq<DrawCmd>) -> bool {
    match r {
        Reading::Gyro { x, y, z } => {
            &&& draws.len() == 1
            &&& draws[0].field == FieldId::Gyro
            &&& draws[0].text@ == spec_gyro_line(x as int, y as int, z as int)
            &&& draws[0].disc_color is None
        },
        Reading::Light { red, green, blue, clear } => {
            &&& draws.len() == 1
            &&& draws[0].field == FieldId::ColorLight
            &&& draws[0].text@ == spec_rgb_line(red as int, green as int, blue as int, clear as int)
            &&& draws[0].disc_color == Some(spec_rgb565(red, green, blue))
        },
        Reading::PressureTemp { temperature, pressure } => {
            &&& draws.len() == 2
            &&& draws[0].field == FieldId::Temperature
            &&& draws[0].text@ == spec_temp_line(temperature as int)
            &&& draws[0].disc_color is None
            &&& draws[1].field == FieldId::Pressure
            &&& draws[1].text@ == spec_pressure_line(pressure as int)
            &&& draws[1].disc_color is None
        },
        Reading::Mag { x, y, z } => {
            &&& draws.len() == 1
            &&& draws[0].field == FieldId::Magnetometer
            &&& draws[0].text@ == spec_mag_line(x as int, y as int, z as int)
            &&& draws[0].disc_color is None
        },
        Reading::Humidity { humidity, temperature } => {
            &&& draws.len() == 1
            &&& draws[0].field == FieldId::Humidity
            &&& draws[0].text@ == spec_humid_line(humidity as int, temperature as int)
            &&& draws[0].disc_color is None
        },
    }
}

/// Render one reading into its draw commands, through the fixed-capacity
/// line buffer. Every field's widest value fits the buffer, so this always
/// succeeds.
pub fn build_draws(r: &Reading) -> (res: Result<Vec<DrawCmd>, RenderError>)
    ensures
        res is Ok,
        draws_for_ok(*r, res->Ok_0@),
{
    match *r {
        Reading::Gyro { x, y, z } => {
            let bytes = build_gyro_line(x, y, z);
            let packed = pack_line(&bytes)?;
            let cmd = DrawCmd { field: FieldId::Gyro, text: line_to_vec(&packed), disc_color: None };
            Ok(vec![cmd])
        },
        Reading::Light { red, green, blue, clear } => {
            let bytes = build_rgb_line(red, green, blue, clear);
            let packed = pack_line(&bytes)?;
            let cmd = DrawCmd {
                field: FieldId::ColorLight,
                text: line_to_vec(&packed),
                disc_color: Some(rgb565_pack(red, green, blue)),
            };
            Ok(vec![cmd])
        },
        Reading::PressureTemp { temperature, pressure } => {
            let tbytes = build_temp_line(temperature);
            let tpacked = pack_line(&tbytes)?;
            let pbytes = build_pressure_line(pressure);
            let ppacked = pack_line(&pbytes)?;
            let tcmd = DrawCmd {
                field: FieldId::Temperature,
                text: line_to_vec(&tpacked),
                disc_color: None,
            };
            let pcmd = DrawCmd {
                field: FieldId::Pressure,
                text: line_to_vec(&ppacked),
                disc_color: None,
            };
            Ok(vec![tcmd, pcmd])
        },
        Reading::Mag { x, y, z } => {
            let bytes = build_mag_line(x, y, z);
            let packed = pack_line(&bytes)?;
            let cmd = DrawCmd {
                field: FieldId::Magnetometer,
                text: line_to_vec(&packed),
                disc_color: None,
            };
            Ok(vec![cmd])
        },
        Reading::Humidity { humidity, temperature } => {
            let bytes = build_humid_line(humidity, temperature);
            let packed = pack_line(&bytes)?;
            let cmd = DrawCmd {
                field: FieldId::Humidity,
                text: line_to_vec(&packed),
                disc_color: None,
            };
            Ok(vec![cmd])
        },
    }
}

/// The main loop's state machine.
pub struct Controller {
    phase: Phase,
}

impl Controller {
    /// The machine's phase.
    pub closed spec fn spec_phase(self) -> Phase {
        self.phase
    }

    /// The machine's structural invariant: a polling index never runs past
    /// the delay position.
    pub open spec fn wf(self) -> bool {
        match self.spec_phase() {
            Phase::Polling { cycle, idx } => idx <= 5,
            _ => true,
        }
    }

    /// A machine at startup.
    pub fn new() -> (c: Controller)
        ensures
            c.wf(),
            c.spec_phase() == Phase::Init,
    {
        Controller { phase: Phase::Init }
    }

    /// The machine's phase, for observation.
    pub fn phase(&self) -> (p: Phase)
        ensures
            p == self.spec_phase(),
    {
        self.phase
    }

    /// Take one event: move to the next phase, emit the draw commands the
    /// event's reading owes, and say what to do next.
    pub fn step(&mut self, ev: Event) -> (out: StepOut)
        requires
            old(self).wf(),
        ensures
            final(self).wf(),
            final(self).spec_phase() == spec_next_phase(old(self).spec_phase(), ev),
            out.next == spec_directive(final(self).spec_phase()),
            (match (old(self).spec_phase(), ev) {
                (Phase::Polling { cycle, idx }, Event::Read(r)) => {
                    if idx < 5 && reading_matches(r, spec_sensor_at(idx as int)) {
                        draws_for_ok(r, out.draws@)
                    } else {
                        out.draws@.len() == 0
                    }
                },
                _ => out.draws@.len() == 0,
            }),
    {
        let phase = self.phase;
        match (phase, ev) {
            (Phase::Init, Event::InitDone) => {
                self.phase = Phase::Polling { cycle: 0, idx: 0 };
                StepOut { draws: Vec::new(), next: Directive::ReadSensor(sensor_at(0)) }
            },
            (Phase::Polling { cycle, idx }, Event::Read(r)) => {
                if idx < 5 && reading_kind_matches(&r, sensor_at(idx as usize)) {
                    match build_draws(&r) {
                        Ok(draws) => {
                            let new_idx = idx + 1;
                            self.phase = Phase::Polling { cycle, idx: new_idx };
                            let next = if new_idx < 5 {
                                Directive::ReadSensor(sensor_at(new_idx as usize))
                            } else {
                                Directive::Delay(CADENCE_MS)
                            };
                            StepOut { draws, next }
                        },
                        Err(_) => {
                            self.phase = Phase::Faulted;
                            StepOut { draws: Vec::new(), next: Directive::HaltBlink }
                        },
                    }
                } else {
                    self.phase = Phase::Faulted;
                    StepOut { draws: Vec::new(), next: Directive::HaltBlink }
                }
            },
            (Phase::Polling { cycle, idx }, Event::DelayDone) => {
                if idx == 5 {
                    let new_cycle = if cycle < u64::MAX {
                        cycle + 1
                    } else {
                        cycle
                    };
                    self.phase = Phase::Polling { cycle: new_cycle, idx: 0 };
                    StepOut { draws: Vec::new(), next: Directive::ReadSensor(sensor_at(0)) }
                } else {
                    self.phase = Phase::Faulted;
                    StepOut { draws: Vec::new(), next: Directive::HaltBlink }
                }
            },
            _ => {
                self.phase = Phase::Faulted;
                StepOut { draws: Vec::new(), next: Directive::HaltBlink }
            },
        }
    }
}

/// One step of the terminal fault indicator: a dark indicator lights for the
/// long half of the period, a lit one goes dark for the short half. The
/// pattern repeats forever and depends on nothing the main loop ever set.
pub fn fault_blink_step(led_on: bool) -> (r: (bool, u32))
    ensures
        !led_on ==> r == (true, BLINK_ON_MS),
        led_on ==> r == (false, BLINK_OFF_MS),
{
    if led_on {
        (false, BLINK_OFF_MS)
    } else {
        (true, BLINK_ON_MS)
    }
}

/// Apply one draw command to a surface: redraw the command's region with its
/// rendered text — and, for the colour region, the indicator disc — over the
/// black background in white.
pub fn apply_draw(s: &mut Surface, cmd: &DrawCmd)
    requires
        old(s).wf(),
        old(s).spec_width() == DISPLAY_W,
        old(s).spec_height() == DISPLAY_H,
        cmd.text@.len() <= 256,
    ensures
        cmd.disc_color is None ==> text_redrawn(
            *old(s),
            *final(s),
            spec_region_of(cmd.field),
            cmd.text@,
            BLACK,
            WHITE,
        ),
        cmd.disc_color matches Some(dc) ==> color_redrawn(
            *old(s),
            *final(s),
            spec_region_of(cmd.field),
            dc,
            cmd.text@,
            BLACK,
            WHITE,
        ),
{
    let r = region_of(cmd.field);
    proof {
        lemma_region_fits(cmd.field);
    }
    match cmd.disc_color {
        None => s.redraw_text_region(r, &cmd.text, BLACK, WHITE),
        Some(dc) => s.redraw_color_region(r, dc, &cmd.text, BLACK, WHITE),
    }
}

/// Successful initialization enters the polling cycle, and a read that
/// delivers a reading of the polled sensor's kind — valid data on a working
/// bus — keeps the machine polling: the fault phase is not entered by a
/// read immediately after successful initialization.
pub proof fn lemma_read_after_init_no_fault(r: Reading)
    requires
        reading_matches(r, spec_sensor_at(0)),
    ensures
        spec_next_phase(Phase::Init, Event::InitDone) is Polling,
        spec_next_phase(spec_next_phase(Phase::Init, Event::InitDone), Event::Read(r)) is Polling,
{
}

/// In any polling position, a read that delivers a reading of the polled
/// sensor's kind never enters the fault phase.
pub proof fn lemma_matching_read_no_fault(cycle: u64, idx: u8, r: Reading)
    requires
        idx < 5,
        reading_matches(r, spec_sensor_at(idx as int)),
    ensures
        spec_next_phase(Phase::Polling { cycle, idx }, Event::Read(r)) is Polling,
{
}

/// The fault phase is terminal: no event leaves it, and its directive is
/// always the indicator blink loop — a faulted machine never orders a
/// region redraw again.
pub proof fn lemma_fault_terminal(ev: Event)
    ensures
        spec_next_phase(Phase::Faulted, ev) == Phase::Faulted,
        spec_directive(Phase::Faulted) == Directive::HaltBlink,
{
}

} // verus!
