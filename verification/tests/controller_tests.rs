use clue_dash::controller::{
    Controller, Directive, Event, Phase, Reading, fault_blink_step, CADENCE_MS, BLINK_ON_MS,
    BLINK_OFF_MS,
};
use clue_dash::layout::SensorId;
use clue_dash::arbiter::{BusArbiter, ArbiterError};
use clue_dash::session::{SensorSession, SessionError};

fn cycle_readings() -> [Reading; 5] {
    [
        Reading::Gyro { x: 100, y: -200, z: 98000 },
        Reading::Light { red: 1, green: 2, blue: 3, clear: 4 },
        Reading::PressureTemp { temperature: 2512, pressure: 100325 },
        Reading::Mag { x: 10, y: 20, z: 30 },
        Reading::Humidity { humidity: 45, temperature: 2498 },
    ]
}

#[test]
fn init_then_first_read_polls_on() {
    let mut c = Controller::new();
    assert_eq!(c.phase(), Phase::Init);
    let out = c.step(Event::InitDone);
    assert_eq!(out.next, Directive::ReadSensor(SensorId::GyroAccel));
    assert!(out.draws.is_empty());
    let out = c.step(Event::Read(Reading::Gyro { x: 1234, y: -1, z: 98000 }));
    // a read immediately after successful initialization yields a reading and
    // no fault
    assert!(matches!(c.phase(), Phase::Polling { .. }));
    assert_eq!(out.draws.len(), 1);
    assert_eq!(out.draws[0].text.as_slice(), b"GYRO (0.1234,-0.0001,9.8000)");
    let region = clue_dash::layout::region_of(out.draws[0].field);
    assert_eq!((region.x, region.y), (0, 220));
    assert_eq!(out.next, Directive::ReadSensor(SensorId::ColorLight));
}

#[test]
fn full_cycle_visits_sensors_in_fixed_order() {
    let mut c = Controller::new();
    c.step(Event::InitDone);
    let expected_next = [
        Directive::ReadSensor(SensorId::ColorLight),
        Directive::ReadSensor(SensorId::PressureTemp),
        Directive::ReadSensor(SensorId::Magnetometer),
        Directive::ReadSensor(SensorId::Humidity),
        Directive::Delay(CADENCE_MS),
    ];
    for (i, r) in cycle_readings().into_iter().enumerate() {
        let out = c.step(Event::Read(r));
        assert_eq!(out.next, expected_next[i]);
        let want_draws = if matches!(r, Reading::PressureTemp { .. }) { 2 } else { 1 };
        assert_eq!(out.draws.len(), want_draws);
    }
    let out = c.step(Event::DelayDone);
    assert_eq!(out.next, Directive::ReadSensor(SensorId::GyroAccel));
    assert_eq!(c.phase(), Phase::Polling { cycle: 1, idx: 0 });
}

#[test]
fn pressure_read_yields_two_regions() {
    let mut c = Controller::new();
    c.step(Event::InitDone);
    c.step(Event::Read(cycle_readings()[0]));
    c.step(Event::Read(cycle_readings()[1]));
    let out = c.step(Event::Read(Reading::PressureTemp { temperature: 2512, pressure: 100325 }));
    assert_eq!(out.draws.len(), 2);
    assert_eq!(out.draws[0].text.as_slice(), b"TEMP 2512");
    assert_eq!(out.draws[1].text.as_slice(), b"PRESSURE 100325");
}

#[test]
fn bus_failure_on_cycle_five_faults_and_blinks() {
    let mut c = Controller::new();
    c.step(Event::InitDone);
    // four full successful cycles
    for _ in 0..4 {
        for r in cycle_readings() {
            c.step(Event::Read(r));
        }
        c.step(Event::DelayDone);
    }
    assert_eq!(c.phase(), Phase::Polling { cycle: 4, idx: 0 });
    // cycle five: gyro and light succeed, the pressure read fails on the bus
    c.step(Event::Read(cycle_readings()[0]));
    c.step(Event::Read(cycle_readings()[1]));
    let out = c.step(Event::ReadFailed);
    assert_eq!(c.phase(), Phase::Faulted);
    assert!(out.draws.is_empty());
    assert_eq!(out.next, Directive::HaltBlink);
    // no region ever updates after the fault
    for r in cycle_readings() {
        let out = c.step(Event::Read(r));
        assert!(out.draws.is_empty());
        assert_eq!(out.next, Directive::HaltBlink);
        assert_eq!(c.phase(), Phase::Faulted);
    }
    // the indicator begins blinking within one cadence period: the very first
    // blink step lights it immediately
    let (on, hold) = fault_blink_step(false);
    assert!(on);
    assert_eq!(hold, BLINK_ON_MS);
    let (off, hold) = fault_blink_step(true);
    assert!(!off);
    assert_eq!(hold, BLINK_OFF_MS);
}

#[test]
fn init_failure_is_fatal() {
    let mut c = Controller::new();
    let out = c.step(Event::InitFailed);
    assert_eq!(c.phase(), Phase::Faulted);
    assert!(out.draws.is_empty());
    assert_eq!(out.next, Directive::HaltBlink);
}

#[test]
fn mismatched_reading_is_fatal() {
    let mut c = Controller::new();
    c.step(Event::InitDone);
    // the gyroscope is polled first; a humidity reading is a configuration bug
    let out = c.step(Event::Read(Reading::Humidity { humidity: 1, temperature: 2 }));
    assert_eq!(c.phase(), Phase::Faulted);
    assert!(out.draws.is_empty());
}

#[test]
fn arbiter_issues_fixed_handle_count() {
    let mut a = BusArbiter::new(5);
    for want in 0..5usize {
        let lease = a.acquire().unwrap();
        assert_eq!(lease.id(), want);
    }
    assert_eq!(a.acquire().unwrap_err(), ArbiterError::HandlesExhausted);
}

#[test]
fn arbiter_serializes_transactions() {
    let mut a = BusArbiter::new(2);
    let l1 = a.acquire().unwrap();
    let l2 = a.acquire().unwrap();
    let t1 = a.begin(&l1).unwrap();
    // while one transaction holds the bus no other handle may begin
    assert_eq!(a.begin(&l2).unwrap_err(), ArbiterError::BusUnavailable);
    assert_eq!(a.end(t1), 0);
    // once released, the other handle may transact
    let t2 = a.begin(&l2).unwrap();
    assert_eq!(a.end(t2), 1);
}

#[test]
fn session_requires_full_configuration() {
    let mut a = BusArbiter::new(1);
    let lease = a.acquire().unwrap();
    let err = SensorSession::new(SensorId::Humidity, lease, false).unwrap_err();
    assert_eq!(err, SessionError::ConfigFailed);
}

#[test]
fn session_read_outcomes() {
    let mut a = BusArbiter::new(1);
    let lease = a.acquire().unwrap();
    let s = SensorSession::new(SensorId::GyroAccel, lease, true).unwrap();
    assert_eq!(s.id(), SensorId::GyroAccel);
    let good = Reading::Gyro { x: 1, y: 2, z: 3 };
    assert_eq!(s.take_reading(Some(good)).unwrap(), good);
    let wrong = Reading::Mag { x: 1, y: 2, z: 3 };
    assert_eq!(s.take_reading(Some(wrong)).unwrap_err(), SessionError::KindMismatch);
    assert_eq!(s.take_reading(None).unwrap_err(), SessionError::Transport);
}
