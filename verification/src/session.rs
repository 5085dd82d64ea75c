//! Sensor sessions: one per physical sensor, each wrapping a driver behind
//! the uniform "produce a reading of this session's kind" capability. A
//! session holds its logical bus lease for the whole program lifetime and is
//! live only once its fixed configuration has been applied in full: a
//! half-configured sensor must never be sampled, so configuration failure is
//! fatal, with no partial or degraded session.

use vstd::prelude::*;
use crate::arbiter::BusLease;
use crate::layout::SensorId;
use crate::controller::{Reading, reading_matches};

verus! {

/// A failure while creating or sampling a session.
#[derive(Clone, Copy, PartialEq, Eq, Structural, Debug)]
pub enum SessionError {
    /// The fixed configuration could not be fully applied at startup.
    ConfigFailed,
    /// The bus transaction of a read failed.
    Transport,
    /// The driver handed back a reading of the wrong kind.
    KindMismatch,
}

/// One live sensor session.
#[derive(Debug)]
pub struct SensorSession {
    id: SensorId,
    lease: BusLease,
}

impl SensorSession {
    /// The sensor this session samples.
    pub closed spec fn spec_id(self) -> SensorId {
        self.id
    }

    /// The logical bus handle the session owns.
    pub closed spec fn spec_lease_id(self) -> int {
        self.lease.spec_id()
    }

    pub fn id(&self) -> (s: SensorId)
        ensures
            s == self.spec_id(),
    {
        self.id
    }

    /// The session's logical bus handle, for opening a transaction.
    pub fn lease(&self) -> (l: &BusLease)
        ensures
            l.spec_id() == self.spec_lease_id(),
    {
        &self.lease
    }

    /// Create the session once the driver's fixed configuration has been
    /// applied. Succeeds exactly when every configuration step succeeded;
    /// otherwise the session does not come into being at all.
    pub fn new(id: SensorId, lease: BusLease, config_applied: bool) -> (r: Result<
        SensorSession,
        SessionError,
    >)
        ensures
            config_applied ==> r is Ok && r->Ok_0.spec_id() == id && r->Ok_0.spec_lease_id()
                == lease.spec_id(),
            !config_applied ==> r is Err && r->Err_0 == SessionError::ConfigFailed,
    {
        if config_applied {
            Ok(SensorSession { id, lease })
        } else {
            Err(SessionError::ConfigFailed)
        }
    }

    /// Accept the outcome of one bus transaction for this session: the raw
    /// reading when the transport delivered one of the session's kind, the
    /// exact error otherwise. Every transport failure is fatal for the tick —
    /// there is no retry.
    pub fn take_reading(&self, outcome: Option<Reading>) -> (r: Result<Reading, SessionError>)
        ensures
            outcome is Some && reading_matches(outcome->0, self.spec_id()) ==> r is Ok && r->Ok_0
                == outcome->0,
            outcome is Some && !reading_matches(outcome->0, self.spec_id()) ==> r is Err && r->Err_0
                == SessionError::KindMismatch,
            outcome is None ==> r is Err && r->Err_0 == SessionError::Transport,
    {
        match outcome {
            Some(rd) => {
                if crate::controller::reading_kind_matches(&rd, self.id) {
                    Ok(rd)
                } else {
                    Err(SessionError::KindMismatch)
                }
            },
            None => Err(SessionError::Transport),
        }
    }
}

/// A big-endian sixteen-bit word from two wire bytes.
pub fn be16(hi: u8, lo: u8) -> (r: u16)
    ensures
        r == hi * 256 + lo,
{
    hi as u16 * 256 + lo as u16
}

/// The humidity sensor's conversion of its raw sixteen-bit words: temperature
/// in hundredths of a degree, relative humidity in hundredths of a percent.
pub fn humidity_reading_from_raw(raw_temperature: u16, raw_humidity: u16) -> (r: Reading)
    ensures
        r == (Reading::Humidity {
            humidity: ((10000 * raw_humidity as int) / 65535) as i32,
            temperature: ((-4500 + (17500 * raw_temperature as int) / 65535)) as i32,
        }),
{
    let t_scaled: u32 = (17500 * raw_temperature as u32) / 65535;
    let h_scaled: u32 = (10000 * raw_humidity as u32) / 65535;
    let temperature: i32 = -4500 + t_scaled as i32;
    let humidity: i32 = h_scaled as i32;
    Reading::Humidity { humidity, temperature }
}

} // verus!
