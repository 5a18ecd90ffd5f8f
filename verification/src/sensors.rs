//! What the monitor remembers of each sensor between two readings.
use vstd::prelude::*;
use crate::protocol::{
    be16, byte_sum, parse_pms7003, parse_ze08, pms_carried_checksum, pms_checksum, ze08_checksum, FrameError,
    HchoReading, PmReading,
};

verus! {

/// Health of a sensor.
#[derive(Clone, Copy, Debug, PartialEq, Eq, Structural)]
pub enum SensorStatus {
    /// No answer yet since power-on.
    Init,
    /// The last reading was good.
    Good,
    /// The sensor is failing.
    Error,
}

/// Number of consecutive failed readings after which the temperature and
/// humidity sensor is declared in error.
pub const TEMPHUMI_FAILS_FOR_ERROR: u8 = 3;

/// Last temperature and humidity, each as whole and tenths.
#[derive(Clone, Copy, Debug, PartialEq, Eq, Structural)]
pub struct TempHumi {
    pub status: SensorStatus,
    /// Consecutive failed readings.
    pub fail_count: u8,
    pub is_temp_neg: bool,
    pub temp_whole: u32,
    pub temp_frac: u32,
    pub humi_whole: u32,
    pub humi_frac: u32,
}

/// One reading of the temperature and humidity sensor, rounded to tenths.
#[derive(Clone, Copy, Debug, PartialEq, Eq, Structural)]
pub struct TempHumiSample {
    /// Whether the temperature is below zero.
    pub is_negative: bool,
    /// Absolute temperature in tenths of a degree Celsius.
    pub temp_tenths: u32,
    /// Relative humidity in tenths of a percent.
    pub humi_tenths: u32,
}

impl Default for TempHumi {
    fn default() -> (r: Self)
        ensures
            r == (TempHumi {
                status: SensorStatus::Init,
                fail_count: 0,
                is_temp_neg: false,
                temp_whole: 0,
                temp_frac: 0,
                humi_whole: 0,
                humi_frac: 0,
            }),
    {
        TempHumi {
            status: SensorStatus::Init,
            fail_count: 0,
            is_temp_neg: false,
            temp_whole: 0,
            temp_frac: 0,
            humi_whole: 0,
            humi_frac: 0,
        }
    }
}

/// The cache after a good reading.
pub open spec fn spec_temphumi_record(t: TempHumi, s: TempHumiSample) -> TempHumi {
    TempHumi {
        status: SensorStatus::Good,
        fail_count: 0,
        is_temp_neg: s.is_negative,
        temp_whole: s.temp_tenths / 10,
        temp_frac: s.temp_tenths % 10,
        humi_whole: s.humi_tenths / 10,
        humi_frac: s.humi_tenths % 10,
    }
}

/// The cache after a failed reading: one more failure (saturating), and the
/// status becomes `Error` at the third consecutive one.
pub open spec fn spec_temphumi_fail(t: TempHumi) -> TempHumi {
    let n = if t.fail_count == 255 { 255u8 } else { (t.fail_count + 1) as u8 };
    TempHumi {
        fail_count: n,
        status: if n >= TEMPHUMI_FAILS_FOR_ERROR { SensorStatus::Error } else { t.status },
        ..t
    }
}

impl TempHumi {
    /// Stores a good reading.
    pub fn record_reading(&mut self, s: TempHumiSample)
        ensures
            *final(self) == spec_temphumi_record(*old(self), s),
            final(self).status == SensorStatus::Good,
            final(self).fail_count == 0,
            final(self).is_temp_neg == s.is_negative,
            final(self).temp_whole * 10 + final(self).temp_frac == s.temp_tenths,
            final(self).temp_frac < 10,
            final(self).humi_whole * 10 + final(self).humi_frac == s.humi_tenths,
            final(self).humi_frac < 10,
    {
        self.fail_count = 0;
        self.status = SensorStatus::Good;
        self.is_temp_neg = s.is_negative;
        self.temp_whole = s.temp_tenths / 10;
        self.temp_frac = s.temp_tenths % 10;
        self.humi_whole = s.humi_tenths / 10;
        self.humi_frac = s.humi_tenths % 10;
    }

    /// Counts a failed reading; tells whether the status has just turned to
    /// `Error`.
    pub fn record_failure(&mut self) -> (turned_error: bool)
        ensures
            *final(self) == spec_temphumi_fail(*old(self)),
            turned_error == (old(self).status != SensorStatus::Error && final(self).status == SensorStatus::Error),
    {
        self.fail_count = self.fail_count.saturating_add(1);
        if self.fail_count >= TEMPHUMI_FAILS_FOR_ERROR && self.status != SensorStatus::Error {
            self.status = SensorStatus::Error;
            true
        } else {
            false
        }
    }
}

/// Three failed readings in a row put the sensor in error, whatever came
/// before.
pub proof fn lemma_three_failures_error(t: TempHumi)
    ensures
        spec_temphumi_fail(spec_temphumi_fail(spec_temphumi_fail(t))).status == SensorStatus::Error,
{
}

/// A good reading clears the failure count and the error.
pub proof fn lemma_reading_recovers(t: TempHumi, s: TempHumiSample)
    ensures
        spec_temphumi_record(t, s).status == SensorStatus::Good,
        spec_temphumi_record(t, s).fail_count == 0,
        spec_temphumi_record(t, s).temp_whole * 10 + spec_temphumi_record(t, s).temp_frac == s.temp_tenths,
        spec_temphumi_record(t, s).humi_whole * 10 + spec_temphumi_record(t, s).humi_frac == s.humi_tenths,
{
}

/// Last PM2.5 and PM10 concentrations.
#[derive(Clone, Copy, Debug, PartialEq, Eq, Structural)]
pub struct Pm25Cache {
    pub status: SensorStatus,
    pub pm2_5: u16,
    pub pm10: u16,
}

impl Default for Pm25Cache {
    fn default() -> (r: Self)
        ensures
            r == (Pm25Cache { status: SensorStatus::Init, pm2_5: 0, pm10: 0 }),
    {
        Pm25Cache { status: SensorStatus::Init, pm2_5: 0, pm10: 0 }
    }
}

/// Last formaldehyde concentration.
#[derive(Clone, Copy, Debug, PartialEq, Eq, Structural)]
pub struct HchoCache {
    pub status: SensorStatus,
    /// Micrograms per cubic metre (1000 of them make a milligram).
    pub ug_m3: u16,
    /// Parts per billion.
    pub ppb: u16,
}

impl Default for HchoCache {
    fn default() -> (r: Self)
        ensures
            r == (HchoCache { status: SensorStatus::Init, ug_m3: 0, ppb: 0 }),
    {
        HchoCache { status: SensorStatus::Init, ug_m3: 0, ppb: 0 }
    }
}

/// The PM cache after an answer (`None`: no header found): `Ok` with the new
/// values for a valid frame, `Error` with the old values otherwise.
pub open spec fn spec_pm25_apply(c: Pm25Cache, frame: Option<Seq<u8>>) -> Pm25Cache {
    match frame {
        Some(f) => if pms_checksum(f) == pms_carried_checksum(f) {
            Pm25Cache { status: SensorStatus::Good, pm2_5: be16(f[12], f[13]) as u16, pm10: be16(f[14], f[15]) as u16 }
        } else {
            Pm25Cache { status: SensorStatus::Error, ..c }
        },
        None => Pm25Cache { status: SensorStatus::Error, ..c },
    }
}

/// The HCHO cache after an answer (`None`: no header found): `Ok` with the
/// new values for a valid frame, `Error` with the old values otherwise.
pub open spec fn spec_hcho_apply(c: HchoCache, frame: Option<Seq<u8>>) -> HchoCache {
    match frame {
        Some(f) => if ze08_checksum(f) == f[8] {
            HchoCache { status: SensorStatus::Good, ug_m3: be16(f[2], f[3]) as u16, ppb: be16(f[6], f[7]) as u16 }
        } else {
            HchoCache { status: SensorStatus::Error, ..c }
        },
        None => HchoCache { status: SensorStatus::Error, ..c },
    }
}

/// The view of an optional frame.
pub open spec fn frame_view<const N: usize>(frame: Option<&[u8; N]>) -> Option<Seq<u8>> {
    match frame {
        Some(f) => Some(f@),
        None => None,
    }
}

impl Pm25Cache {
    /// Takes the answer of the sensor: a full frame, or `None` when its header
    /// was not found.
    pub fn apply(&mut self, frame: Option<&[u8; 32]>) -> (r: Result<PmReading, FrameError>)
        ensures
            *final(self) == spec_pm25_apply(*old(self), frame_view(frame)),
            (r is Ok) == (final(self).status == SensorStatus::Good),
            frame is None ==> r == Err::<PmReading, FrameError>(FrameError::HeaderTimeout),
            r matches Ok(v) ==> v.pm2_5 == final(self).pm2_5 && v.pm10 == final(self).pm10,
            frame matches Some(f) ==> r is Err ==> r == Err::<PmReading, FrameError>(
                FrameError::Checksum { computed: pms_checksum(f@) as u16, carried: pms_carried_checksum(f@) as u16 }),
            frame matches Some(f) ==> (byte_sum(f@, 0, 30) == f@[30] as int * 256 + f@[31] as int) ==> {
                &&& final(self).status == SensorStatus::Good
                &&& final(self).pm2_5 as int == f@[12] as int * 256 + f@[13] as int
                &&& final(self).pm10 as int == f@[14] as int * 256 + f@[15] as int
                &&& r == Ok::<PmReading, FrameError>(PmReading { pm2_5: final(self).pm2_5, pm10: final(self).pm10 })
            },
            frame matches Some(f) ==> (byte_sum(f@, 0, 30) != f@[30] as int * 256 + f@[31] as int) ==> {
                &&& final(self).status == SensorStatus::Error
                &&& final(self).pm2_5 == old(self).pm2_5
                &&& final(self).pm10 == old(self).pm10
            },
            frame is None ==> final(self).status == SensorStatus::Error && final(self).pm2_5 == old(self).pm2_5
                && final(self).pm10 == old(self).pm10,
    {
        match frame {
            Some(f) => {
                let r = parse_pms7003(f);
                match r {
                    Ok(v) => {
                        self.status = SensorStatus::Good;
                        self.pm2_5 = v.pm2_5;
                        self.pm10 = v.pm10;
                    },
                    Err(_) => {
                        self.status = SensorStatus::Error;
                    },
                }
                r
            },
            None => {
                self.status = SensorStatus::Error;
                Err(FrameError::HeaderTimeout)
            },
        }
    }
}

impl HchoCache {
    /// Takes the answer of the sensor: a full frame, or `None` when its header
    /// was not found.
    pub fn apply(&mut self, frame: Option<&[u8; 9]>) -> (r: Result<HchoReading, FrameError>)
        ensures
            *final(self) == spec_hcho_apply(*old(self), frame_view(frame)),
            (r is Ok) == (final(self).status == SensorStatus::Good),
            frame is None ==> r == Err::<HchoReading, FrameError>(FrameError::HeaderTimeout),
            r matches Ok(v) ==> v.ug_m3 == final(self).ug_m3 && v.ppb == final(self).ppb,
            frame matches Some(f) ==> r is Err ==> r == Err::<HchoReading, FrameError>(
                FrameError::Checksum { computed: ze08_checksum(f@) as u16, carried: f@[8] as u16 }),
            frame matches Some(f) ==> ((256 - byte_sum(f@, 1, 8) % 256) % 256 == f@[8] as int) ==> {
                &&& final(self).status == SensorStatus::Good
                &&& final(self).ug_m3 as int == f@[2] as int * 256 + f@[3] as int
                &&& final(self).ppb as int == f@[6] as int * 256 + f@[7] as int
                &&& r == Ok::<HchoReading, FrameError>(HchoReading { ug_m3: final(self).ug_m3, ppb: final(self).ppb })
            },
            frame matches Some(f) ==> ((256 - byte_sum(f@, 1, 8) % 256) % 256 != f@[8] as int) ==> {
                &&& final(self).status == SensorStatus::Error
                &&& final(self).ug_m3 == old(self).ug_m3
                &&& final(self).ppb == old(self).ppb
            },
            frame is None ==> final(self).status == SensorStatus::Error && final(self).ug_m3 == old(self).ug_m3
                && final(self).ppb == old(self).ppb,
    {
        match frame {
            Some(f) => {
                let r = parse_ze08(f);
                match r {
                    Ok(v) => {
                        self.status = SensorStatus::Good;
                        self.ug_m3 = v.ug_m3;
                        self.ppb = v.ppb;
                    },
                    Err(_) => {
                        self.status = SensorStatus::Error;
                    },
                }
                r
            },
            None => {
                self.status = SensorStatus::Error;
                Err(FrameError::HeaderTimeout)
            },
        }
    }
}

} // verus!
