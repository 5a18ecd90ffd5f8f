//! The decisions of the monitor's 50 Hz main loop. Each tick, the firmware
//! calls these steps in order and performs the I/O that each one asks for:
//!
//! 1. [`Monitor::start_tick`]: maybe start or read a temperature measurement,
//!    then [`Monitor::temphumi_done`] with its outcome;
//! 2. [`Monitor::pm25_tick`]: maybe wake or read the PM2.5 sensor, then
//!    [`Monitor::pm25_done`] with the frame;
//! 3. [`Monitor::hcho_due`]: maybe read the HCHO sensor, then
//!    [`Monitor::hcho_done`] with the frame;
//! 4. [`Monitor::encoder_moved`] with the encoder count;
//! 5. [`Monitor::button_sampled`] with the button level;
//! 6. [`Monitor::take_screen`]: draw the screen it returns, if any;
//! 7. [`Monitor::led_tick`]: switch the LED off if it says so;
//! 8. [`Monitor::buzzer_on`]: drive the buzzer.
use vstd::prelude::*;
use crate::page::{spec_next, spec_prev, Page};
use crate::sensors::{
    frame_view, spec_hcho_apply, spec_pm25_apply, spec_temphumi_fail, spec_temphumi_record,
    HchoCache, Pm25Cache, SensorStatus, TempHumi, TempHumiSample,
};
use crate::protocol::{
    byte_sum, pms_carried_checksum, pms_checksum, ze08_checksum, FrameError, HchoReading, PmReading,
};
use crate::display::{compose_screen, lines_fit, lines_view, lit, spec_screen, Font, Screen};

verus! {

/// Button ticks (20 ms each) that make a press, not a bounce.
pub const SW_DEBOUNCE_THRES: u8 = 2;
/// Button ticks that make a long press.
pub const SW_LONG_PRESS_THRES: u8 = 30;
/// Encoder counts that turn one page.
pub const ENCODER_STEP: i32 = 4;
/// Ticks in one second (the loop runs at 50 Hz); also the period of the
/// temperature and humidity refresh.
pub const TICK_1_SEC: u8 = 50;
/// Tick of each second at which a temperature measurement is started.
pub const TEMPHUMI_TICK_MEASURE: u8 = TICK_1_SEC - 2;
/// Length in ticks of the PM2.5 cycle (3 minutes).
pub const PM25_TICK_CYCLE: u16 = 9000;
/// Tick of the PM2.5 cycle at which the sensor is read (20 s after waking).
pub const PM25_TICK_MEASURE: u16 = 1000;
/// Tick of each second at which the HCHO sensor is read.
pub const HCHO_TICK_MEASURE: u8 = TICK_1_SEC / 2;
/// PM2.5 level above which the alarm sounds (ug/m3).
pub const PM25_ALARM_THRES: u16 = 115;
/// HCHO level above which the alarm sounds (ug/m3, i.e. 0.08 mg/m3).
pub const HCHO_ALARM_THRES: u16 = 80;

/// The whole state of the main loop.
#[derive(Clone, Copy, Debug, PartialEq, Eq, Structural)]
pub struct Monitor {
    pub page: Page,
    /// Whether the screen must be drawn again.
    pub need_redraw: bool,
    /// Tick within the current second.
    pub refresh_ticks: u8,
    /// Ticks for which the button has been held.
    pub sw_hold_ticks: u8,
    /// Whether the current hold has already counted as a long press.
    pub sw_long_pressed_triggered: bool,
    /// Encoder count at the last page turn.
    pub enc_last_count: u16,
    /// Ticks for which the LED stays lit.
    pub led_on_ticks: u8,
    /// Whether a temperature measurement has been started and not yet read.
    pub is_temphumi_measuring: bool,
    pub temphumi: TempHumi,
    pub pm25: Pm25Cache,
    /// Tick within the PM2.5 cycle.
    pub pm25_schedule_ticks: u16,
    pub hcho: HchoCache,
    pub is_muted: bool,
}

/// What the temperature and humidity sensor must do this tick.
#[derive(Clone, Copy, Debug, PartialEq, Eq, Structural)]
pub enum TempHumiTask {
    Idle,
    /// Start a single-shot measurement.
    Measure,
    /// Read the measurement started earlier.
    Read,
}

/// What the PM2.5 sensor must do this tick.
#[derive(Clone, Copy, Debug, PartialEq, Eq, Structural)]
pub enum Pm25Task {
    Idle,
    /// Send the wake-up command.
    Wake,
    /// Ask for a reading, then send the sleep command.
    Measure,
}

/// What the button did this tick.
#[derive(Clone, Copy, Debug, PartialEq, Eq, Structural)]
pub enum ButtonEvent {
    /// Not pressed, and no press just ended.
    Idle,
    /// Pressed (the LED lights).
    Held,
    /// Pressed long enough: mute was toggled (the LED lights).
    LongPress,
    /// A short press just ended: the current page's sensor is refreshed.
    ShortPress,
}

pub open spec fn sat_inc(x: u8) -> u8 {
    if x == 255 { 255 } else { (x + 1) as u8 }
}

/// The monitor's invariant: the PM2.5 schedule stays within its cycle.
pub open spec fn wf(m: Monitor) -> bool {
    m.pm25_schedule_ticks < PM25_TICK_CYCLE
}

/// Monitor at power-on, the encoder showing `enc_count`.
pub open spec fn spec_initial(enc_count: u16) -> Monitor {
    Monitor {
        page: Page::TempHumi,
        need_redraw: true,
        refresh_ticks: 0,
        sw_hold_ticks: 0,
        sw_long_pressed_triggered: false,
        enc_last_count: enc_count,
        led_on_ticks: 0,
        is_temphumi_measuring: false,
        temphumi: TempHumi {
            status: SensorStatus::Init,
            fail_count: 0,
            is_temp_neg: false,
            temp_whole: 0,
            temp_frac: 0,
            humi_whole: 0,
            humi_frac: 0,
        },
        pm25: Pm25Cache { status: SensorStatus::Init, pm2_5: 0, pm10: 0 },
        pm25_schedule_ticks: 0,
        hcho: HchoCache { status: SensorStatus::Init, ug_m3: 0, ppb: 0 },
        is_muted: false,
    }
}

/// Step 1: one more tick of the second; a measurement starts at tick 48 on
/// the temperature page; at tick 50 the second restarts, a started
/// measurement is read, and the PM2.5 page is redrawn.
pub open spec fn spec_start_tick(m: Monitor) -> (Monitor, TempHumiTask) {
    let r = sat_inc(m.refresh_ticks);
    let measure = r == TEMPHUMI_TICK_MEASURE && m.page == Page::TempHumi;
    let measuring = measure || m.is_temphumi_measuring;
    if r >= TICK_1_SEC {
        (
            Monitor {
                refresh_ticks: 0,
                is_temphumi_measuring: measuring,
                need_redraw: m.need_redraw || m.page == Page::Pm25,
                ..m
            },
            if measuring { TempHumiTask::Read } else { TempHumiTask::Idle },
        )
    } else {
        (
            Monitor { refresh_ticks: r, is_temphumi_measuring: measuring, ..m },
            if measure { TempHumiTask::Measure } else { TempHumiTask::Idle },
        )
    }
}

/// After a read of the temperature sensor (`None`: it failed).
pub open spec fn spec_temphumi_done(m: Monitor, sample: Option<TempHumiSample>) -> Monitor {
    match sample {
        Some(s) => Monitor {
            temphumi: spec_temphumi_record(m.temphumi, s),
            need_redraw: m.need_redraw || m.page == Page::TempHumi,
            is_temphumi_measuring: false,
            ..m
        },
        None => {
            let t = spec_temphumi_fail(m.temphumi);
            Monitor {
                temphumi: t,
                need_redraw: m.need_redraw || (m.page == Page::TempHumi && m.temphumi.status
                    != SensorStatus::Error && t.status == SensorStatus::Error),
                is_temphumi_measuring: false,
                ..m
            }
        },
    }
}

/// Step 2: one more tick of the PM2.5 cycle; the sensor wakes at tick 1 and
/// is read at tick 1000; the cycle restarts after 9000 ticks.
pub open spec fn spec_pm25_tick(m: Monitor) -> (Monitor, Pm25Task) {
    let s: u16 = if m.pm25_schedule_ticks == 65535 { 0 } else { (m.pm25_schedule_ticks + 1) as u16 };
    (
        Monitor { pm25_schedule_ticks: if s >= PM25_TICK_CYCLE { 0 } else { s }, ..m },
        if s == 1 {
            Pm25Task::Wake
        } else if s == PM25_TICK_MEASURE {
            Pm25Task::Measure
        } else {
            Pm25Task::Idle
        },
    )
}

/// After a PM2.5 reading: the cache takes the answer and the PM2.5 page is
/// redrawn.
pub open spec fn spec_pm25_done(m: Monitor, frame: Option<Seq<u8>>) -> Monitor {
    Monitor {
        pm25: spec_pm25_apply(m.pm25, frame),
        need_redraw: m.need_redraw || m.page == Page::Pm25,
        ..m
    }
}

/// Step 3: the HCHO sensor is read at tick 25 of each second.
pub open spec fn spec_hcho_due(m: Monitor) -> bool {
    m.refresh_ticks == HCHO_TICK_MEASURE
}

/// After an HCHO reading: the cache takes the answer, and the HCHO page is
/// redrawn when the answer was good.
pub open spec fn spec_hcho_done(m: Monitor, frame: Option<Seq<u8>>) -> Monitor {
    let h = spec_hcho_apply(m.hcho, frame);
    Monitor {
        hcho: h,
        need_redraw: m.need_redraw || (m.page == Page::Hcho && h.status == SensorStatus::Good),
        ..m
    }
}

/// Signed distance from `last` to `cur` on a 16-bit counter that wraps.
pub open spec fn enc_diff(cur: u16, last: u16) -> int {
    let d = (cur as int - last as int) % 65536;
    if d >= 32768 { d - 65536 } else { d }
}

/// The state after turning to page `p`: the new page's sensor is refreshed
/// soon (not the PM2.5 sensor, to spare it), the screen is redrawn and the
/// LED flashes.
pub open spec fn spec_turned(m: Monitor, p: Page, count: u16) -> Monitor {
    Monitor {
        page: p,
        refresh_ticks: match p {
            Page::TempHumi => (TEMPHUMI_TICK_MEASURE - 1) as u8,
            Page::Hcho => (HCHO_TICK_MEASURE - 1) as u8,
            Page::Pm25 => m.refresh_ticks,
        },
        enc_last_count: count,
        need_redraw: true,
        led_on_ticks: 1,
        ..m
    }
}

/// Step 4: the encoder shows `count`; four counts or more away from the last
/// turn turn the page forward or backward.
pub open spec fn spec_encoder(m: Monitor, count: u16) -> (Monitor, bool) {
    let d = enc_diff(count, m.enc_last_count);
    if d >= ENCODER_STEP {
        (spec_turned(m, spec_next(m.page), count), true)
    } else if d <= -ENCODER_STEP {
        (spec_turned(m, spec_prev(m.page), count), true)
    } else {
        (m, false)
    }
}

/// Step 5: the button is `pressed` or not.
pub open spec fn spec_button(m: Monitor, pressed: bool) -> (Monitor, ButtonEvent) {
    if pressed {
        let h = sat_inc(m.sw_hold_ticks);
        if h >= SW_LONG_PRESS_THRES && !m.sw_long_pressed_triggered {
            (
                Monitor {
                    sw_hold_ticks: h,
                    led_on_ticks: 2,
                    is_muted: !m.is_muted,
                    sw_long_pressed_triggered: true,
                    need_redraw: true,
                    ..m
                },
                ButtonEvent::LongPress,
            )
        } else {
            (Monitor { sw_hold_ticks: h, led_on_ticks: 2, ..m }, ButtonEvent::Held)
        }
    } else if m.sw_hold_ticks >= SW_DEBOUNCE_THRES && m.sw_hold_ticks < SW_LONG_PRESS_THRES {
        let m1 = match m.page {
            Page::Pm25 => Monitor { pm25_schedule_ticks: 0, ..m },
            Page::TempHumi => Monitor { refresh_ticks: (TEMPHUMI_TICK_MEASURE - 1) as u8, ..m },
            Page::Hcho => Monitor { refresh_ticks: (HCHO_TICK_MEASURE - 1) as u8, ..m },
        };
        (
            Monitor { need_redraw: true, sw_hold_ticks: 0, sw_long_pressed_triggered: false, ..m1 },
            ButtonEvent::ShortPress,
        )
    } else {
        (Monitor { sw_hold_ticks: 0, sw_long_pressed_triggered: false, ..m }, ButtonEvent::Idle)
    }
}

/// The PM2.5 alarm: a good reading above the threshold.
pub open spec fn spec_pm25_alarm(m: Monitor) -> bool {
    m.pm25.status == SensorStatus::Good && m.pm25.pm2_5 > PM25_ALARM_THRES
}

/// The HCHO alarm: a good reading above the threshold.
pub open spec fn spec_hcho_alarm(m: Monitor) -> bool {
    m.hcho.status == SensorStatus::Good && m.hcho.ug_m3 > HCHO_ALARM_THRES
}

/// What the screen shows for state `m`.
pub open spec fn spec_screen_of(m: Monitor) -> Seq<(i32, i32, Font, Seq<u8>)> {
    spec_screen(
        m.page,
        m.temphumi,
        m.pm25,
        m.pm25_schedule_ticks,
        m.hcho,
        m.is_muted,
        spec_pm25_alarm(m),
        spec_hcho_alarm(m),
    )
}

/// The bottom row of screen `s` for state `m`, on every page: the PM2.5
/// warning last when a good PM2.5 reading is above 115 ug/m3, else the HCHO
/// warning last when a good HCHO reading is above 80 ug/m3; the mute sign
/// just before the warning, or last without one, when muted.
pub open spec fn alarm_line_shown(m: Monitor, s: Seq<(i32, i32, Font, Seq<u8>)>) -> bool {
    let pm = m.pm25.status == SensorStatus::Good && m.pm25.pm2_5 > 115;
    let hc = m.hcho.status == SensorStatus::Good && m.hcho.ug_m3 > 80;
    &&& s.len() >= 3
    &&& s[0] == (10i32, 0i32, Font::Normal, lit("=== Air Monitor ==="))
    &&& pm ==> s.last() == (42i32, 56i32, Font::Small, lit("PM2.5 Warn!"))
    &&& (!pm && hc) ==> s.last() == (44i32, 56i32, Font::Small, lit("HCHO Warn!"))
    &&& (m.is_muted && (pm || hc)) ==> s[s.len() - 2] == (0i32, 56i32, Font::Small, lit("[Mute]"))
    &&& (m.is_muted && !pm && !hc) ==> s.last() == (0i32, 56i32, Font::Small, lit("[Mute]"))
}

/// Step 7: one tick less of LED; the LED goes off when it reaches zero.
pub open spec fn spec_led_tick(m: Monitor) -> (Monitor, bool) {
    if m.led_on_ticks > 0 {
        let n = (m.led_on_ticks - 1) as u8;
        (Monitor { led_on_ticks: n, ..m }, n == 0)
    } else {
        (m, false)
    }
}

/// Step 8: the buzzer sounds while an alarm is on and sound is not muted,
/// during ticks 0-4 and 10-14 of each second.
pub open spec fn spec_buzzer_on(m: Monitor) -> bool {
    (spec_pm25_alarm(m) || spec_hcho_alarm(m)) && !m.is_muted && (m.refresh_ticks < 5 || (
    m.refresh_ticks >= 10 && m.refresh_ticks < 15))
}

impl Monitor {
    /// The monitor at power-on; `enc_count` is the encoder's count then.
    pub fn new(enc_count: u16) -> (r: Monitor)
        ensures
            r == spec_initial(enc_count),
            wf(r),
    {
        Monitor {
            page: Page::TempHumi,
            need_redraw: true,
            refresh_ticks: 0,
            sw_hold_ticks: 0,
            sw_long_pressed_triggered: false,
            enc_last_count: enc_count,
            led_on_ticks: 0,
            is_temphumi_measuring: false,
            temphumi: TempHumi::default(),
            pm25: Pm25Cache::default(),
            pm25_schedule_ticks: 0,
            hcho: HchoCache::default(),
            is_muted: false,
        }
    }

    /// Step 1 of a tick.
    pub fn start_tick(&mut self) -> (task: TempHumiTask)
        ensures
            (*final(self), task) == spec_start_tick(*old(self)),
    {
        self.refresh_ticks = self.refresh_ticks.saturating_add(1);
        let mut task = TempHumiTask::Idle;
        if self.refresh_ticks == TEMPHUMI_TICK_MEASURE && self.page == Page::TempHumi {
            self.is_temphumi_measuring = true;
            task = TempHumiTask::Measure;
        }
        if self.refresh_ticks >= TICK_1_SEC {
            self.refresh_ticks = 0;
            if self.is_temphumi_measuring {
                task = TempHumiTask::Read;
            }
            if self.page == Page::Pm25 {
                self.need_redraw = true;
            }
        }
        task
    }

    /// The outcome of a temperature read: the reading, or `None` if it failed.
    pub fn temphumi_done(&mut self, sample: Option<TempHumiSample>)
        ensures
            *final(self) == spec_temphumi_done(*old(self), sample),
    {
        match sample {
            Some(s) => {
                self.temphumi.record_reading(s);
                if self.page == Page::TempHumi {
                    self.need_redraw = true;
                }
            },
            None => {
                let turned = self.temphumi.record_failure();
                if turned && self.page == Page::TempHumi {
                    self.need_redraw = true;
                }
            },
        }
        self.is_temphumi_measuring = false;
    }

    /// Step 2 of a tick.
    pub fn pm25_tick(&mut self) -> (task: Pm25Task)
        ensures
            (*final(self), task) == spec_pm25_tick(*old(self)),
    {
        self.pm25_schedule_ticks = self.pm25_schedule_ticks.wrapping_add(1);
        let task = if self.pm25_schedule_ticks == 1 {
            Pm25Task::Wake
        } else if self.pm25_schedule_ticks == PM25_TICK_MEASURE {
            Pm25Task::Measure
        } else {
            Pm25Task::Idle
        };
        if self.pm25_schedule_ticks >= PM25_TICK_CYCLE {
            self.pm25_schedule_ticks = 0;
        }
        task
    }

    /// The answer of the PM2.5 sensor: the frame, or `None` when its header
    /// was not found. Returns what was decoded, or why nothing was.
    pub fn pm25_done(&mut self, frame: Option<&[u8; 32]>) -> (r: Result<PmReading, FrameError>)
        ensures
            *final(self) == spec_pm25_done(*old(self), frame_view(frame)),
            (r is Ok) == (final(self).pm25.status == SensorStatus::Good),
            frame is None ==> r == Err::<PmReading, FrameError>(FrameError::HeaderTimeout),
            r matches Ok(v) ==> v.pm2_5 == final(self).pm25.pm2_5 && v.pm10 == final(self).pm25.pm10,
            frame matches Some(f) ==> (byte_sum(f@, 0, 30) == f@[30] as int * 256 + f@[31] as int) ==> {
                &&& final(self).pm25.status == SensorStatus::Good
                &&& final(self).pm25.pm2_5 as int == f@[12] as int * 256 + f@[13] as int
                &&& final(self).pm25.pm10 as int == f@[14] as int * 256 + f@[15] as int
                &&& r is Ok
            },
            frame matches Some(f) ==> (byte_sum(f@, 0, 30) != f@[30] as int * 256 + f@[31] as int) ==> {
                &&& final(self).pm25.status == SensorStatus::Error
                &&& final(self).pm25.pm2_5 == old(self).pm25.pm2_5
                &&& final(self).pm25.pm10 == old(self).pm25.pm10
            },
            final(self).page == old(self).page,
            final(self).need_redraw == (old(self).need_redraw || old(self).page == Page::Pm25),
            frame matches Some(f) ==> r is Err ==> r == Err::<PmReading, FrameError>(
                FrameError::Checksum { computed: pms_checksum(f@) as u16, carried: pms_carried_checksum(f@) as u16 }),
    {
        let r = self.pm25.apply(frame);
        if self.page == Page::Pm25 {
            self.need_redraw = true;
        }
        r
    }

    /// Step 3 of a tick: whether the HCHO sensor is read now.
    pub fn hcho_due(&self) -> (due: bool)
        ensures
            due == spec_hcho_due(*self),
            due == (self.refresh_ticks == 25),
    {
        self.refresh_ticks == HCHO_TICK_MEASURE
    }

    /// The answer of the HCHO sensor: the frame, or `None` when its header was
    /// not found. Returns what was decoded, or why nothing was.
    pub fn hcho_done(&mut self, frame: Option<&[u8; 9]>) -> (r: Result<HchoReading, FrameError>)
        ensures
            *final(self) == spec_hcho_done(*old(self), frame_view(frame)),
            (r is Ok) == (final(self).hcho.status == SensorStatus::Good),
            frame is None ==> r == Err::<HchoReading, FrameError>(FrameError::HeaderTimeout),
            r matches Ok(v) ==> v.ug_m3 == final(self).hcho.ug_m3 && v.ppb == final(self).hcho.ppb,
            frame matches Some(f) ==> ((256 - byte_sum(f@, 1, 8) % 256) % 256 == f@[8] as int) ==> {
                &&& final(self).hcho.status == SensorStatus::Good
                &&& final(self).hcho.ug_m3 as int == f@[2] as int * 256 + f@[3] as int
                &&& final(self).hcho.ppb as int == f@[6] as int * 256 + f@[7] as int
                &&& r is Ok
            },
            frame matches Some(f) ==> ((256 - byte_sum(f@, 1, 8) % 256) % 256 != f@[8] as int) ==> {
                &&& final(self).hcho.status == SensorStatus::Error
                &&& final(self).hcho.ug_m3 == old(self).hcho.ug_m3
                &&& final(self).hcho.ppb == old(self).hcho.ppb
            },
            final(self).page == old(self).page,
            frame matches Some(f) ==> r is Err ==> r == Err::<HchoReading, FrameError>(
                FrameError::Checksum { computed: ze08_checksum(f@) as u16, carried: f@[8] as u16 }),
    {
        let r = self.hcho.apply(frame);
        if r.is_ok() && self.page == Page::Hcho {
            self.need_redraw = true;
        }
        r
    }

    /// Step 4 of a tick: the encoder's count. Tells whether the page turned
    /// (the LED then lights).
    pub fn encoder_moved(&mut self, count: u16) -> (turned: bool)
        ensures
            (*final(self), turned) == spec_encoder(*old(self), count),
    {
        let d: u16 = count.wrapping_sub(self.enc_last_count);
        let diff: i32 = if d >= 32768 { d as i32 - 65536 } else { d as i32 };
        let mut changed = false;
        if diff >= ENCODER_STEP {
            self.page = self.page.next();
            changed = true;
        } else if diff <= -ENCODER_STEP {
            self.page = self.page.prev();
            changed = true;
        }
        if changed {
            match self.page {
                Page::TempHumi => self.refresh_ticks = TEMPHUMI_TICK_MEASURE - 1,
                Page::Hcho => self.refresh_ticks = HCHO_TICK_MEASURE - 1,
                Page::Pm25 => {},
            }
            self.enc_last_count = count;
            self.need_redraw = true;
            self.led_on_ticks = 1;
        }
        changed
    }

    /// Step 5 of a tick: whether the button is pressed now.
    pub fn button_sampled(&mut self, pressed: bool) -> (ev: ButtonEvent)
        ensures
            (*final(self), ev) == spec_button(*old(self), pressed),
    {
        if pressed {
            self.sw_hold_ticks = self.sw_hold_ticks.saturating_add(1);
            self.led_on_ticks = 2;
            if self.sw_hold_ticks >= SW_LONG_PRESS_THRES && !self.sw_long_pressed_triggered {
                self.is_muted = !self.is_muted;
                self.sw_long_pressed_triggered = true;
                self.need_redraw = true;
                ButtonEvent::LongPress
            } else {
                ButtonEvent::Held
            }
        } else {
            let mut ev = ButtonEvent::Idle;
            if self.sw_hold_ticks >= SW_DEBOUNCE_THRES && self.sw_hold_ticks < SW_LONG_PRESS_THRES {
                match self.page {
                    Page::Pm25 => self.pm25_schedule_ticks = 0,
                    Page::TempHumi => self.refresh_ticks = TEMPHUMI_TICK_MEASURE - 1,
                    Page::Hcho => self.refresh_ticks = HCHO_TICK_MEASURE - 1,
                }
                self.need_redraw = true;
                ev = ButtonEvent::ShortPress;
            }
            self.sw_hold_ticks = 0;
            self.sw_long_pressed_triggered = false;
            ev
        }
    }

    /// Whether the PM2.5 alarm is on.
    pub fn pm25_alarm(&self) -> (on: bool)
        ensures
            on == spec_pm25_alarm(*self),
            on == (self.pm25.status == SensorStatus::Good && self.pm25.pm2_5 > 115),
    {
        self.pm25.status == SensorStatus::Good && self.pm25.pm2_5 > PM25_ALARM_THRES
    }

    /// Whether the HCHO alarm is on.
    pub fn hcho_alarm(&self) -> (on: bool)
        ensures
            on == spec_hcho_alarm(*self),
            on == (self.hcho.status == SensorStatus::Good && self.hcho.ug_m3 > 80),
    {
        self.hcho.status == SensorStatus::Good && self.hcho.ug_m3 > HCHO_ALARM_THRES
    }

    /// The screen for the current state.
    pub fn screen(&self) -> (r: Screen)
        requires
            self.pm25_schedule_ticks <= PM25_TICK_CYCLE,
        ensures
            lines_view(r.lines@) == spec_screen_of(*self),
            lines_fit(lines_view(r.lines@)),
            alarm_line_shown(*self, lines_view(r.lines@)),
    {
        let pm_alarm = self.pm25_alarm();
        let hcho_alarm = self.hcho_alarm();
        compose_screen(
            self.page,
            &self.temphumi,
            &self.pm25,
            self.pm25_schedule_ticks,
            &self.hcho,
            self.is_muted,
            pm_alarm,
            hcho_alarm,
        )
    }

    /// Step 6 of a tick: the screen to draw, if it must be drawn again.
    pub fn take_screen(&mut self) -> (r: Option<Screen>)
        requires
            old(self).pm25_schedule_ticks <= PM25_TICK_CYCLE,
        ensures
            *final(self) == (Monitor { need_redraw: false, ..*old(self) }),
            (r is Some) == old(self).need_redraw,
            r matches Some(sc) ==> lines_view(sc.lines@) == spec_screen_of(*old(self)) && lines_fit(
                lines_view(sc.lines@),
            ) && alarm_line_shown(*old(self), lines_view(sc.lines@)),
    {
        if self.need_redraw {
            let sc = self.screen();
            self.need_redraw = false;
            Some(sc)
        } else {
            None
        }
    }

    /// Step 7 of a tick: tells whether the LED must go off now.
    pub fn led_tick(&mut self) -> (off: bool)
        ensures
            (*final(self), off) == spec_led_tick(*old(self)),
    {
        if self.led_on_ticks > 0 {
            self.led_on_ticks = self.led_on_ticks - 1;
            self.led_on_ticks == 0
        } else {
            false
        }
    }

    /// Step 8 of a tick: whether the buzzer sounds.
    pub fn buzzer_on(&self) -> (on: bool)
        ensures
            on == spec_buzzer_on(*self),
            on == (((self.pm25.status == SensorStatus::Good && self.pm25.pm2_5 > 115) || (self.hcho.status
                == SensorStatus::Good && self.hcho.ug_m3 > 80)) && !self.is_muted && (self.refresh_ticks < 5
                || 10 <= self.refresh_ticks < 15)),
    {
        (self.pm25_alarm() || self.hcho_alarm()) && !self.is_muted && (self.refresh_ticks < 5 || (
        self.refresh_ticks >= 10 && self.refresh_ticks < 15))
    }
}

} // verus!
