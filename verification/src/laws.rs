//! Properties of the main loop that span several of its steps.
use vstd::prelude::*;
use crate::monitor::{
    spec_button, spec_buzzer_on, spec_encoder, spec_hcho_alarm, spec_hcho_done, spec_hcho_due,
    spec_initial, spec_led_tick, spec_pm25_alarm, spec_pm25_done, spec_pm25_tick, spec_start_tick,
    spec_temphumi_done, wf, ButtonEvent, Monitor, Pm25Task, TempHumiTask, PM25_TICK_CYCLE,
    PM25_TICK_MEASURE, SW_DEBOUNCE_THRES, SW_LONG_PRESS_THRES,
};
use crate::page::{spec_next, spec_prev, Page};
use crate::sensors::{
    spec_hcho_apply, spec_pm25_apply, spec_temphumi_record, HchoCache, Pm25Cache, SensorStatus, TempHumi,
    TempHumiSample,
};
use crate::protocol::byte_sum;
use crate::display::{lit, Font};
use crate::text::{all_digits, dec_bytes, digits_value, lemma_dec_bytes_value, lemma_pad3_value, pad3_bytes};
use crate::page::page_index;
use crate::monitor::spec_screen_of;

verus! {

/// Every step keeps the PM2.5 schedule within its cycle, starting from the
/// power-on state.
pub proof fn lemma_wf_preserved(
    m: Monitor,
    enc0: u16,
    sample: Option<TempHumiSample>,
    frame: Option<Seq<u8>>,
    count: u16,
    pressed: bool,
)
    requires
        wf(m),
    ensures
        wf(spec_initial(enc0)),
        wf(spec_start_tick(m).0),
        wf(spec_temphumi_done(m, sample)),
        wf(spec_pm25_tick(m).0),
        wf(spec_pm25_done(m, frame)),
        wf(spec_hcho_done(m, frame)),
        wf(spec_encoder(m, count).0),
        wf(spec_button(m, pressed).0),
        wf(spec_led_tick(m).0),
        wf(Monitor { need_redraw: false, ..m }),
{
}

/// The PM2.5 schedule counts ticks modulo the cycle: the sensor is woken at
/// tick 1 and read at tick 1000 of every 9000.
pub proof fn lemma_pm25_cycle(m: Monitor)
    requires
        wf(m),
    ensures
        spec_pm25_tick(m).0.pm25_schedule_ticks == (m.pm25_schedule_ticks + 1) % (PM25_TICK_CYCLE as int),
        (spec_pm25_tick(m).1 == Pm25Task::Wake) == (spec_pm25_tick(m).0.pm25_schedule_ticks == 1),
        (spec_pm25_tick(m).1 == Pm25Task::Measure) == (spec_pm25_tick(m).0.pm25_schedule_ticks
            == PM25_TICK_MEASURE),
{
}

/// A short press refreshes the sensor of the current page on the next tick:
/// a temperature measurement starts, the PM2.5 sensor wakes, or the HCHO
/// sensor is read.
pub proof fn lemma_short_press_refreshes(m: Monitor)
    requires
        spec_button(m, false).1 == ButtonEvent::ShortPress,
    ensures
        ({
            let m1 = spec_button(m, false).0;
            let (m2, task) = spec_start_tick(m1);
            &&& m.page == Page::TempHumi ==> task == TempHumiTask::Measure
            &&& m.page == Page::Pm25 ==> spec_pm25_tick(m2).1 == Pm25Task::Wake
            &&& m.page == Page::Hcho ==> spec_hcho_due(m2)
        }),
{
}

/// Turning to the temperature or the HCHO page refreshes that page's sensor
/// on the next tick, whatever the button does in between.
pub proof fn lemma_page_turn_refreshes(m: Monitor, count: u16, pressed: bool)
    requires
        spec_encoder(m, count).1,
    ensures
        ({
            let m1 = spec_encoder(m, count).0;
            let m2 = spec_button(m1, pressed).0;
            let m3 = spec_led_tick(Monitor { need_redraw: false, ..m2 }).0;
            let (m4, task) = spec_start_tick(m3);
            &&& m1.page == spec_next(m.page) || m1.page == spec_prev(m.page)
            &&& m1.page == Page::TempHumi ==> task == TempHumiTask::Measure
            &&& m1.page == Page::Hcho ==> spec_hcho_due(m4)
        }),
{
}

/// The state after holding the button down for `n` ticks.
pub open spec fn spec_hold(m: Monitor, n: nat) -> Monitor
    decreases n,
{
    if n == 0 {
        m
    } else {
        spec_button(spec_hold(m, (n - 1) as nat), true).0
    }
}

/// Holding the button toggles mute exactly once, when the hold reaches 30
/// ticks, however long it lasts.
pub proof fn lemma_long_press_toggles_once(m: Monitor, n: nat)
    requires
        m.sw_hold_ticks == 0,
        !m.sw_long_pressed_triggered,
    ensures
        spec_hold(m, n).is_muted == (m.is_muted != (n >= SW_LONG_PRESS_THRES)),
        spec_hold(m, n).sw_long_pressed_triggered == (n >= SW_LONG_PRESS_THRES),
        spec_hold(m, n).sw_hold_ticks == (if n < 255 { n } else { 255 }),
        spec_hold(m, n).page == m.page,
    decreases n,
{
    if n > 0 {
        lemma_long_press_toggles_once(m, (n - 1) as nat);
    }
}

/// Releasing the button after holding it `n` ticks counts as a short press
/// exactly when `2 <= n < 30`: shorter is a bounce, longer was a long press.
pub proof fn lemma_release_after_hold(m: Monitor, n: nat)
    requires
        m.sw_hold_ticks == 0,
        !m.sw_long_pressed_triggered,
    ensures
        (spec_button(spec_hold(m, n), false).1 == ButtonEvent::ShortPress) == (SW_DEBOUNCE_THRES <= n
            < SW_LONG_PRESS_THRES),
        spec_button(spec_hold(m, n), false).0.sw_hold_ticks == 0,
        !spec_button(spec_hold(m, n), false).0.sw_long_pressed_triggered,
{
    lemma_long_press_toggles_once(m, n);
}

/// The buzzer is silent when muted, and when no alarm is on.
pub proof fn lemma_buzzer_needs_alarm(m: Monitor)
    ensures
        spec_buzzer_on(m) ==> !m.is_muted,
        spec_buzzer_on(m) ==> spec_pm25_alarm(m) || spec_hcho_alarm(m),
        spec_buzzer_on(m) ==> m.refresh_ticks < 15,
{
}

/// The buzzer sounds exactly when a good PM2.5 reading is above 115 ug/m3 or
/// a good HCHO reading is above 80 ug/m3, sound is not muted, and the tick is
/// in 0-4 or 10-14 of the second.
pub proof fn lemma_buzzer_rule(m: Monitor)
    ensures
        spec_buzzer_on(m) == (((m.pm25.status == SensorStatus::Good && m.pm25.pm2_5 > 115) || (m.hcho.status
            == SensorStatus::Good && m.hcho.ug_m3 > 80)) && !m.is_muted && (m.refresh_ticks < 5 || 10
            <= m.refresh_ticks < 15)),
{
}

/// A PMS7003 frame whose 30 first bytes sum to its last two (high byte
/// first) sets the sensor good with the full 16-bit PM2.5 (bytes 12-13) and
/// PM10 (bytes 14-15) values; any other frame sets it in error and keeps the
/// old values. The monitor then keeps its page.
pub proof fn lemma_pm25_frame_stored(m: Monitor, c: Pm25Cache, f: Seq<u8>)
    requires
        f.len() == 32,
    ensures
        byte_sum(f, 0, 30) == f[30] as int * 256 + f[31] as int ==> {
            &&& spec_pm25_apply(c, Some(f)).status == SensorStatus::Good
            &&& spec_pm25_apply(c, Some(f)).pm2_5 as int == f[12] as int * 256 + f[13] as int
            &&& spec_pm25_apply(c, Some(f)).pm10 as int == f[14] as int * 256 + f[15] as int
            &&& spec_pm25_done(m, Some(f)).pm25 == spec_pm25_apply(m.pm25, Some(f))
        },
        byte_sum(f, 0, 30) != f[30] as int * 256 + f[31] as int ==> spec_pm25_apply(c, Some(f)) == (
        Pm25Cache { status: SensorStatus::Error, ..c }),
        spec_pm25_apply(c, None) == (Pm25Cache { status: SensorStatus::Error, ..c }),
        spec_pm25_done(m, Some(f)).page == m.page,
{
}

/// A ZE08 frame whose byte 8 is the one-byte negation of the sum of bytes 1-7
/// sets the sensor good with the full 16-bit concentration (bytes 2-3, ug/m3)
/// and ppb (bytes 6-7); any other frame sets it in error and keeps the old
/// values.
pub proof fn lemma_hcho_frame_stored(m: Monitor, c: HchoCache, f: Seq<u8>)
    requires
        f.len() == 9,
    ensures
        (256 - byte_sum(f, 1, 8) % 256) % 256 == f[8] as int ==> {
            &&& spec_hcho_apply(c, Some(f)).status == SensorStatus::Good
            &&& spec_hcho_apply(c, Some(f)).ug_m3 as int == f[2] as int * 256 + f[3] as int
            &&& spec_hcho_apply(c, Some(f)).ppb as int == f[6] as int * 256 + f[7] as int
            &&& spec_hcho_done(m, Some(f)).hcho == spec_hcho_apply(m.hcho, Some(f))
        },
        (256 - byte_sum(f, 1, 8) % 256) % 256 != f[8] as int ==> spec_hcho_apply(c, Some(f)) == (
        HchoCache { status: SensorStatus::Error, ..c }),
        spec_hcho_apply(c, None) == (HchoCache { status: SensorStatus::Error, ..c }),
        spec_hcho_done(m, Some(f)).page == m.page,
{
}

/// A recorded temperature keeps the sample's sign whatever its magnitude, and
/// whole and tenths put back together give the sample's value.
pub proof fn lemma_temphumi_sample_kept(t: TempHumi, s: TempHumiSample)
    ensures
        spec_temphumi_record(t, s).is_temp_neg == s.is_negative,
        spec_temphumi_record(t, s).temp_whole * 10 + spec_temphumi_record(t, s).temp_frac == s.temp_tenths,
        spec_temphumi_record(t, s).temp_frac < 10,
        spec_temphumi_record(t, s).humi_whole * 10 + spec_temphumi_record(t, s).humi_frac == s.humi_tenths,
        spec_temphumi_record(t, s).humi_frac < 10,
        spec_temphumi_record(t, s).status == SensorStatus::Good,
{
}

/// On every page the warning is the screen's last line: PM2.5 first, else
/// HCHO; the mute sign comes just before it, or last when no alarm is on.
pub proof fn lemma_alarm_line_every_page(m: Monitor)
    ensures
        ({
            let s = spec_screen_of(m);
            let pm = m.pm25.status == SensorStatus::Good && m.pm25.pm2_5 > 115;
            let hc = m.hcho.status == SensorStatus::Good && m.hcho.ug_m3 > 80;
            &&& s.len() >= 3
            &&& pm ==> s.last() == (42i32, 56i32, Font::Small, lit("PM2.5 Warn!"))
            &&& (!pm && hc) ==> s.last() == (44i32, 56i32, Font::Small, lit("HCHO Warn!"))
            &&& (m.is_muted && (pm || hc)) ==> s[s.len() - 2] == (0i32, 56i32, Font::Small, lit("[Mute]"))
            &&& (m.is_muted && !pm && !hc) ==> s.last() == (0i32, 56i32, Font::Small, lit("[Mute]"))
        }),
{
}

/// Number text: decimal digits reading back as `v`.
pub open spec fn shows_number(d: Seq<u8>, v: int) -> bool {
    all_digits(d) && d.len() >= 1 && digits_value(d) == v
}

/// The temperature page shows the banner, its title, then, for a good
/// reading, the temperature with its sign and the humidity, each as whole
/// and tenths that read back as the stored values.
pub proof fn lemma_temphumi_page_shows_values(m: Monitor)
    requires
        m.page == Page::TempHumi,
        m.temphumi.status == SensorStatus::Good,
    ensures
        ({
            let s = spec_screen_of(m);
            let t = m.temphumi;
            &&& s[0] == (10i32, 0i32, Font::Normal, lit("=== Air Monitor ==="))
            &&& s[1] == (10i32, 12i32, Font::Normal, lit("> PAGE 1: Temp/Humi"))
            &&& exists|w: Seq<u8>, f: Seq<u8>|
                shows_number(w, t.temp_whole as int) && shows_number(f, t.temp_frac as int) && s[2] == (
                10i32,
                26i32,
                Font::Normal,
                lit("Temp: ") + (if t.is_temp_neg { lit("-") } else { Seq::empty() }) + w + lit(".") + f + lit(" C"),
            )
            &&& exists|w: Seq<u8>, f: Seq<u8>|
                shows_number(w, t.humi_whole as int) && shows_number(f, t.humi_frac as int) && s[3] == (
                10i32,
                40i32,
                Font::Normal,
                lit("Humi: ") + w + lit(".") + f + lit(" %"),
            )
        }),
{
    let t = m.temphumi;
    lemma_dec_bytes_value(t.temp_whole as nat);
    lemma_dec_bytes_value(t.temp_frac as nat);
    lemma_dec_bytes_value(t.humi_whole as nat);
    lemma_dec_bytes_value(t.humi_frac as nat);
    let s = spec_screen_of(m);
    assert(shows_number(dec_bytes(t.temp_whole as nat), t.temp_whole as int) && shows_number(
        dec_bytes(t.temp_frac as nat), t.temp_frac as int) && s[2] == (
        10i32,
        26i32,
        Font::Normal,
        lit("Temp: ") + (if t.is_temp_neg { lit("-") } else { Seq::empty() }) + dec_bytes(t.temp_whole as nat)
            + lit(".") + dec_bytes(t.temp_frac as nat) + lit(" C"),
    ));
    assert(shows_number(dec_bytes(t.humi_whole as nat), t.humi_whole as int) && shows_number(
        dec_bytes(t.humi_frac as nat), t.humi_frac as int) && s[3] == (
        10i32,
        40i32,
        Font::Normal,
        lit("Humi: ") + dec_bytes(t.humi_whole as nat) + lit(".") + dec_bytes(t.humi_frac as nat) + lit(" %"),
    ));
}

/// Whole seconds from tick `k` of the PM2.5 cycle to the next reading, at
/// tick 1000 of this cycle or of the next one (50 ticks a second).
pub open spec fn pm25_countdown(k: int) -> int {
    if k < 1000 {
        (1000 - k) / 50
    } else {
        (9000 - k + 1000) / 50
    }
}

/// The PM2.5 page shows, for a good reading, PM2.5 and PM10 in ug/m3 and,
/// on the bottom row, whether the sensor runs or sleeps with the seconds
/// left until the next reading.
pub proof fn lemma_pm25_page_shows_values(m: Monitor)
    requires
        m.page == Page::Pm25,
        m.pm25.status == SensorStatus::Good,
        m.pm25_schedule_ticks <= 9000,
    ensures
        ({
            let s = spec_screen_of(m);
            let c = m.pm25;
            let k = m.pm25_schedule_ticks as int;
            let w = pm25_countdown(k);
            &&& s[1] == (10i32, 12i32, Font::Normal, lit("> PAGE 2: PM 2.5"))
            &&& exists|d: Seq<u8>|
                shows_number(d, c.pm2_5 as int) && s[2] == (10i32, 26i32, Font::Normal, lit("PM2.5: ") + d + lit(
                    " ug/m3",
                ))
            &&& exists|d: Seq<u8>|
                shows_number(d, c.pm10 as int) && s[3] == (10i32, 40i32, Font::Normal, lit("PM10 : ") + d + lit(
                    " ug/m3",
                ))
            &&& exists|d: Seq<u8>|
                shows_number(d, w) && s[4] == (
                    85i32,
                    56i32,
                    Font::Small,
                    lit("[") + (if k < 1000 { lit("Run") } else { lit("Zzz") }) + d + lit("s]"),
                )
        }),
{
    let s = spec_screen_of(m);
    let c = m.pm25;
    let k = m.pm25_schedule_ticks as int;
    let w = pm25_countdown(k);
    lemma_dec_bytes_value(c.pm2_5 as nat);
    lemma_dec_bytes_value(c.pm10 as nat);
    lemma_dec_bytes_value(w as nat);
    assert(shows_number(dec_bytes(c.pm2_5 as nat), c.pm2_5 as int) && s[2] == (10i32, 26i32, Font::Normal, lit(
        "PM2.5: ",
    ) + dec_bytes(c.pm2_5 as nat) + lit(" ug/m3")));
    assert(shows_number(dec_bytes(c.pm10 as nat), c.pm10 as int) && s[3] == (10i32, 40i32, Font::Normal, lit(
        "PM10 : ",
    ) + dec_bytes(c.pm10 as nat) + lit(" ug/m3")));
    assert(shows_number(dec_bytes(w as nat), w) && s[4] == (
        85i32,
        56i32,
        Font::Small,
        lit("[") + (if k < 1000 { lit("Run") } else { lit("Zzz") }) + dec_bytes(w as nat) + lit("s]"),
    ));
}

/// The HCHO page shows, for a good reading, the concentration in ug/m3, and
/// in mg/m3 as whole and three decimals that together read back as it.
pub proof fn lemma_hcho_page_shows_values(m: Monitor)
    requires
        m.page == Page::Hcho,
        m.hcho.status == SensorStatus::Good,
    ensures
        ({
            let s = spec_screen_of(m);
            let u = m.hcho.ug_m3 as int;
            &&& s[1] == (10i32, 12i32, Font::Normal, lit("> PAGE 3: HCHO"))
            &&& exists|d: Seq<u8>|
                shows_number(d, u) && s[2] == (10i32, 26i32, Font::Normal, lit("Conc: ") + d + lit(" ug/m3"))
            &&& exists|w: Seq<u8>, f: Seq<u8>|
                shows_number(w, u / 1000) && all_digits(f) && f.len() == 3 && digits_value(w) * 1000
                    + digits_value(f) == u && s[3] == (10i32, 40i32, Font::Normal, lit("Eqv : ") + w + lit(".")
                    + f + lit(" mg/m3"))
        }),
{
    let s = spec_screen_of(m);
    let u = m.hcho.ug_m3 as int;
    lemma_dec_bytes_value(u as nat);
    lemma_dec_bytes_value((u / 1000) as nat);
    lemma_pad3_value((u % 1000) as nat);
    assert(shows_number(dec_bytes(u as nat), u) && s[2] == (10i32, 26i32, Font::Normal, lit("Conc: ") + dec_bytes(
        u as nat,
    ) + lit(" ug/m3")));
    assert(shows_number(dec_bytes((u / 1000) as nat), u / 1000) && all_digits(pad3_bytes((u % 1000) as nat))
        && pad3_bytes((u % 1000) as nat).len() == 3 && digits_value(dec_bytes((u / 1000) as nat)) * 1000
        + digits_value(pad3_bytes((u % 1000) as nat)) == u && s[3] == (10i32, 40i32, Font::Normal, lit("Eqv : ")
        + dec_bytes((u / 1000) as nat) + lit(".") + pad3_bytes((u % 1000) as nat) + lit(" mg/m3")));
}

/// Step 1 in full: the tick advances (saturating), a measurement starts
/// exactly when it reaches 48 on the temperature page, a started measurement
/// is read exactly when it reaches 50, which restarts the second and redraws
/// the PM2.5 page; the readings and the page do not change.
pub proof fn lemma_start_tick_rule(m: Monitor)
    ensures
        ({
            let (n, t) = spec_start_tick(m);
            let r: int = if m.refresh_ticks < 255 { m.refresh_ticks + 1 } else { 255 };
            &&& (t == TempHumiTask::Measure) == (r == 48 && m.page == Page::TempHumi)
            &&& (t == TempHumiTask::Read) == (r >= 50 && m.is_temphumi_measuring)
            &&& n.refresh_ticks == (if r >= 50 { 0 } else { r })
            &&& n.is_temphumi_measuring == (m.is_temphumi_measuring || (r == 48 && m.page == Page::TempHumi))
            &&& n.need_redraw == (m.need_redraw || (r >= 50 && m.page == Page::Pm25))
            &&& n.page == m.page && n.temphumi == m.temphumi && n.pm25 == m.pm25 && n.hcho == m.hcho
            &&& n.pm25_schedule_ticks == m.pm25_schedule_ticks && n.is_muted == m.is_muted
        }),
{
}

/// After a temperature read: a good sample is stored and redraws the
/// temperature page; a failure counts one more (saturating) and turns the
/// sensor to error at the third; either way no measurement is pending.
pub proof fn lemma_temphumi_done_rule(m: Monitor, sample: Option<TempHumiSample>)
    ensures
        !spec_temphumi_done(m, sample).is_temphumi_measuring,
        spec_temphumi_done(m, sample).page == m.page,
        sample matches Some(s) ==> {
            &&& spec_temphumi_done(m, sample).temphumi.is_temp_neg == s.is_negative
            &&& spec_temphumi_done(m, sample).temphumi.temp_whole * 10 + spec_temphumi_done(m, sample).temphumi.temp_frac == s.temp_tenths
            &&& spec_temphumi_done(m, sample).temphumi.humi_whole * 10 + spec_temphumi_done(m, sample).temphumi.humi_frac == s.humi_tenths
            &&& spec_temphumi_done(m, sample).temphumi.status == SensorStatus::Good
            &&& spec_temphumi_done(m, sample).need_redraw == (m.need_redraw || m.page == Page::TempHumi)
        },
        sample is None ==> {
            &&& spec_temphumi_done(m, sample).temphumi.fail_count == (if m.temphumi.fail_count < 255 { m.temphumi.fail_count + 1 } else { 255 })
            &&& spec_temphumi_done(m, sample).temphumi.status == (if spec_temphumi_done(m, sample).temphumi.fail_count >= 3 { SensorStatus::Error } else { m.temphumi.status })
            &&& spec_temphumi_done(m, sample).temphumi.temp_whole == m.temphumi.temp_whole
            &&& spec_temphumi_done(m, sample).temphumi.is_temp_neg == m.temphumi.is_temp_neg
        },
{
}

/// Step 4 in full: a move of 4 counts or more forward (modulo 2^16, up to
/// half the range) turns to the next page, 4 or more backward to the previous
/// one; a turn records the count, redraws, lights the LED for one tick and
/// brings the temperature or HCHO refresh forward; otherwise nothing changes.
pub proof fn lemma_encoder_rule(m: Monitor, count: u16)
    ensures
        ({
            let (n, turned) = spec_encoder(m, count);
            let d = (count as int - m.enc_last_count as int) % 65536;
            let fwd = 4 <= d < 32768;
            let back = 32768 <= d <= 65532;
            &&& turned == (fwd || back)
            &&& fwd ==> page_index(n.page) == (page_index(m.page) + 1) % 3
            &&& back ==> page_index(n.page) == (page_index(m.page) + 2) % 3
            &&& turned ==> n.enc_last_count == count && n.need_redraw && n.led_on_ticks == 1
            &&& turned ==> (n.page == Page::TempHumi ==> n.refresh_ticks == 47)
            &&& turned ==> (n.page == Page::Hcho ==> n.refresh_ticks == 24)
            &&& turned ==> (n.page == Page::Pm25 ==> n.refresh_ticks == m.refresh_ticks)
            &&& turned ==> n.pm25_schedule_ticks == m.pm25_schedule_ticks && n.is_muted == m.is_muted
            &&& !turned ==> n == m
        }),
{
}

/// Step 5 in full: while pressed the hold grows (saturating) and the LED
/// is lit for two ticks, mute toggling when the hold first reaches 30; on
/// release, a hold of 2 to 29 ticks refreshes the page's sensor and redraws;
/// the hold then restarts.
pub proof fn lemma_button_rule(m: Monitor, pressed: bool)
    ensures
        ({
            let (n, ev) = spec_button(m, pressed);
            let h: int = if m.sw_hold_ticks < 255 { m.sw_hold_ticks + 1 } else { 255 };
            let long = pressed && h >= 30 && !m.sw_long_pressed_triggered;
            let short = !pressed && 2 <= m.sw_hold_ticks < 30;
            &&& n.page == m.page
            &&& pressed ==> n.sw_hold_ticks == h && n.led_on_ticks == 2
            &&& (ev == ButtonEvent::LongPress) == long
            &&& (ev == ButtonEvent::Held) == (pressed && !long)
            &&& (ev == ButtonEvent::ShortPress) == short
            &&& n.is_muted == (m.is_muted != long)
            &&& !pressed ==> n.sw_hold_ticks == 0 && !n.sw_long_pressed_triggered
            &&& short ==> n.need_redraw
            &&& (short && m.page == Page::Pm25) ==> n.pm25_schedule_ticks == 0
            &&& (short && m.page == Page::TempHumi) ==> n.refresh_ticks == 47
            &&& (short && m.page == Page::Hcho) ==> n.refresh_ticks == 24
            &&& !short && !long ==> n.need_redraw == m.need_redraw && n.refresh_ticks == m.refresh_ticks
                && n.pm25_schedule_ticks == m.pm25_schedule_ticks
        }),
{
}

/// Step 7 in full: the LED counter goes down by one while positive, and the
/// LED goes off exactly when it reaches zero.
pub proof fn lemma_led_rule(m: Monitor)
    ensures
        m.led_on_ticks > 0 ==> spec_led_tick(m).0.led_on_ticks == m.led_on_ticks - 1,
        spec_led_tick(m).1 == (m.led_on_ticks == 1),
        m.led_on_ticks == 0 ==> spec_led_tick(m).0 == m,
{
}

} // verus!
