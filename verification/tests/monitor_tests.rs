use air_quality_monitor::display::{Font, Screen};
use air_quality_monitor::monitor::{ButtonEvent, Monitor, Pm25Task, TempHumiTask};
use air_quality_monitor::page::Page;
use air_quality_monitor::protocol::{FrameError, HchoReading, PmReading};
use air_quality_monitor::sensors::{
    HchoCache, Pm25Cache, SensorStatus, TempHumi, TempHumiSample,
};

fn texts(s: &Screen) -> Vec<(i32, i32, Font, String)> {
    s.lines.iter().map(|l| (l.x, l.y, l.font, l.text.as_str().to_string())).collect()
}

fn pms_frame(pm2_5: u16, pm10: u16) -> [u8; 32] {
    let mut f = [0u8; 32];
    f[0] = 0x42;
    f[1] = 0x4D;
    f[12] = (pm2_5 >> 8) as u8;
    f[13] = pm2_5 as u8;
    f[14] = (pm10 >> 8) as u8;
    f[15] = pm10 as u8;
    let sum: u16 = f[..30].iter().map(|&b| b as u16).sum();
    f[30] = (sum >> 8) as u8;
    f[31] = sum as u8;
    f
}

fn ze08_frame(ug: u16, ppb: u16) -> [u8; 9] {
    let mut f = [0xFF, 0x86, (ug >> 8) as u8, ug as u8, 0, 0, (ppb >> 8) as u8, ppb as u8, 0];
    let mut sum: u8 = 0;
    for b in &f[1..8] {
        sum = sum.wrapping_add(*b);
    }
    f[8] = (!sum).wrapping_add(1);
    f
}

#[test]
fn defaults_are_init() {
    let t = TempHumi::default();
    assert_eq!(t.status, SensorStatus::Init);
    assert_eq!((t.fail_count, t.is_temp_neg, t.temp_whole, t.temp_frac, t.humi_whole, t.humi_frac), (0, false, 0, 0, 0, 0));
    assert_eq!(Pm25Cache::default(), Pm25Cache { status: SensorStatus::Init, pm2_5: 0, pm10: 0 });
    assert_eq!(HchoCache::default(), HchoCache { status: SensorStatus::Init, ug_m3: 0, ppb: 0 });
}

#[test]
fn page_cycle() {
    assert_eq!(Page::TempHumi.next(), Page::Pm25);
    assert_eq!(Page::Pm25.next(), Page::Hcho);
    assert_eq!(Page::Hcho.next(), Page::TempHumi);
    assert_eq!(Page::TempHumi.prev(), Page::Hcho);
    assert_eq!(Page::Hcho.prev(), Page::Pm25);
    assert_eq!(Page::Pm25.prev(), Page::TempHumi);
    for p in [Page::TempHumi, Page::Pm25, Page::Hcho] {
        assert_eq!(p.next().prev(), p);
        assert_eq!(p.prev().next(), p);
        assert_eq!(p.next().next().next(), p);
    }
}

#[test]
fn temphumi_reading_splits_tenths() {
    let mut t = TempHumi::default();
    t.fail_count = 2;
    t.record_reading(TempHumiSample { is_negative: true, temp_tenths: 53, humi_tenths: 456 });
    assert_eq!(t.status, SensorStatus::Good);
    assert_eq!(t.fail_count, 0);
    assert!(t.is_temp_neg);
    assert_eq!((t.temp_whole, t.temp_frac, t.humi_whole, t.humi_frac), (5, 3, 45, 6));
}

#[test]
fn temphumi_three_failures_make_error() {
    let mut t = TempHumi::default();
    t.record_reading(TempHumiSample { is_negative: false, temp_tenths: 235, humi_tenths: 500 });
    assert!(!t.record_failure());
    assert!(!t.record_failure());
    assert_eq!(t.status, SensorStatus::Good);
    assert!(t.record_failure());
    assert_eq!(t.status, SensorStatus::Error);
    assert!(!t.record_failure());
    assert_eq!(t.fail_count, 4);
    t.fail_count = 255;
    assert!(!t.record_failure());
    assert_eq!(t.fail_count, 255);
}

#[test]
fn temphumi_measure_then_read() {
    let mut m = Monitor::new(0);
    let mut tasks = Vec::new();
    for _ in 0..50 {
        tasks.push(m.start_tick());
    }
    // ticks 1..=47 idle, 48 measure, 49 idle, 50 read
    assert_eq!(tasks[47], TempHumiTask::Measure);
    assert_eq!(tasks[49], TempHumiTask::Read);
    assert_eq!(tasks.iter().filter(|t| **t != TempHumiTask::Idle).count(), 2);
    assert_eq!(m.refresh_ticks, 0);
    assert!(m.is_temphumi_measuring);
    m.need_redraw = false;
    m.temphumi_done(Some(TempHumiSample { is_negative: false, temp_tenths: 235, humi_tenths: 501 }));
    assert!(!m.is_temphumi_measuring);
    assert!(m.need_redraw);
    assert_eq!(m.temphumi.temp_whole, 23);
}

#[test]
fn temphumi_not_measured_on_other_pages() {
    let mut m = Monitor::new(0);
    m.page = Page::Hcho;
    for _ in 0..200 {
        assert_eq!(m.start_tick(), TempHumiTask::Idle);
    }
}

#[test]
fn temphumi_error_redraws_once() {
    let mut m = Monitor::new(0);
    m.need_redraw = false;
    m.temphumi_done(None);
    m.temphumi_done(None);
    assert!(!m.need_redraw);
    m.temphumi_done(None);
    assert!(m.need_redraw);
    assert_eq!(m.temphumi.status, SensorStatus::Error);
}

#[test]
fn pm25_redraw_each_second_on_its_page() {
    let mut m = Monitor::new(0);
    m.page = Page::Pm25;
    m.need_redraw = false;
    m.refresh_ticks = 49;
    assert_eq!(m.start_tick(), TempHumiTask::Idle);
    assert!(m.need_redraw);
}

#[test]
fn pm25_schedule_cycle() {
    let mut m = Monitor::new(0);
    let mut wakes = Vec::new();
    let mut measures = Vec::new();
    for i in 1..=18000u32 {
        match m.pm25_tick() {
            Pm25Task::Wake => wakes.push(i),
            Pm25Task::Measure => measures.push(i),
            Pm25Task::Idle => {},
        }
    }
    assert_eq!(wakes, vec![1, 9001]);
    assert_eq!(measures, vec![1000, 10000]);
    assert_eq!(m.pm25_schedule_ticks, 0);
}

#[test]
fn pm25_answer_updates_cache() {
    let mut m = Monitor::new(0);
    m.page = Page::Pm25;
    m.need_redraw = false;
    let r = m.pm25_done(Some(&pms_frame(120, 150)));
    assert_eq!(r, Ok(PmReading { pm2_5: 120, pm10: 150 }));
    assert_eq!(m.pm25, Pm25Cache { status: SensorStatus::Good, pm2_5: 120, pm10: 150 });
    assert!(m.need_redraw);
    assert!(m.pm25_alarm());
    let r = m.pm25_done(None);
    assert_eq!(r, Err(FrameError::HeaderTimeout));
    assert_eq!(m.pm25, Pm25Cache { status: SensorStatus::Error, pm2_5: 120, pm10: 150 });
    assert!(!m.pm25_alarm());
}

#[test]
fn pm25_alarm_threshold() {
    let mut m = Monitor::new(0);
    m.pm25 = Pm25Cache { status: SensorStatus::Good, pm2_5: 115, pm10: 0 };
    assert!(!m.pm25_alarm());
    m.pm25.pm2_5 = 116;
    assert!(m.pm25_alarm());
    m.pm25.status = SensorStatus::Init;
    assert!(!m.pm25_alarm());
}

#[test]
fn hcho_due_and_answer() {
    let mut m = Monitor::new(0);
    m.page = Page::Hcho;
    let mut due = Vec::new();
    for i in 1..=100u32 {
        m.start_tick();
        if m.hcho_due() {
            due.push(i);
        }
    }
    assert_eq!(due, vec![25, 75]);
    m.need_redraw = false;
    assert_eq!(m.hcho_done(Some(&ze08_frame(81, 66))), Ok(HchoReading { ug_m3: 81, ppb: 66 }));
    assert!(m.need_redraw);
    assert!(m.hcho_alarm());
    m.need_redraw = false;
    let mut bad = ze08_frame(10, 10);
    bad[8] ^= 1;
    assert!(matches!(m.hcho_done(Some(&bad)), Err(FrameError::Checksum { .. })));
    assert!(!m.need_redraw);
    assert_eq!(m.hcho, HchoCache { status: SensorStatus::Error, ug_m3: 81, ppb: 66 });
}

#[test]
fn hcho_alarm_threshold() {
    let mut m = Monitor::new(0);
    m.hcho = HchoCache { status: SensorStatus::Good, ug_m3: 80, ppb: 0 };
    assert!(!m.hcho_alarm());
    m.hcho.ug_m3 = 81;
    assert!(m.hcho_alarm());
}

#[test]
fn encoder_turns_pages() {
    let mut m = Monitor::new(100);
    m.need_redraw = false;
    assert!(!m.encoder_moved(103));
    assert_eq!(m.page, Page::TempHumi);
    assert!(m.encoder_moved(104));
    assert_eq!(m.page, Page::Pm25);
    assert_eq!(m.enc_last_count, 104);
    assert!(m.need_redraw);
    assert_eq!(m.led_on_ticks, 1);
    assert!(m.encoder_moved(108));
    assert_eq!(m.page, Page::Hcho);
    assert_eq!(m.refresh_ticks, 24);
    assert!(!m.encoder_moved(105));
    assert!(m.encoder_moved(104));
    assert_eq!(m.page, Page::Pm25);
}

#[test]
fn encoder_wraps_around() {
    let mut m = Monitor::new(65534);
    assert!(m.encoder_moved(2));
    assert_eq!(m.page, Page::Pm25);
    let mut m = Monitor::new(1);
    assert!(m.encoder_moved(65533));
    assert_eq!(m.page, Page::Hcho);
    assert_eq!(m.refresh_ticks, 24);
}

#[test]
fn button_short_press_refreshes() {
    let mut m = Monitor::new(0);
    m.need_redraw = false;
    assert_eq!(m.button_sampled(true), ButtonEvent::Held);
    assert_eq!(m.led_on_ticks, 2);
    assert_eq!(m.button_sampled(true), ButtonEvent::Held);
    assert_eq!(m.button_sampled(false), ButtonEvent::ShortPress);
    assert_eq!(m.refresh_ticks, 47);
    assert!(m.need_redraw);
    assert_eq!(m.start_tick(), TempHumiTask::Measure);

    let mut m = Monitor::new(0);
    m.page = Page::Pm25;
    m.pm25_schedule_ticks = 4321;
    m.button_sampled(true);
    m.button_sampled(true);
    assert_eq!(m.button_sampled(false), ButtonEvent::ShortPress);
    assert_eq!(m.pm25_schedule_ticks, 0);
    assert_eq!(m.pm25_tick(), Pm25Task::Wake);
}

#[test]
fn button_bounce_is_ignored() {
    let mut m = Monitor::new(0);
    m.need_redraw = false;
    m.button_sampled(true);
    assert_eq!(m.button_sampled(false), ButtonEvent::Idle);
    assert!(!m.need_redraw);
    assert_eq!(m.sw_hold_ticks, 0);
}

#[test]
fn button_long_press_toggles_mute_once() {
    let mut m = Monitor::new(0);
    let mut longs = 0;
    for _ in 0..300 {
        if m.button_sampled(true) == ButtonEvent::LongPress {
            longs += 1;
        }
    }
    assert_eq!(longs, 1);
    assert!(m.is_muted);
    assert_eq!(m.sw_hold_ticks, 255);
    assert_eq!(m.button_sampled(false), ButtonEvent::Idle);
    for _ in 0..30 {
        m.button_sampled(true);
    }
    assert!(!m.is_muted);
}

#[test]
fn led_counts_down() {
    let mut m = Monitor::new(0);
    assert!(!m.led_tick());
    m.led_on_ticks = 2;
    assert!(!m.led_tick());
    assert!(m.led_tick());
    assert_eq!(m.led_on_ticks, 0);
    assert!(!m.led_tick());
}

#[test]
fn buzzer_pattern() {
    let mut m = Monitor::new(0);
    m.hcho = HchoCache { status: SensorStatus::Good, ug_m3: 200, ppb: 0 };
    let on: Vec<u8> = (0..50u8).filter(|&r| {
        m.refresh_ticks = r;
        m.buzzer_on()
    }).collect();
    assert_eq!(on, vec![0, 1, 2, 3, 4, 10, 11, 12, 13, 14]);
    m.is_muted = true;
    m.refresh_ticks = 0;
    assert!(!m.buzzer_on());
    m.is_muted = false;
    m.hcho.status = SensorStatus::Error;
    assert!(!m.buzzer_on());
}

#[test]
fn take_screen_once() {
    let mut m = Monitor::new(0);
    assert!(m.take_screen().is_some());
    assert!(!m.need_redraw);
    assert!(m.take_screen().is_none());
}

#[test]
fn screen_temphumi_pages() {
    let mut m = Monitor::new(0);
    let s = m.screen();
    assert_eq!(texts(&s), vec![
        (10, 0, Font::Normal, "=== Air Monitor ===".to_string()),
        (10, 12, Font::Normal, "> PAGE 1: Temp/Humi".to_string()),
        (10, 26, Font::Normal, "Loading data...".to_string()),
    ]);
    m.temphumi.record_reading(TempHumiSample { is_negative: true, temp_tenths: 53, humi_tenths: 456 });
    let s = m.screen();
    assert_eq!(texts(&s)[2..], [
        (10, 26, Font::Normal, "Temp: -5.3 C".to_string()),
        (10, 40, Font::Normal, "Humi: 45.6 %".to_string()),
    ]);
    m.temphumi.status = SensorStatus::Error;
    m.is_muted = true;
    let s = m.screen();
    assert_eq!(texts(&s)[2..], [
        (10, 26, Font::Normal, "SENSOR ERROR!".to_string()),
        (10, 40, Font::Normal, "Check I2C Wire.".to_string()),
        (0, 56, Font::Small, "[Mute]".to_string()),
    ]);
}

#[test]
fn screen_pm25_pages() {
    let mut m = Monitor::new(0);
    m.page = Page::Pm25;
    m.pm25_schedule_ticks = 120;
    let s = m.screen();
    assert_eq!(texts(&s)[1..], [
        (10, 12, Font::Normal, "> PAGE 2: PM 2.5".to_string()),
        (10, 26, Font::Normal, "Warming up... 18s".to_string()),
    ]);
    m.pm25_schedule_ticks = 1200;
    assert_eq!(texts(&m.screen())[2].3, "Warming up... 0s");
    m.pm25 = Pm25Cache { status: SensorStatus::Good, pm2_5: 130, pm10: 140 };
    m.pm25_schedule_ticks = 1200;
    assert_eq!(texts(&m.screen())[2..], [
        (10, 26, Font::Normal, "PM2.5: 130 ug/m3".to_string()),
        (10, 40, Font::Normal, "PM10 : 140 ug/m3".to_string()),
        (85, 56, Font::Small, "[Zzz176s]".to_string()),
        (42, 56, Font::Small, "PM2.5 Warn!".to_string()),
    ]);
    m.pm25_schedule_ticks = 500;
    assert_eq!(texts(&m.screen())[4].3, "[Run10s]");
    m.pm25.status = SensorStatus::Error;
    assert_eq!(texts(&m.screen())[2..], [
        (10, 26, Font::Normal, "SENSOR ERROR!".to_string()),
        (10, 40, Font::Normal, "Check UART Wire.".to_string()),
    ]);
}

#[test]
fn screen_hcho_pages() {
    let mut m = Monitor::new(0);
    m.page = Page::Hcho;
    assert_eq!(texts(&m.screen())[1..], [
        (10, 12, Font::Normal, "> PAGE 3: HCHO".to_string()),
        (10, 26, Font::Normal, "Warming up...".to_string()),
        (10, 40, Font::Normal, "Need 24h to stable".to_string()),
    ]);
    m.hcho = HchoCache { status: SensorStatus::Good, ug_m3: 1234, ppb: 900 };
    assert_eq!(texts(&m.screen())[2..], [
        (10, 26, Font::Normal, "Conc: 1234 ug/m3".to_string()),
        (10, 40, Font::Normal, "Eqv : 1.234 mg/m3".to_string()),
        (44, 56, Font::Small, "HCHO Warn!".to_string()),
    ]);
    m.hcho.ug_m3 = 45;
    assert_eq!(texts(&m.screen())[3].3, "Eqv : 0.045 mg/m3");
    m.hcho.status = SensorStatus::Error;
    m.pm25 = Pm25Cache { status: SensorStatus::Good, pm2_5: 200, pm10: 0 };
    assert_eq!(texts(&m.screen())[2..], [
        (10, 26, Font::Normal, "SENSOR ERROR!".to_string()),
        (10, 40, Font::Normal, "Check PB10/PB11".to_string()),
        (42, 56, Font::Small, "PM2.5 Warn!".to_string()),
    ]);
}

#[test]
fn screen_longest_lines_fit() {
    let mut m = Monitor::new(0);
    m.temphumi = TempHumi {
        status: SensorStatus::Good,
        fail_count: 0,
        is_temp_neg: true,
        temp_whole: u32::MAX,
        temp_frac: u32::MAX,
        humi_whole: u32::MAX,
        humi_frac: u32::MAX,
    };
    let s = m.screen();
    assert_eq!(s.lines[2].text.as_str(), "Temp: -4294967295.4294967295 C");
    for l in &s.lines {
        assert!(l.text.len() <= 32);
    }
}

#[test]
fn screen_numbers_match_std_formatting() {
    let mut m = Monitor::new(0);
    m.page = Page::Pm25;
    for v in [0u16, 7, 10, 99, 100, 12345, u16::MAX] {
        m.pm25 = Pm25Cache { status: SensorStatus::Good, pm2_5: v, pm10: v / 3 };
        let t = texts(&m.screen());
        assert_eq!(t[2].3, format!("PM2.5: {} ug/m3", v));
        assert_eq!(t[3].3, format!("PM10 : {} ug/m3", v / 3));
    }
    m.page = Page::Hcho;
    for v in [0u16, 5, 80, 999, 1000, 1007, 65535] {
        m.hcho = HchoCache { status: SensorStatus::Good, ug_m3: v, ppb: 0 };
        let t = texts(&m.screen());
        assert_eq!(t[3].3, format!("Eqv : {}.{:03} mg/m3", v / 1000, v % 1000));
    }
}
