use air_quality_monitor::monitor::{ButtonEvent, Monitor, Pm25Task, TempHumiTask, PM25_TICK_CYCLE};
use air_quality_monitor::page::Page;
use air_quality_monitor::protocol::HeaderSync;
use air_quality_monitor::sensors::{SensorStatus, TempHumi};

#[test]
fn law_header_locks_only_after_header() {
    let stream = [0x11u8, 0x42, 0x00, 0x42, 0x4D, 0x10];
    let mut s = HeaderSync::pms7003();
    let mut locked_at = Vec::new();
    for (i, b) in stream.iter().enumerate() {
        if s.feed(*b) {
            locked_at.push(i);
        }
    }
    assert_eq!(locked_at, vec![4]);
    assert_eq!(&stream[3..5], &[0x42, 0x4D]);
}

#[test]
fn law_page_turn_refreshes_next_tick() {
    for pressed in [false, true] {
        let mut m = Monitor::new(10);
        m.page = Page::Pm25;
        assert!(m.encoder_moved(6));
        assert_eq!(m.page, Page::TempHumi);
        m.button_sampled(pressed);
        m.take_screen();
        m.led_tick();
        assert_eq!(m.start_tick(), TempHumiTask::Measure);

        let mut m = Monitor::new(10);
        assert!(m.encoder_moved(6));
        assert_eq!(m.page, Page::Hcho);
        m.button_sampled(pressed);
        m.take_screen();
        m.led_tick();
        m.start_tick();
        assert!(m.hcho_due());
    }
}

#[test]
fn law_short_press_refreshes_each_page() {
    for page in [Page::TempHumi, Page::Pm25, Page::Hcho] {
        let mut m = Monitor::new(0);
        m.page = page;
        m.refresh_ticks = 3;
        m.pm25_schedule_ticks = 3000;
        m.button_sampled(true);
        m.button_sampled(true);
        m.button_sampled(true);
        assert_eq!(m.button_sampled(false), ButtonEvent::ShortPress);
        let t = m.start_tick();
        match page {
            Page::TempHumi => assert_eq!(t, TempHumiTask::Measure),
            Page::Pm25 => assert_eq!(m.pm25_tick(), Pm25Task::Wake),
            Page::Hcho => assert!(m.hcho_due()),
        }
    }
}

#[test]
fn law_release_after_long_press_is_not_short() {
    let mut m = Monitor::new(0);
    for _ in 0..30 {
        m.button_sampled(true);
    }
    assert!(m.is_muted);
    assert_eq!(m.button_sampled(false), ButtonEvent::Idle);
    assert!(!m.sw_long_pressed_triggered);
}

#[test]
fn law_three_failures_error() {
    let mut t = TempHumi::default();
    t.record_failure();
    t.record_failure();
    t.record_failure();
    assert_eq!(t.status, SensorStatus::Error);
}

#[test]
fn law_schedule_stays_in_cycle() {
    let mut m = Monitor::new(0);
    m.page = Page::Pm25;
    for i in 0..20000u32 {
        m.start_tick();
        m.pm25_tick();
        m.encoder_moved((i / 7) as u16);
        m.button_sampled(i % 13 < 4);
        assert!(m.pm25_schedule_ticks < PM25_TICK_CYCLE);
        assert!(m.take_screen().is_some() || !m.need_redraw);
        m.led_tick();
    }
}

#[test]
fn law_buzzer_silent_when_muted() {
    let mut m = Monitor::new(0);
    m.pm25.status = SensorStatus::Good;
    m.pm25.pm2_5 = 500;
    m.is_muted = true;
    for r in 0..50u8 {
        m.refresh_ticks = r;
        assert!(!m.buzzer_on());
    }
}
