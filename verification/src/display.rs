//! What the screen shows: a list of text lines, each at a position and in a
//! font, computed from the monitor's state.
use vstd::prelude::*;
use vstd::utf8::is_ascii_chars;
use crate::text::{
    ascii_bytes, dec_bytes, lemma_dec_len_u16, lemma_dec_len_u32, line_new, pad3_bytes, push_decimal,
    push_decimal_pad3, push_text, text_bytes,
};
use crate::page::Page;
use crate::sensors::{HchoCache, Pm25Cache, SensorStatus, TempHumi};

verus! {

/// The two fonts of the display.
#[derive(Clone, Copy, Debug, PartialEq, Eq, Structural)]
pub enum Font {
    /// 6x10 pixels.
    Normal,
    /// 4x6 pixels.
    Small,
}

/// One line of text; `(x, y)` is the top-left corner, in pixels.
pub struct TextLine {
    pub x: i32,
    pub y: i32,
    pub font: Font,
    pub text: heapless::String<32>,
}

/// The text lines of one screen, in drawing order.
pub struct Screen {
    pub lines: Vec<TextLine>,
}

/// A line as position, font and bytes of text.
pub open spec fn line_view(l: TextLine) -> (i32, i32, Font, Seq<u8>) {
    (l.x, l.y, l.font, text_bytes(l.text))
}

pub open spec fn lines_view(s: Seq<TextLine>) -> Seq<(i32, i32, Font, Seq<u8>)> {
    s.map_values(|l: TextLine| line_view(l))
}

/// The bytes of an ASCII literal.
pub open spec fn lit(s: &str) -> Seq<u8> {
    ascii_bytes(s@)
}

pub open spec fn dec(n: int) -> Seq<u8> {
    dec_bytes(n as nat)
}

/// Lines of the temperature and humidity page below its title.
pub open spec fn spec_temphumi_lines(t: TempHumi) -> Seq<(i32, i32, Font, Seq<u8>)> {
    match t.status {
        SensorStatus::Good => seq![
            (10i32, 26i32, Font::Normal, lit("Temp: ") + (if t.is_temp_neg { lit("-") } else { Seq::empty() })
                + dec(t.temp_whole as int) + lit(".") + dec(t.temp_frac as int) + lit(" C")),
            (10i32, 40i32, Font::Normal, lit("Humi: ") + dec(t.humi_whole as int) + lit(".") + dec(
                t.humi_frac as int) + lit(" %")),
        ],
        SensorStatus::Init => seq![(10i32, 26i32, Font::Normal, lit("Loading data..."))],
        SensorStatus::Error => seq![
            (10i32, 26i32, Font::Normal, lit("SENSOR ERROR!")),
            (10i32, 40i32, Font::Normal, lit("Check I2C Wire.")),
        ],
    }
}

/// Seconds shown while the PM2.5 sensor works normally: until the next
/// reading, counted in the current cycle or the next.
pub open spec fn pm25_wait_good(sched: u16) -> int {
    if sched < 1000 {
        (1000 - sched) / 50
    } else {
        (9000 - sched + 1000) / 50
    }
}

/// Seconds shown while the PM2.5 sensor warms up before its first reading.
pub open spec fn pm25_wait_init(sched: u16) -> int {
    if sched < 1000 {
        1000int / 50 - sched as int / 50
    } else {
        0
    }
}

/// Lines of the PM2.5 page below its title; `sched` is the tick of the PM2.5
/// cycle.
pub open spec fn spec_pm25_lines(c: Pm25Cache, sched: u16) -> Seq<(i32, i32, Font, Seq<u8>)> {
    match c.status {
        SensorStatus::Good => seq![
            (10i32, 26i32, Font::Normal, lit("PM2.5: ") + dec(c.pm2_5 as int) + lit(" ug/m3")),
            (10i32, 40i32, Font::Normal, lit("PM10 : ") + dec(c.pm10 as int) + lit(" ug/m3")),
            (85i32, 56i32, Font::Small, lit("[") + (if sched < 1000 { lit("Run") } else { lit("Zzz") })
                + dec(pm25_wait_good(sched)) + lit("s]")),
        ],
        SensorStatus::Init => seq![
            (10i32, 26i32, Font::Normal, lit("Warming up... ") + dec(pm25_wait_init(sched)) + lit("s")),
        ],
        SensorStatus::Error => seq![
            (10i32, 26i32, Font::Normal, lit("SENSOR ERROR!")),
            (10i32, 40i32, Font::Normal, lit("Check UART Wire.")),
        ],
    }
}

/// Lines of the HCHO page below its title.
pub open spec fn spec_hcho_lines(c: HchoCache) -> Seq<(i32, i32, Font, Seq<u8>)> {
    match c.status {
        SensorStatus::Good => seq![
            (10i32, 26i32, Font::Normal, lit("Conc: ") + dec(c.ug_m3 as int) + lit(" ug/m3")),
            (10i32, 40i32, Font::Normal, lit("Eqv : ") + dec((c.ug_m3 / 1000) as int) + lit(".") + pad3_bytes(
                (c.ug_m3 % 1000) as nat) + lit(" mg/m3")),
        ],
        SensorStatus::Init => seq![
            (10i32, 26i32, Font::Normal, lit("Warming up...")),
            (10i32, 40i32, Font::Normal, lit("Need 24h to stable")),
        ],
        SensorStatus::Error => seq![
            (10i32, 26i32, Font::Normal, lit("SENSOR ERROR!")),
            (10i32, 40i32, Font::Normal, lit("Check PB10/PB11")),
        ],
    }
}

/// Title line of each page.
pub open spec fn spec_page_title(p: Page) -> (i32, i32, Font, Seq<u8>) {
    match p {
        Page::TempHumi => (10i32, 12i32, Font::Normal, lit("> PAGE 1: Temp/Humi")),
        Page::Pm25 => (10i32, 12i32, Font::Normal, lit("> PAGE 2: PM 2.5")),
        Page::Hcho => (10i32, 12i32, Font::Normal, lit("> PAGE 3: HCHO")),
    }
}

/// The whole screen: banner, page title, page content, then the mute sign
/// and the alarm (PM2.5 before HCHO) on the bottom row.
pub open spec fn spec_screen(
    page: Page,
    t: TempHumi,
    pm: Pm25Cache,
    sched: u16,
    h: HchoCache,
    muted: bool,
    pm_alarm: bool,
    hcho_alarm: bool,
) -> Seq<(i32, i32, Font, Seq<u8>)> {
    seq![(10i32, 0i32, Font::Normal, lit("=== Air Monitor ===")), spec_page_title(page)] + match page {
        Page::TempHumi => spec_temphumi_lines(t),
        Page::Pm25 => spec_pm25_lines(pm, sched),
        Page::Hcho => spec_hcho_lines(h),
    } + (if muted { seq![(0i32, 56i32, Font::Small, lit("[Mute]"))] } else { Seq::empty() }) + (if pm_alarm {
        seq![(42i32, 56i32, Font::Small, lit("PM2.5 Warn!"))]
    } else if hcho_alarm {
        seq![(44i32, 56i32, Font::Small, lit("HCHO Warn!"))]
    } else {
        Seq::empty()
    })
}

/// Every line of a screen fits in a 32-byte line buffer.
pub open spec fn lines_fit(s: Seq<(i32, i32, Font, Seq<u8>)>) -> bool {
    forall|i: int| 0 <= i < s.len() ==> (#[trigger] s[i]).3.len() <= 32
}

fn push_line(out: &mut Vec<TextLine>, l: TextLine)
    requires
        lines_fit(lines_view(old(out)@)),
        text_bytes(l.text).len() <= 32,
    ensures
        lines_view(final(out)@) == lines_view(old(out)@).push(line_view(l)),
        lines_fit(lines_view(final(out)@)),
{
    let ghost lv = line_view(l);
    out.push(l);
    assert(lines_view(out@) =~= lines_view(old(out)@).push(lv));
}

/// A line holding the ASCII literal `t`.
fn fixed_line(out: &mut Vec<TextLine>, x: i32, y: i32, font: Font, t: &str)
    requires
        is_ascii_chars(t@),
        t@.len() <= 32,
        lines_fit(lines_view(old(out)@)),
    ensures
        lines_view(final(out)@) == lines_view(old(out)@).push((x, y, font, lit(t))),
        lines_fit(lines_view(final(out)@)),
{
    let mut s = line_new();
    push_text(&mut s, t);
    assert(text_bytes(s) =~= lit(t));
    push_line(out, TextLine { x, y, font, text: s });
}

fn temphumi_lines(out: &mut Vec<TextLine>, t: &TempHumi)
    requires
        lines_fit(lines_view(old(out)@)),
    ensures
        lines_view(final(out)@) == lines_view(old(out)@) + spec_temphumi_lines(*t),
        lines_fit(lines_view(final(out)@)),
{
    let ghost before = lines_view(out@);
    match t.status {
        SensorStatus::Good => {
            proof {
                reveal_strlit("Temp: ");
                reveal_strlit("-");
                reveal_strlit(".");
                reveal_strlit(" C");
                reveal_strlit("Humi: ");
                reveal_strlit(" %");
                lemma_dec_len_u32(t.temp_whole);
                lemma_dec_len_u32(t.temp_frac);
                lemma_dec_len_u32(t.humi_whole);
                lemma_dec_len_u32(t.humi_frac);
            }
            let mut s = line_new();
            push_text(&mut s, "Temp: ");
            if t.is_temp_neg {
                push_text(&mut s, "-");
            }
            push_decimal(&mut s, t.temp_whole);
            push_text(&mut s, ".");
            push_decimal(&mut s, t.temp_frac);
            push_text(&mut s, " C");
            assert(text_bytes(s) =~= lit("Temp: ") + (if t.is_temp_neg { lit("-") } else { Seq::empty() })
                + dec(t.temp_whole as int) + lit(".") + dec(t.temp_frac as int) + lit(" C"));
            push_line(out, TextLine { x: 10, y: 26, font: Font::Normal, text: s });
            let mut s = line_new();
            push_text(&mut s, "Humi: ");
            push_decimal(&mut s, t.humi_whole);
            push_text(&mut s, ".");
            push_decimal(&mut s, t.humi_frac);
            push_text(&mut s, " %");
            assert(text_bytes(s) =~= lit("Humi: ") + dec(t.humi_whole as int) + lit(".") + dec(
                t.humi_frac as int) + lit(" %"));
            push_line(out, TextLine { x: 10, y: 40, font: Font::Normal, text: s });
        },
        SensorStatus::Init => {
            proof {
                reveal_strlit("Loading data...");
            }
            fixed_line(out, 10, 26, Font::Normal, "Loading data...");
        },
        SensorStatus::Error => {
            proof {
                reveal_strlit("SENSOR ERROR!");
                reveal_strlit("Check I2C Wire.");
            }
            fixed_line(out, 10, 26, Font::Normal, "SENSOR ERROR!");
            fixed_line(out, 10, 40, Font::Normal, "Check I2C Wire.");
        },
    }
    assert(lines_view(out@) =~= before + spec_temphumi_lines(*t));
}

fn pm25_lines(out: &mut Vec<TextLine>, c: &Pm25Cache, sched: u16)
    requires
        sched <= 9000,
        lines_fit(lines_view(old(out)@)),
    ensures
        lines_view(final(out)@) == lines_view(old(out)@) + spec_pm25_lines(*c, sched),
        lines_fit(lines_view(final(out)@)),
{
    let ghost before = lines_view(out@);
    match c.status {
        SensorStatus::Good => {
            proof {
                reveal_strlit("PM2.5: ");
                reveal_strlit(" ug/m3");
                reveal_strlit("PM10 : ");
                reveal_strlit("[");
                reveal_strlit("Run");
                reveal_strlit("Zzz");
                reveal_strlit("s]");
                lemma_dec_len_u16(c.pm2_5);
                lemma_dec_len_u16(c.pm10);
            }
            let mut s = line_new();
            push_text(&mut s, "PM2.5: ");
            push_decimal(&mut s, c.pm2_5 as u32);
            push_text(&mut s, " ug/m3");
            assert(text_bytes(s) =~= lit("PM2.5: ") + dec(c.pm2_5 as int) + lit(" ug/m3"));
            push_line(out, TextLine { x: 10, y: 26, font: Font::Normal, text: s });
            let mut s = line_new();
            push_text(&mut s, "PM10 : ");
            push_decimal(&mut s, c.pm10 as u32);
            push_text(&mut s, " ug/m3");
            assert(text_bytes(s) =~= lit("PM10 : ") + dec(c.pm10 as int) + lit(" ug/m3"));
            push_line(out, TextLine { x: 10, y: 40, font: Font::Normal, text: s });
            let wait: u16 = if sched < 1000 {
                (1000 - sched) / 50
            } else {
                (9000 - sched + 1000) / 50
            };
            proof {
                lemma_dec_len_u16(wait);
            }
            let mut s = line_new();
            push_text(&mut s, "[");
            if sched < 1000 {
                push_text(&mut s, "Run");
            } else {
                push_text(&mut s, "Zzz");
            }
            push_decimal(&mut s, wait as u32);
            push_text(&mut s, "s]");
            assert(text_bytes(s) =~= lit("[") + (if sched < 1000 { lit("Run") } else { lit("Zzz") })
                + dec(pm25_wait_good(sched)) + lit("s]"));
            push_line(out, TextLine { x: 85, y: 56, font: Font::Small, text: s });
        },
        SensorStatus::Init => {
            let wait: u16 = if sched < 1000 {
                1000 / 50 - sched / 50
            } else {
                0
            };
            proof {
                reveal_strlit("Warming up... ");
                reveal_strlit("s");
                lemma_dec_len_u16(wait);
            }
            let mut s = line_new();
            push_text(&mut s, "Warming up... ");
            push_decimal(&mut s, wait as u32);
            push_text(&mut s, "s");
            assert(text_bytes(s) =~= lit("Warming up... ") + dec(pm25_wait_init(sched)) + lit("s"));
            push_line(out, TextLine { x: 10, y: 26, font: Font::Normal, text: s });
        },
        SensorStatus::Error => {
            proof {
                reveal_strlit("SENSOR ERROR!");
                reveal_strlit("Check UART Wire.");
            }
            fixed_line(out, 10, 26, Font::Normal, "SENSOR ERROR!");
            fixed_line(out, 10, 40, Font::Normal, "Check UART Wire.");
        },
    }
    assert(lines_view(out@) =~= before + spec_pm25_lines(*c, sched));
}

fn hcho_lines(out: &mut Vec<TextLine>, c: &HchoCache)
    requires
        lines_fit(lines_view(old(out)@)),
    ensures
        lines_view(final(out)@) == lines_view(old(out)@) + spec_hcho_lines(*c),
        lines_fit(lines_view(final(out)@)),
{
    let ghost before = lines_view(out@);
    match c.status {
        SensorStatus::Good => {
            proof {
                reveal_strlit("Conc: ");
                reveal_strlit(" ug/m3");
                reveal_strlit("Eqv : ");
                reveal_strlit(".");
                reveal_strlit(" mg/m3");
                lemma_dec_len_u16(c.ug_m3);
                lemma_dec_len_u16(c.ug_m3 / 1000);
            }
            let mut s = line_new();
            push_text(&mut s, "Conc: ");
            push_decimal(&mut s, c.ug_m3 as u32);
            push_text(&mut s, " ug/m3");
            assert(text_bytes(s) =~= lit("Conc: ") + dec(c.ug_m3 as int) + lit(" ug/m3"));
            push_line(out, TextLine { x: 10, y: 26, font: Font::Normal, text: s });
            let whole: u16 = c.ug_m3 / 1000;
            let frac: u16 = c.ug_m3 % 1000;
            let mut s = line_new();
            push_text(&mut s, "Eqv : ");
            push_decimal(&mut s, whole as u32);
            push_text(&mut s, ".");
            push_decimal_pad3(&mut s, frac);
            push_text(&mut s, " mg/m3");
            assert(text_bytes(s) =~= lit("Eqv : ") + dec((c.ug_m3 / 1000) as int) + lit(".") + pad3_bytes(
                (c.ug_m3 % 1000) as nat) + lit(" mg/m3"));
            push_line(out, TextLine { x: 10, y: 40, font: Font::Normal, text: s });
        },
        SensorStatus::Init => {
            proof {
                reveal_strlit("Warming up...");
                reveal_strlit("Need 24h to stable");
            }
            fixed_line(out, 10, 26, Font::Normal, "Warming up...");
            fixed_line(out, 10, 40, Font::Normal, "Need 24h to stable");
        },
        SensorStatus::Error => {
            proof {
                reveal_strlit("SENSOR ERROR!");
                reveal_strlit("Check PB10/PB11");
            }
            fixed_line(out, 10, 26, Font::Normal, "SENSOR ERROR!");
            fixed_line(out, 10, 40, Font::Normal, "Check PB10/PB11");
        },
    }
    assert(lines_view(out@) =~= before + spec_hcho_lines(*c));
}

/// Composes the screen; the PM2.5 schedule `sched` is within its cycle.
pub fn compose_screen(
    page: Page,
    t: &TempHumi,
    pm: &Pm25Cache,
    sched: u16,
    h: &HchoCache,
    muted: bool,
    pm_alarm: bool,
    hcho_alarm: bool,
) -> (r: Screen)
    requires
        sched <= 9000,
    ensures
        lines_view(r.lines@) == spec_screen(page, *t, *pm, sched, *h, muted, pm_alarm, hcho_alarm),
        lines_fit(lines_view(r.lines@)),
{
    let mut out: Vec<TextLine> = Vec::new();
    proof {
        reveal_strlit("=== Air Monitor ===");
        reveal_strlit("> PAGE 1: Temp/Humi");
        reveal_strlit("> PAGE 2: PM 2.5");
        reveal_strlit("> PAGE 3: HCHO");
        reveal_strlit("[Mute]");
        reveal_strlit("PM2.5 Warn!");
        reveal_strlit("HCHO Warn!");
    }
    assert(lines_view(out@) =~= Seq::empty());
    fixed_line(&mut out, 10, 0, Font::Normal, "=== Air Monitor ===");
    match page {
        Page::TempHumi => {
            fixed_line(&mut out, 10, 12, Font::Normal, "> PAGE 1: Temp/Humi");
            temphumi_lines(&mut out, t);
        },
        Page::Pm25 => {
            fixed_line(&mut out, 10, 12, Font::Normal, "> PAGE 2: PM 2.5");
            pm25_lines(&mut out, pm, sched);
        },
        Page::Hcho => {
            fixed_line(&mut out, 10, 12, Font::Normal, "> PAGE 3: HCHO");
            hcho_lines(&mut out, h);
        },
    }
    let ghost body = lines_view(out@);
    if muted {
        fixed_line(&mut out, 0, 56, Font::Small, "[Mute]");
    }
    let ghost with_mute = lines_view(out@);
    if pm_alarm {
        fixed_line(&mut out, 42, 56, Font::Small, "PM2.5 Warn!");
    } else if hcho_alarm {
        fixed_line(&mut out, 44, 56, Font::Small, "HCHO Warn!");
    }
    assert(lines_view(out@) =~= spec_screen(page, *t, *pm, sched, *h, muted, pm_alarm, hcho_alarm));
    Screen { lines: out }
}

} // verus!
