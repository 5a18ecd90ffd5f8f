use air_quality_monitor::protocol::{
    parse_pms7003, parse_ze08, pms_command, ze08_command, FrameError, HchoReading, HeaderSync, PmReading,
    PmsCommand, Ze08Command,
};

fn pms_frame(pm2_5: u16, pm10: u16) -> [u8; 32] {
    let mut f = [0u8; 32];
    f[0] = 0x42;
    f[1] = 0x4D;
    f[2] = 0x00;
    f[3] = 28;
    f[12] = (pm2_5 >> 8) as u8;
    f[13] = (pm2_5 & 0xFF) as u8;
    f[14] = (pm10 >> 8) as u8;
    f[15] = (pm10 & 0xFF) as u8;
    f[10] = 7;
    let sum: u16 = f[..30].iter().map(|&b| b as u16).sum();
    f[30] = (sum >> 8) as u8;
    f[31] = (sum & 0xFF) as u8;
    f
}

fn ze08_frame(ug: u16, ppb: u16) -> [u8; 9] {
    let mut f = [0xFF, 0x86, (ug >> 8) as u8, (ug & 0xFF) as u8, 0x24, 0x00, (ppb >> 8) as u8, (ppb & 0xFF) as u8, 0];
    let mut sum: u8 = 0;
    for b in &f[1..8] {
        sum = sum.wrapping_add(*b);
    }
    f[8] = (!sum).wrapping_add(1);
    f
}

#[test]
fn pms_commands_match_datasheet_bytes() {
    assert_eq!(pms_command(PmsCommand::Passive), [0x42, 0x4D, 0xE1, 0x00, 0x00, 0x01, 0x70]);
    assert_eq!(pms_command(PmsCommand::Wakeup), [0x42, 0x4D, 0xE4, 0x00, 0x01, 0x01, 0x74]);
    assert_eq!(pms_command(PmsCommand::Read), [0x42, 0x4D, 0xE2, 0x00, 0x00, 0x01, 0x71]);
    assert_eq!(pms_command(PmsCommand::Sleep), [0x42, 0x4D, 0xE4, 0x00, 0x00, 0x01, 0x73]);
}

#[test]
fn pms_commands_carry_their_sum() {
    for c in [PmsCommand::Passive, PmsCommand::Wakeup, PmsCommand::Read, PmsCommand::Sleep] {
        let f = pms_command(c);
        let sum: u16 = f[..5].iter().map(|&b| b as u16).sum();
        assert_eq!(sum, ((f[5] as u16) << 8) | f[6] as u16);
    }
}

#[test]
fn ze08_commands_match_datasheet_bytes() {
    assert_eq!(ze08_command(Ze08Command::QaMode), [0xFF, 0x01, 0x78, 0x41, 0x00, 0x00, 0x00, 0x00, 0x46]);
    assert_eq!(ze08_command(Ze08Command::Read), [0xFF, 0x01, 0x86, 0x00, 0x00, 0x00, 0x00, 0x00, 0x79]);
}

#[test]
fn ze08_commands_carry_their_checksum() {
    for c in [Ze08Command::QaMode, Ze08Command::Read] {
        let f = ze08_command(c);
        let mut sum: u8 = 0;
        for b in &f[1..8] {
            sum = sum.wrapping_add(*b);
        }
        assert_eq!((!sum).wrapping_add(1), f[8]);
    }
}

#[test]
fn pms_valid_frame_decodes() {
    let f = pms_frame(0x0123, 456);
    assert_eq!(parse_pms7003(&f), Ok(PmReading { pm2_5: 0x0123, pm10: 456 }));
}

#[test]
fn pms_corrupt_frame_reports_checksums() {
    let mut f = pms_frame(35, 40);
    let carried = ((f[30] as u16) << 8) | f[31] as u16;
    f[13] = f[13].wrapping_add(1);
    assert_eq!(parse_pms7003(&f), Err(FrameError::Checksum { computed: carried + 1, carried }));
}

#[test]
fn pms_all_ones_frame_sum() {
    let mut f = [0xFFu8; 32];
    f[30] = 0x1D;
    f[31] = 0xE2;
    // 30 * 255 = 7650 = 0x1DE2
    assert_eq!(parse_pms7003(&f), Ok(PmReading { pm2_5: 0xFFFF, pm10: 0xFFFF }));
}

#[test]
fn ze08_valid_frame_decodes() {
    let f = ze08_frame(0x01F4, 400);
    assert_eq!(parse_ze08(&f), Ok(HchoReading { ug_m3: 500, ppb: 400 }));
}

#[test]
fn ze08_empty_reading_checksum() {
    // bytes 1..8 sum to 0x86; its negation on one byte is 0x7A
    let f = [0xFF, 0x86, 0, 0, 0, 0, 0, 0, 0x7A];
    assert_eq!(parse_ze08(&f), Ok(HchoReading { ug_m3: 0, ppb: 0 }));
}

#[test]
fn ze08_corrupt_frame_reports_checksums() {
    let mut f = ze08_frame(80, 65);
    let good = f[8];
    f[8] = good.wrapping_add(3);
    assert_eq!(parse_ze08(&f), Err(FrameError::Checksum { computed: good as u16, carried: f[8] as u16 }));
}

#[test]
fn header_sync_locks_on_header() {
    let mut s = HeaderSync::pms7003();
    assert!(!s.feed(0x00));
    assert!(!s.feed(0x42));
    assert_eq!(s.state, 1);
    assert!(s.feed(0x4D));
    assert_eq!(s.state, 2);
}

#[test]
fn header_sync_repeated_first_byte_restarts() {
    let mut s = HeaderSync::pms7003();
    assert!(!s.feed(0x42));
    assert!(!s.feed(0x42));
    assert_eq!(s.state, 0);
    assert!(!s.feed(0x4D));
}

#[test]
fn header_sync_ze08() {
    let mut s = HeaderSync::ze08();
    assert!(!s.feed(0x86));
    assert!(!s.feed(0xFF));
    assert!(s.feed(0x86));
}
