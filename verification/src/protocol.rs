//! Serial protocols of the two UART sensors: the PMS7003 particle sensor and
//! the ZE08-CH2O formaldehyde sensor.
use vstd::prelude::*;

verus! {

/// Length in bytes of a PMS7003 answer frame, header included.
pub const PMS_FRAME_LEN: usize = 32;

/// Length in bytes of a ZE08 answer frame, header included.
pub const ZE08_FRAME_LEN: usize = 9;

/// The two header bytes of a PMS7003 frame.
pub const PMS_HEADER_1: u8 = 0x42;
pub const PMS_HEADER_2: u8 = 0x4D;

/// The two header bytes of a ZE08 answer frame.
pub const ZE08_HEADER_1: u8 = 0xFF;
pub const ZE08_HEADER_2: u8 = 0x86;

/// Bytes read, at most, while looking for the PMS7003 header.
pub const PMS_SYNC_ATTEMPTS: usize = 100;

/// Bytes read, at most, while looking for the ZE08 header.
pub const ZE08_SYNC_ATTEMPTS: usize = 30;

/// A 16-bit value sent high byte first.
pub open spec fn be16(hi: u8, lo: u8) -> int {
    hi as int * 256 + lo as int
}

/// Sum of the bytes `s[lo..hi]`.
pub open spec fn byte_sum(s: Seq<u8>, lo: int, hi: int) -> int
    decreases hi - lo,
{
    if hi <= lo {
        0
    } else {
        byte_sum(s, lo, hi - 1) + s[hi - 1] as int
    }
}

/// The sum of `n` bytes is at most `255 * n`.
pub proof fn lemma_byte_sum_bound(s: Seq<u8>, lo: int, hi: int)
    requires
        lo <= hi,
    ensures
        0 <= byte_sum(s, lo, hi) <= 255 * (hi - lo),
    decreases hi - lo,
{
    if hi > lo {
        lemma_byte_sum_bound(s, lo, hi - 1);
    }
}

/// Checksum of a PMS7003 frame: the sum of its first 30 bytes.
pub open spec fn pms_checksum(f: Seq<u8>) -> int {
    byte_sum(f, 0, 30)
}

/// Checksum that a PMS7003 frame carries in its last two bytes.
pub open spec fn pms_carried_checksum(f: Seq<u8>) -> int {
    be16(f[30], f[31])
}

/// Checksum of a ZE08 frame: the two's-complement negation, on one byte, of
/// the sum of bytes 1 to 7.
pub open spec fn ze08_checksum(f: Seq<u8>) -> int {
    (256 - byte_sum(f, 1, 8) % 256) % 256
}

/// What a valid PMS7003 frame reports, in micrograms per cubic metre
/// (atmospheric environment).
#[derive(Clone, Copy, Debug, PartialEq, Eq, Structural)]
pub struct PmReading {
    pub pm2_5: u16,
    pub pm10: u16,
}

/// What a valid ZE08 frame reports.
#[derive(Clone, Copy, Debug, PartialEq, Eq, Structural)]
pub struct HchoReading {
    /// Concentration in micrograms per cubic metre.
    pub ug_m3: u16,
    /// Concentration in parts per billion.
    pub ppb: u16,
}

/// Why a sensor answer was not accepted.
#[derive(Clone, Copy, Debug, PartialEq, Eq, Structural)]
pub enum FrameError {
    /// The header was not found among the bytes read.
    HeaderTimeout,
    /// The checksum computed over the frame differs from the one it carries.
    Checksum { computed: u16, carried: u16 },
}

/// Decodes a PMS7003 answer frame (header included).
pub fn parse_pms7003(f: &[u8; 32]) -> (r: Result<PmReading, FrameError>)
    ensures
        (r is Ok) == (pms_checksum(f@) == pms_carried_checksum(f@)),
        r matches Ok(v) ==> v.pm2_5 == be16(f@[12], f@[13]) && v.pm10 == be16(f@[14], f@[15]),
        (r is Ok) == (byte_sum(f@, 0, 30) == f@[30] as int * 256 + f@[31] as int),
        r matches Ok(v) ==> v.pm2_5 as int == f@[12] as int * 256 + f@[13] as int && v.pm10 as int
            == f@[14] as int * 256 + f@[15] as int,
        r matches Err(e) ==> e == (FrameError::Checksum {
            computed: pms_checksum(f@) as u16,
            carried: pms_carried_checksum(f@) as u16,
        }),
{
    let mut sum: u16 = 0;
    let mut i: usize = 0;
    while i < 30
        invariant
            i <= 30,
            f@.len() == 32,
            sum == byte_sum(f@, 0, i as int),
        decreases 30 - i,
    {
        proof {
            lemma_byte_sum_bound(f@, 0, i as int);
        }
        sum = sum + f[i] as u16;
        i = i + 1;
    }
    let carried: u16 = f[30] as u16 * 256 + f[31] as u16;
    if sum == carried {
        Ok(PmReading { pm2_5: f[12] as u16 * 256 + f[13] as u16, pm10: f[14] as u16 * 256 + f[15] as u16 })
    } else {
        Err(FrameError::Checksum { computed: sum, carried })
    }
}

/// Decodes a ZE08 answer frame (header included).
pub fn parse_ze08(f: &[u8; 9]) -> (r: Result<HchoReading, FrameError>)
    ensures
        (r is Ok) == (ze08_checksum(f@) == f@[8]),
        r matches Ok(v) ==> v.ug_m3 == be16(f@[2], f@[3]) && v.ppb == be16(f@[6], f@[7]),
        (r is Ok) == ((256 - byte_sum(f@, 1, 8) % 256) % 256 == f@[8] as int),
        r matches Ok(v) ==> v.ug_m3 as int == f@[2] as int * 256 + f@[3] as int && v.ppb as int == f@[6] as int
            * 256 + f@[7] as int,
        r matches Err(e) ==> e == (FrameError::Checksum {
            computed: ze08_checksum(f@) as u16,
            carried: f@[8] as u16,
        }),
{
    let mut sum: u16 = 0;
    let mut i: usize = 1;
    while i < 8
        invariant
            1 <= i <= 8,
            f@.len() == 9,
            sum == byte_sum(f@, 1, i as int),
        decreases 8 - i,
    {
        proof {
            lemma_byte_sum_bound(f@, 1, i as int);
        }
        sum = sum + f[i] as u16;
        i = i + 1;
    }
    let low: u16 = sum % 256;
    let expected: u16 = if low == 0 { 0 } else { 256 - low };
    if expected == f[8] as u16 {
        Ok(HchoReading { ug_m3: f[2] as u16 * 256 + f[3] as u16, ppb: f[6] as u16 * 256 + f[7] as u16 })
    } else {
        Err(FrameError::Checksum { computed: expected, carried: f[8] as u16 })
    }
}

/// Commands understood by the PMS7003.
#[derive(Clone, Copy, Debug, PartialEq, Eq, Structural)]
pub enum PmsCommand {
    /// Switch to passive mode: the sensor answers only when asked.
    Passive,
    /// Wake up: fan and laser on.
    Wakeup,
    /// Ask for one reading in passive mode.
    Read,
    /// Go to sleep: fan and laser off.
    Sleep,
}

/// Command byte and 16-bit data word of a PMS7003 command.
pub open spec fn pms_command_fields(c: PmsCommand) -> (u8, u8, u8) {
    match c {
        PmsCommand::Passive => (0xE1, 0x00, 0x00),
        PmsCommand::Wakeup => (0xE4, 0x00, 0x01),
        PmsCommand::Read => (0xE2, 0x00, 0x00),
        PmsCommand::Sleep => (0xE4, 0x00, 0x00),
    }
}

/// A PMS7003 command frame: header, command byte, data word, and the sum of
/// the five preceding bytes, high byte first.
pub open spec fn pms_command_frame(cmd: u8, hi: u8, lo: u8) -> Seq<u8> {
    let sum = PMS_HEADER_1 as int + PMS_HEADER_2 as int + cmd as int + hi as int + lo as int;
    seq![PMS_HEADER_1, PMS_HEADER_2, cmd, hi, lo, (sum / 256) as u8, (sum % 256) as u8]
}

/// The bytes of PMS7003 command `c`.
pub fn pms_command(c: PmsCommand) -> (r: [u8; 7])
    ensures
        r@ == pms_command_frame(pms_command_fields(c).0, pms_command_fields(c).1, pms_command_fields(c).2),
        be16(r@[5], r@[6]) == byte_sum(r@, 0, 5),
{
    let r: [u8; 7] = match c {
        PmsCommand::Passive => [0x42, 0x4D, 0xE1, 0x00, 0x00, 0x01, 0x70],
        PmsCommand::Wakeup => [0x42, 0x4D, 0xE4, 0x00, 0x01, 0x01, 0x74],
        PmsCommand::Read => [0x42, 0x4D, 0xE2, 0x00, 0x00, 0x01, 0x71],
        PmsCommand::Sleep => [0x42, 0x4D, 0xE4, 0x00, 0x00, 0x01, 0x73],
    };
    assert(r@ =~= pms_command_frame(pms_command_fields(c).0, pms_command_fields(c).1, pms_command_fields(c).2));
    reveal_with_fuel(byte_sum, 6);
    r
}

/// Commands understood by the ZE08.
#[derive(Clone, Copy, Debug, PartialEq, Eq, Structural)]
pub enum Ze08Command {
    /// Switch to question-and-answer mode.
    QaMode,
    /// Ask for one reading in question-and-answer mode.
    Read,
}

/// The bytes of ZE08 command `c`.
pub fn ze08_command(c: Ze08Command) -> (r: [u8; 9])
    ensures
        r@ == match c {
            Ze08Command::QaMode => seq![0xFFu8, 0x01, 0x78, 0x41, 0x00, 0x00, 0x00, 0x00, 0x46],
            Ze08Command::Read => seq![0xFFu8, 0x01, 0x86, 0x00, 0x00, 0x00, 0x00, 0x00, 0x79],
        },
        ze08_checksum(r@) == r@[8],
{
    let r: [u8; 9] = match c {
        Ze08Command::QaMode => [0xFF, 0x01, 0x78, 0x41, 0x00, 0x00, 0x00, 0x00, 0x46],
        Ze08Command::Read => [0xFF, 0x01, 0x86, 0x00, 0x00, 0x00, 0x00, 0x00, 0x79],
    };
    reveal_with_fuel(byte_sum, 8);
    assert(r@ =~= match c {
        Ze08Command::QaMode => seq![0xFFu8, 0x01, 0x78, 0x41, 0x00, 0x00, 0x00, 0x00, 0x46],
        Ze08Command::Read => seq![0xFFu8, 0x01, 0x86, 0x00, 0x00, 0x00, 0x00, 0x00, 0x79],
    });
    r
}

/// Progress of the search for a two-byte frame header in a byte stream:
/// `state` is 0 (nothing matched), 1 (first header byte just seen) or
/// 2 (header complete).
#[derive(Clone, Copy, Debug, PartialEq, Eq, Structural)]
pub struct HeaderSync {
    pub first: u8,
    pub second: u8,
    pub state: u8,
}

/// The state after byte `b`: the first header byte from state 0 leads to 1,
/// the second from state 1 leads to 2, anything else goes back to 0.
pub open spec fn sync_next(first: u8, second: u8, state: u8, b: u8) -> u8 {
    if state == 0 && b == first {
        1
    } else if state == 1 && b == second {
        2
    } else {
        0
    }
}

/// The state after the bytes `bytes`, starting from `state`.
pub open spec fn sync_run(first: u8, second: u8, state: u8, bytes: Seq<u8>) -> u8
    decreases bytes.len(),
{
    if bytes.len() == 0 {
        state
    } else {
        sync_next(first, second, sync_run(first, second, state, bytes.drop_last()), bytes.last())
    }
}

impl HeaderSync {
    /// A search for the PMS7003 header 0x42 0x4D.
    pub fn pms7003() -> (r: HeaderSync)
        ensures
            r == (HeaderSync { first: PMS_HEADER_1, second: PMS_HEADER_2, state: 0 }),
    {
        HeaderSync { first: PMS_HEADER_1, second: PMS_HEADER_2, state: 0 }
    }

    /// A search for the ZE08 answer header 0xFF 0x86.
    pub fn ze08() -> (r: HeaderSync)
        ensures
            r == (HeaderSync { first: ZE08_HEADER_1, second: ZE08_HEADER_2, state: 0 }),
    {
        HeaderSync { first: ZE08_HEADER_1, second: ZE08_HEADER_2, state: 0 }
    }

    /// Takes one received byte; tells whether the header is now complete.
    pub fn feed(&mut self, b: u8) -> (locked: bool)
        ensures
            final(self).first == old(self).first,
            final(self).second == old(self).second,
            final(self).state == sync_next(old(self).first, old(self).second, old(self).state, b),
            locked == (final(self).state == 2),
    {
        self.state = if self.state == 0 && b == self.first {
            1
        } else if self.state == 1 && b == self.second {
            2
        } else {
            0
        };
        self.state == 2
    }
}

/// The header is complete only right after its two bytes were received, in
/// order.
pub proof fn lemma_locked_after_header(first: u8, second: u8, state: u8, bytes: Seq<u8>)
    requires
        sync_run(first, second, state, bytes) == 2,
        state != 2,
    ensures
        bytes.len() >= 1,
        bytes.last() == second,
        bytes.len() >= 2 ==> bytes[bytes.len() - 2] == first,
        bytes.len() == 1 ==> state == 1,
{
    let prev = bytes.drop_last();
    if prev.len() >= 1 {
        assert(sync_run(first, second, state, prev) == 1);
        assert(prev.last() == bytes[bytes.len() - 2]);
    } else {
        assert(sync_run(first, second, state, prev) == state);
    }
}

/// Receiving the two header bytes from the idle state completes the header.
pub proof fn lemma_header_locks(first: u8, second: u8)
    ensures
        sync_run(first, second, 0, seq![first, second]) == 2,
{
    assert(seq![first, second].drop_last() =~= seq![first]);
    assert(seq![first].drop_last() =~= Seq::<u8>::empty());
    reveal_with_fuel(sync_run, 3);
}

} // verus!
