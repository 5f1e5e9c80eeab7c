//! Cartridge GPIO real-time clock (Seiko SIIRTC).
//!
//! The clock is bit-banged through three GPIO halfwords of the cart: SCK, SIO
//! and CS in bits 0-2. The time it tells is the host's, set with `set_clock`.

use crate::bits::aset;
use crate::mem::{find_tag, holds_tag};
use vstd::prelude::*;

verus! {

/// GPIO registers in cart space.
pub const GPIO_DATA: u32 = 0x0800_00C4;

pub const GPIO_DIR: u32 = 0x0800_00C6;

pub const GPIO_CTRL: u32 = 0x0800_00C8;

#[verifier::ext_equal]
#[derive(Clone, Copy, Debug)]
pub struct Rtc {
    pub present: bool,
    /// Host clock, in Unix seconds.
    pub now: u64,
    /// GPIO data latch: bit 0 SCK, bit 1 SIO, bit 2 CS.
    pub data: u16,
    pub dir: u16,
    pub ctrl: u16,
    /// Bits of the current byte already clocked.
    pub bit_count: u8,
    pub cmd: u8,
    /// Seven datetime bytes, or the status byte.
    pub buf: [u8; 8],
    pub buf_len: u8,
    pub buf_idx: u8,
    pub reading: bool,
    /// Last CS level.
    pub cs: bool,
    pub sck: bool,
    /// Command byte complete.
    pub cmd_done: bool,
}

/// The GPIO side of the clock, without the host time.
#[verifier::ext_equal]
#[derive(Clone, Copy, Debug)]
pub struct RtcGpio {
    pub data: u16,
    pub dir: u16,
    pub ctrl: u16,
    pub bit_count: u8,
    pub cmd: u8,
    pub buf: [u8; 8],
    pub buf_len: u8,
    pub buf_idx: u8,
    pub reading: bool,
    pub cs: bool,
    pub sck: bool,
    pub cmd_done: bool,
}

pub open spec fn leap(y: int) -> bool {
    (y % 4 == 0 && y % 100 != 0) || y % 400 == 0
}

pub open spec fn year_len(y: int) -> int {
    if leap(y) {
        366
    } else {
        365
    }
}

/// Length of month `m` (1-12).
pub open spec fn month_len(is_leap: bool, m: int) -> int {
    if m == 2 {
        if is_leap {
            29
        } else {
            28
        }
    } else if m == 4 || m == 6 || m == 9 || m == 11 {
        30
    } else {
        31
    }
}

/// The year that day `days` (0 is 1 January of `y`) falls in, and the day
/// within it.
pub open spec fn year_of(days: int, y: int) -> (int, int)
    decreases days,
{
    if days < year_len(y) {
        (y, days)
    } else {
        year_of(days - year_len(y), y + 1)
    }
}

/// The month that day `days` (0 is the first of month `m`) falls in, and the
/// day within it.
pub open spec fn month_of(is_leap: bool, days: int, m: int) -> (int, int)
    decreases 13 - m,
{
    if m > 12 || days < month_len(is_leap, m) {
        (m, days)
    } else {
        month_of(is_leap, days - month_len(is_leap, m), m + 1)
    }
}

/// A UTC date and time.
pub struct Civil {
    pub year: int,
    pub month: int,
    pub day: int,
    /// 0 is Sunday.
    pub weekday: int,
    pub hour: int,
    pub minute: int,
    pub second: int,
}

/// The civil date and time of a Unix second.
pub open spec fn civil(secs: u64) -> Civil {
    let days = secs as int / 86400;
    let (y, yd) = year_of(days, 1970);
    let (m, md) = month_of(leap(y), yd, 1);
    Civil {
        year: y,
        month: m,
        day: md + 1,
        weekday: (days + 4) % 7,
        hour: secs as int / 3600 % 24,
        minute: secs as int / 60 % 60,
        second: secs as int % 60,
    }
}

/// Days from 1 January `y` to 1 January `z`.
pub open spec fn days_between_years(y: int, z: int) -> int
    decreases z - y,
{
    if z <= y {
        0
    } else {
        year_len(y) + days_between_years(y + 1, z)
    }
}

/// Days from the first of month `a` to the first of month `b` of one year.
pub open spec fn days_between_months(is_leap: bool, a: int, b: int) -> int
    decreases b - a,
{
    if b <= a {
        0
    } else {
        month_len(is_leap, a) + days_between_months(is_leap, a + 1, b)
    }
}

proof fn lemma_year_of(days: int, y: int)
    requires
        days >= 0,
    ensures
        year_of(days, y).0 >= y,
        0 <= year_of(days, y).1 < year_len(year_of(days, y).0),
        days == days_between_years(y, year_of(days, y).0) + year_of(days, y).1,
    decreases days,
{
    if days >= year_len(y) {
        lemma_year_of(days - year_len(y), y + 1);
    }
}

proof fn lemma_month_of(is_leap: bool, days: int, m: int)
    requires
        1 <= m <= 12,
        0 <= days < days_between_months(is_leap, m, 13),
    ensures
        m <= month_of(is_leap, days, m).0 <= 12,
        0 <= month_of(is_leap, days, m).1 < month_len(is_leap, month_of(is_leap, days, m).0),
        days == days_between_months(is_leap, m, month_of(is_leap, days, m).0) + month_of(
            is_leap,
            days,
            m,
        ).1,
    decreases 13 - m,
{
    if days >= month_len(is_leap, m) {
        assert(days_between_months(is_leap, m, 13) == month_len(is_leap, m) + days_between_months(
            is_leap,
            m + 1,
            13,
        ));
        if m == 12 {
            assert(days_between_months(is_leap, 13, 13) == 0);
        } else {
            lemma_month_of(is_leap, days - month_len(is_leap, m), m + 1);
        }
    }
}

proof fn lemma_year_total(is_leap: bool)
    ensures
        days_between_months(is_leap, 1, 13) == if is_leap {
            366int
        } else {
            365int
        },
{
    reveal_with_fuel(days_between_months, 14);
}

/// A civil date names the day it came from: the whole years since 1970, the
/// whole months of the year and the day of the month add up to it, and every
/// field is in its calendar range.
pub proof fn law_civil_names_its_day(secs: u64)
    ensures
        ({
            let c = civil(secs);
            &&& 1970 <= c.year
            &&& 1 <= c.month <= 12
            &&& 1 <= c.day <= month_len(leap(c.year), c.month)
            &&& 0 <= c.weekday < 7
            &&& 0 <= c.hour < 24
            &&& 0 <= c.minute < 60
            &&& 0 <= c.second < 60
            &&& days_between_years(1970, c.year) + days_between_months(leap(c.year), 1, c.month) + (
            c.day - 1) == secs as int / 86400
            &&& secs == (secs as int / 86400) * 86400 + c.hour * 3600 + c.minute * 60 + c.second
        }),
{
    let days = secs as int / 86400;
    lemma_year_of(days, 1970);
    let (y, yd) = year_of(days, 1970);
    lemma_year_total(leap(y));
    lemma_month_of(leap(y), yd, 1);
}

pub fn is_leap(y: u64) -> (r: bool)
    ensures
        r == leap(y as int),
{
    (y % 4 == 0 && y % 100 != 0) || y % 400 == 0
}

fn days_in_month(is_leap: bool, m: u8) -> (r: u64)
    ensures
        r == month_len(is_leap, m as int),
{
    if m == 2 {
        if is_leap {
            29
        } else {
            28
        }
    } else if m == 4 || m == 6 || m == 9 || m == 11 {
        30
    } else {
        31
    }
}

/// Civil date from Unix seconds (UTC): year, month, day, weekday, hour,
/// minute, second.
pub fn unix_to_civil(secs: u64) -> (r: (u32, u8, u8, u8, u8, u8, u8))
    ensures
        ({
            let c = civil(secs);
            r == (
                c.year as u32,
                c.month as u8,
                c.day as u8,
                c.weekday as u8,
                c.hour as u8,
                c.minute as u8,
                c.second as u8,
            )
        }),
{
    let s: u8 = (secs % 60) as u8;
    let mi: u8 = (secs / 60 % 60) as u8;
    let h: u8 = (secs / 3600 % 24) as u8;
    // days since 1970-01-01, a Thursday
    let total: u64 = secs / 86400;
    let wd: u8 = ((total + 4) % 7) as u8;
    let mut days: u64 = total;
    let mut y: u64 = 1970;
    loop
        invariant
            year_of(days as int, y as int) == year_of(total as int, 1970),
            1970 <= y,
            y + days <= 1970 + total,
            total <= 213503982334601,
        ensures
            (y as int, days as int) == year_of(total as int, 1970),
            days < 366,
        decreases days,
    {
        let diy: u64 = if is_leap(y) {
            366
        } else {
            365
        };
        if days < diy {
            break;
        }
        days = days - diy;
        y = y + 1;
    }
    let lp: bool = is_leap(y);
    let ghost yd = days as int;
    proof {
        lemma_year_of(total as int, 1970);
        lemma_year_total(lp);
        lemma_month_of(lp, yd, 1);
    }
    let mut mo: u8 = 1;
    while mo <= 12 && days >= days_in_month(lp, mo)
        invariant
            1 <= mo <= 13,
            days < 366,
            month_of(lp, days as int, mo as int) == month_of(lp, yd, 1),
        decreases 13 - mo,
    {
        days = days - days_in_month(lp, mo);
        mo = mo + 1;
    }
    assert((mo as int, days as int) == month_of(lp, yd, 1));
    let d: u8 = (days + 1) as u8;
    (y as u32, mo, d, wd, h, mi, s)
}

/// Two decimal digits, capped at 99, one per nibble.
pub open spec fn bcd(v: u8) -> u8 {
    let w: u8 = if v < 99 {
        v
    } else {
        99
    };
    ((w / 10) << 4) | (w % 10)
}

pub fn bin_to_bcd(v: u8) -> (r: u8)
    ensures
        r == bcd(v),
{
    let w: u8 = if v < 99 {
        v
    } else {
        99
    };
    ((w / 10) << 4) | (w % 10)
}

/// Decimal digits of `v`, at least `width` of them.
pub open spec fn digits(v: int, width: nat) -> Seq<char>
    decreases v, width,
{
    if v < 0 || (v == 0 && width == 0) {
        Seq::empty()
    } else {
        digits(
            v / 10,
            if width == 0 {
                0
            } else {
                (width - 1) as nat
            },
        ).push((48 + v % 10) as char)
    }
}

fn digit_str(d: u64) -> (r: &'static str)
    requires
        d < 10,
    ensures
        r@ == seq![(48 + d) as char],
{
    proof {
        reveal_strlit("0");
        reveal_strlit("1");
        reveal_strlit("2");
        reveal_strlit("3");
        reveal_strlit("4");
        reveal_strlit("5");
        reveal_strlit("6");
        reveal_strlit("7");
        reveal_strlit("8");
        reveal_strlit("9");
    }
    if d == 0 {
        "0"
    } else if d == 1 {
        "1"
    } else if d == 2 {
        "2"
    } else if d == 3 {
        "3"
    } else if d == 4 {
        "4"
    } else if d == 5 {
        "5"
    } else if d == 6 {
        "6"
    } else if d == 7 {
        "7"
    } else if d == 8 {
        "8"
    } else {
        "9"
    }
}

/// Appends `v` in decimal, zero-padded to `width` digits.
fn push_digits(s: &mut String, v: u64, width: u32)
    ensures
        final(s)@ == old(s)@ + digits(v as int, width as nat),
    decreases v, width,
{
    if v == 0 && width == 0 {
        assert(s@ =~= old(s)@ + digits(0, 0));
        return;
    }
    push_digits(
        s,
        v / 10,
        if width == 0 {
            0
        } else {
            width - 1
        },
    );
    s.append(digit_str(v % 10));
    assert(s@ =~= old(s)@ + digits(v as int, width as nat));
}

/// The clock line of the window title.
pub open spec fn clock_text(present: bool, secs: u64) -> Seq<char> {
    let c = civil(secs);
    let hms = digits(c.hour, 2) + ":"@ + digits(c.minute, 2) + ":"@ + digits(c.second, 2);
    if present {
        "RTC "@ + digits((c.year as u32) as int, 4) + "-"@ + digits(c.month, 2) + "-"@ + digits(
            c.day,
            2,
        ) + " "@ + hms
    } else {
        "clk "@ + hms
    }
}

/// The ROM's SDK tag names a clock.
pub open spec fn has_clock(rom: Seq<u8>) -> bool {
    holds_tag(rom, "SIIRTC_V"@) || holds_tag(rom, "RTC_V"@) || holds_tag(rom, "IRTC_V"@) || holds_tag(
        rom,
        "SIIRTC"@,
    )
}

/// The bit of a byte that stands on SIO.
pub open spec fn shown_bit(n: u8) -> u8 {
    if n < 7 {
        n
    } else {
        7
    }
}

impl Rtc {
    /// An idle clock.
    pub open spec fn fresh(self, present: bool) -> bool {
        &&& self.present == present
        &&& self.now == 0 && self.data == 0 && self.dir == 0 && self.ctrl == 0
        &&& self.bit_count == 0 && self.cmd == 0 && self.buf_len == 0 && self.buf_idx == 0
        &&& forall|i: int| 0 <= i < 8 ==> #[trigger] self.buf[i] == 0
        &&& !self.reading && !self.cs && !self.sck && !self.cmd_done
    }

    /// The bit that the clock drives on SIO; none behind the buffer.
    pub open spec fn out_bit(self) -> bool {
        self.reading && self.buf_idx < self.buf_len && self.buf_idx < 8 && (self.buf[self.buf_idx as int]
            >> shown_bit(self.bit_count)) & 1 != 0
    }

    /// What a GPIO read sees; nothing outside the three registers or without
    /// a clock in the cart.
    pub open spec fn gpio_read(self, addr: u32) -> Option<u16> {
        if !self.present {
            None
        } else if addr & !1u32 == GPIO_DATA {
            let v = if self.dir & 0x2 == 0 {
                if self.out_bit() {
                    self.data | 0x2
                } else {
                    self.data & !0x2u16
                }
            } else {
                self.data
            };
            Some(v | 0x4)
        } else if addr & !1u32 == GPIO_DIR {
            Some(self.dir)
        } else if addr & !1u32 == GPIO_CTRL {
            Some(self.ctrl | 1)
        } else {
            None
        }
    }

    /// Datetime bytes of the host clock, in BCD; the eighth byte stays.
    pub open spec fn datetime(self) -> [u8; 8] {
        let c = civil(self.now);
        [
            bcd((c.year as u32 % 100) as u8),
            bcd(c.month as u8),
            bcd(c.day as u8),
            bcd(c.weekday as u8),
            bcd(c.hour as u8),
            bcd(c.minute as u8),
            bcd(c.second as u8),
            self.buf[7],
        ]
    }

    /// A complete command byte: 60h reads the status byte, 0xh and 2xh accept
    /// seven bytes and ignore them, everything else reads the datetime.
    pub open spec fn began(self, cmd: u8) -> Rtc {
        let s = Rtc { buf_idx: 0, bit_count: 0, ..self };
        if cmd == 0x60 {
            Rtc { reading: true, buf: aset(self.buf, 0, 0x40), buf_len: 1, ..s }
        } else if cmd & 0xF0 == 0x20 || cmd & 0xF0 == 0 {
            Rtc { reading: false, buf: [0u8, 0, 0, 0, 0, 0, 0, 0], buf_len: 7, ..s }
        } else {
            Rtc { reading: true, buf: self.datetime(), buf_len: 7, ..s }
        }
    }

    /// The bit position moved on by one, and the byte after eight.
    pub open spec fn next_bit(self) -> Rtc {
        let n = self.bit_count.wrapping_add(1);
        if n >= 8 {
            Rtc { bit_count: 0, buf_idx: self.buf_idx.wrapping_add(1), ..self }
        } else {
            Rtc { bit_count: n, ..self }
        }
    }

    /// CS edges: rising starts a transaction, falling ends it.
    pub open spec fn selected(self, cs: bool) -> Rtc {
        let s = if cs && !self.cs {
            Rtc {
                bit_count: 0,
                cmd: 0,
                cmd_done: false,
                reading: false,
                buf_idx: 0,
                buf_len: 0,
                ..self
            }
        } else if !cs && self.cs {
            Rtc { bit_count: 0, cmd_done: false, ..self }
        } else {
            self
        };
        Rtc { cs, ..s }
    }

    /// A rising clock edge inside a transaction.
    pub open spec fn clocked(self, sio: bool) -> Rtc {
        if !self.cmd_done {
            // command byte, LSB first
            let cmd = if sio {
                self.cmd | (1u8 << (self.bit_count % 8))
            } else {
                self.cmd
            };
            let n = self.bit_count.wrapping_add(1);
            if n >= 8 {
                Rtc { cmd, bit_count: 0, cmd_done: true, ..self }.began(cmd)
            } else {
                Rtc { cmd, bit_count: n, ..self }
            }
        } else if self.reading {
            self.next_bit()
        } else if self.buf_idx < self.buf_len {
            let i = self.buf_idx as int;
            let buf = if sio && i < 8 {
                aset(self.buf, i, self.buf[i] | (1u8 << (self.bit_count % 8)))
            } else {
                self.buf
            };
            Rtc { buf, ..self }.next_bit()
        } else {
            self
        }
    }

    /// A GPIO write.
    pub open spec fn gpio_write(self, addr: u32, val: u16) -> Rtc {
        if !self.present {
            self
        } else if addr & !1u32 == GPIO_DATA {
            let (cs, sck, sio) = (val & 0x4 != 0, val & 0x1 != 0, val & 0x2 != 0);
            let s = Rtc { data: val, ..self }.selected(cs);
            let t = if cs && sck && !s.sck {
                s.clocked(sio)
            } else {
                s
            };
            Rtc { sck, ..t }
        } else if addr & !1u32 == GPIO_DIR {
            Rtc { dir: val, ..self }
        } else if addr & !1u32 == GPIO_CTRL {
            Rtc { ctrl: val, ..self }
        } else {
            self
        }
    }

    pub open spec fn gpio(self) -> RtcGpio {
        RtcGpio {
            data: self.data,
            dir: self.dir,
            ctrl: self.ctrl,
            bit_count: self.bit_count,
            cmd: self.cmd,
            buf: self.buf,
            buf_len: self.buf_len,
            buf_idx: self.buf_idx,
            reading: self.reading,
            cs: self.cs,
            sck: self.sck,
            cmd_done: self.cmd_done,
        }
    }

    pub open spec fn with_gpio(self, g: RtcGpio) -> Rtc {
        Rtc {
            data: g.data,
            dir: g.dir,
            ctrl: g.ctrl,
            bit_count: g.bit_count,
            cmd: g.cmd,
            buf: g.buf,
            buf_len: g.buf_len,
            buf_idx: g.buf_idx,
            reading: g.reading,
            cs: g.cs,
            sck: g.sck,
            cmd_done: g.cmd_done,
            ..self
        }
    }

    pub fn new(present: bool) -> (r: Self)
        ensures
            r.fresh(present),
    {
        Rtc {
            present,
            now: 0,
            data: 0,
            dir: 0,
            ctrl: 0,
            bit_count: 0,
            cmd: 0,
            buf: [0;8],
            buf_len: 0,
            buf_idx: 0,
            reading: false,
            cs: false,
            sck: false,
            cmd_done: false,
        }
    }

    /// The ROM's SDK tag names a clock.
    pub fn detect(rom: &[u8]) -> (r: bool)
        ensures
            r == has_clock(rom@),
    {
        proof {
            reveal_strlit("SIIRTC_V");
            reveal_strlit("RTC_V");
            reveal_strlit("IRTC_V");
            reveal_strlit("SIIRTC");
        }
        find_tag(rom, "SIIRTC_V") || find_tag(rom, "RTC_V") || find_tag(rom, "IRTC_V") || find_tag(
            rom,
            "SIIRTC",
        )
    }

    /// Sets the host clock that the cartridge tells.
    pub fn set_clock(&mut self, secs: u64)
        ensures
            *final(self) == (Rtc { now: secs, ..*old(self) }),
    {
        self.now = secs;
    }

    pub fn read16(&self, addr: u32) -> (r: Option<u16>)
        ensures
            r == self.gpio_read(addr),
    {
        if !self.present {
            return None;
        }
        let a: u32 = addr & !1;
        if a == GPIO_DATA {
            let mut v: u16 = self.data;
            if self.dir & 0x2 == 0 {
                // SIO as input: present the serial out bit
                if self.serial_out_bit() {
                    v = v | 0x2;
                } else {
                    v = v & !0x2;
                }
            }
            Some(v | 0x4)
        } else if a == GPIO_DIR {
            Some(self.dir)
        } else if a == GPIO_CTRL {
            Some(self.ctrl | 1)
        } else {
            None
        }
    }

    pub fn write16(&mut self, addr: u32, val: u16)
        ensures
            *final(self) == old(self).gpio_write(addr, val),
    {
        if !self.present {
            return;
        }
        let a: u32 = addr & !1;
        if a == GPIO_DATA {
            self.data = val;
            self.on_data_write(val);
        } else if a == GPIO_DIR {
            self.dir = val;
        } else if a == GPIO_CTRL {
            self.ctrl = val;
        }
    }

    fn on_data_write(&mut self, new: u16)
        ensures
            *final(self) == ({
                let (cs, sck, sio) = (new & 0x4 != 0, new & 0x1 != 0, new & 0x2 != 0);
                let s = old(self).selected(cs);
                let t = if cs && sck && !s.sck {
                    s.clocked(sio)
                } else {
                    s
                };
                Rtc { sck, ..t }
            }),
    {
        let cs: bool = new & 0x4 != 0;
        let sck: bool = new & 0x1 != 0;
        let sio: bool = new & 0x2 != 0;
        if cs && !self.cs {
            self.bit_count = 0;
            self.cmd = 0;
            self.cmd_done = false;
            self.reading = false;
            self.buf_idx = 0;
            self.buf_len = 0;
        }
        if !cs && self.cs {
            self.bit_count = 0;
            self.cmd_done = false;
        }
        self.cs = cs;
        if !cs {
            self.sck = sck;
            return;
        }
        if sck && !self.sck {
            if !self.cmd_done {
                if sio {
                    self.cmd = self.cmd | (1u8 << (self.bit_count % 8));
                }
                self.bit_count = self.bit_count.wrapping_add(1);
                if self.bit_count >= 8 {
                    self.bit_count = 0;
                    self.cmd_done = true;
                    self.begin_command(self.cmd);
                }
            } else if !self.reading {
                if self.buf_idx < self.buf_len {
                    let i: usize = self.buf_idx as usize;
                    if sio && i < 8 {
                        self.buf[i] = self.buf[i] | (1u8 << (self.bit_count % 8));
                    }
                    self.advance_bit();
                }
            } else {
                self.advance_bit();
            }
        }
        self.sck = sck;
    }

    fn advance_bit(&mut self)
        ensures
            *final(self) == old(self).next_bit(),
    {
        self.bit_count = self.bit_count.wrapping_add(1);
        if self.bit_count >= 8 {
            self.bit_count = 0;
            self.buf_idx = self.buf_idx.wrapping_add(1);
        }
    }

    fn begin_command(&mut self, cmd: u8)
        ensures
            *final(self) == old(self).began(cmd),
    {
        self.buf_idx = 0;
        self.bit_count = 0;
        if cmd == 0x60 {
            self.reading = true;
            self.buf[0] = 0x40;
            self.buf_len = 1;
        } else if cmd & 0xF0 == 0x20 || cmd & 0xF0 == 0 {
            // write family: accept the bits, the host clock stays in charge
            self.reading = false;
            self.buf = [0;8];
            self.buf_len = 7;
        } else {
            self.reading = true;
            self.fill_datetime_bcd();
            self.buf_len = 7;
        }
    }

    fn serial_out_bit(&self) -> (r: bool)
        ensures
            r == self.out_bit(),
    {
        if !self.reading || self.buf_idx >= self.buf_len || self.buf_idx >= 8 {
            return false;
        }
        let b: u8 = self.buf[self.buf_idx as usize];
        let k: u8 = if self.bit_count < 7 {
            self.bit_count
        } else {
            7
        };
        (b >> k) & 1 != 0
    }

    fn fill_datetime_bcd(&mut self)
        ensures
            *final(self) == (Rtc { buf: old(self).datetime(), ..*old(self) }),
    {
        let (y, mo, d, wd, h, mi, s) = unix_to_civil(self.now);
        self.buf[0] = bin_to_bcd((y % 100) as u8);
        self.buf[1] = bin_to_bcd(mo);
        self.buf[2] = bin_to_bcd(d);
        self.buf[3] = bin_to_bcd(wd);
        self.buf[4] = bin_to_bcd(h);
        self.buf[5] = bin_to_bcd(mi);
        self.buf[6] = bin_to_bcd(s);
        assert(self.buf =~= old(self).datetime());
    }

    pub fn snapshot_gpio(&self) -> (r: RtcGpio)
        ensures
            r == self.gpio(),
    {
        RtcGpio {
            data: self.data,
            dir: self.dir,
            ctrl: self.ctrl,
            bit_count: self.bit_count,
            cmd: self.cmd,
            buf: self.buf,
            buf_len: self.buf_len,
            buf_idx: self.buf_idx,
            reading: self.reading,
            cs: self.cs,
            sck: self.sck,
            cmd_done: self.cmd_done,
        }
    }

    pub fn restore_gpio(&mut self, g: RtcGpio)
        ensures
            *final(self) == old(self).with_gpio(g),
    {
        self.data = g.data;
        self.dir = g.dir;
        self.ctrl = g.ctrl;
        self.bit_count = g.bit_count;
        self.cmd = g.cmd;
        self.buf = g.buf;
        self.buf_len = g.buf_len;
        self.buf_idx = g.buf_idx;
        self.reading = g.reading;
        self.cs = g.cs;
        self.sck = g.sck;
        self.cmd_done = g.cmd_done;
    }

    /// Human-readable clock string for the window title.
    pub fn clock_string(&self) -> (r: String)
        ensures
            r@ == clock_text(self.present, self.now),
    {
        let (y, mo, d, _wd, h, mi, s) = unix_to_civil(self.now);
        proof {
            law_civil_names_its_day(self.now);
        }
        let mut out: String = String::new();
        if self.present {
            out.append("RTC ");
            push_digits(&mut out, y as u64, 4);
            out.append("-");
            push_digits(&mut out, mo as u64, 2);
            out.append("-");
            push_digits(&mut out, d as u64, 2);
            out.append(" ");
        } else {
            out.append("clk ");
        }
        push_digits(&mut out, h as u64, 2);
        out.append(":");
        push_digits(&mut out, mi as u64, 2);
        out.append(":");
        push_digits(&mut out, s as u64, 2);
        assert(out@ =~= clock_text(self.present, self.now));
        out
    }
}

impl Default for Rtc {
    fn default() -> (r: Self)
        ensures
            r.fresh(false),
    {
        Rtc::new(false)
    }
}

/// The GPIO side survives a snapshot and restore, whatever the clock did in
/// between.
pub proof fn law_gpio_snapshot_round_trip(a: Rtc, b: Rtc)
    ensures
        b.with_gpio(a.gpio()).gpio() == a.gpio(),
        a.with_gpio(a.gpio()) == a,
{
}

} // verus!
