use vstd::prelude::*;

use crate::cartridge::{
    byte_at, byte_or_open_bus, ram_banks, ram_banks_spec, rom_banks, rom_banks_spec, store_at,
    store_if_present, zeroed, Cartridge,
};
use crate::util::Address;

verus! {

broadcast use vstd::array::group_array_axioms;

/// Seconds since the Unix epoch as `web_time::SystemTime::now()` reads them
/// (`web_time::SystemTime::now().duration_since(UNIX_EPOCH)`, whole seconds).
/// A clock set before the epoch reads as 0 seconds. Nothing is claimed of the
/// value: it comes from the machine's clock.
#[verifier::external_body]
fn unix_time_secs() -> u64 {
    match web_time::SystemTime::now().duration_since(web_time::UNIX_EPOCH) {
        Ok(duration) => duration.as_secs(),
        Err(_) => 0,
    }
}

/// The real-time clock of an MBC3 cartridge.
pub struct RTC {
    /// Seconds, minutes, hours, the low byte of the day counter, and the control byte
    /// (bit 0: day counter bit 8, bit 6: halt, bit 7: day counter overflow).
    pub rtc_ram: [u8; 5],
    pub rtc_ram_latch: [u8; 5],
    /// The Unix time at which the counters read zero, for cartridges that have a clock.
    pub rtc_zero: Option<u64>,
    pub rtc_latch_armed: bool,
}

pub const HALT_BIT: u8 = 0x40;

pub const DAY_COUNTER_OVERFLOW_BIT: u8 = 0x80;

/// The number of seconds that the counters in `regs` stand for.
pub open spec fn counted_seconds(regs: [u8; 5]) -> int {
    regs[0] as int + regs[1] as int * 60 + regs[2] as int * 3600 + (((regs[4] % 2) as int)
        * 256 + regs[3] as int) * 86400
}

/// The Unix time at which counters that show `regs` at time `now` read zero
/// (computed with wrapping 64-bit arithmetic).
pub open spec fn origin_at(now: u64, regs: [u8; 5]) -> u64 {
    ((now as int - counted_seconds(regs)) % 0x1_0000_0000_0000_0000) as u64
}

/// The counters that `elapsed` seconds give, with the previous control byte `control`.
pub open spec fn counters_for(elapsed: u64, control: u8) -> [u8; 5] {
    let days = elapsed / 86400;
    let low: u8 = (control & 0xFE) | (((days / 256) % 2) as u8);
    [
        (elapsed % 60) as u8,
        ((elapsed / 60) % 60) as u8,
        ((elapsed / 3600) % 24) as u8,
        (days % 256) as u8,
        if days >= 512 {
            low | DAY_COUNTER_OVERFLOW_BIT
        } else {
            low
        },
    ]
}

impl RTC {
    pub open spec fn halted_spec(&self) -> bool {
        self.rtc_ram[4] & HALT_BIT != 0
    }

    /// The clock after it was brought up to date at time `now`.
    pub open spec fn updated_at(self, now: u64) -> RTC {
        match self.rtc_zero {
            None => self,
            Some(zero) => if self.halted_spec() || origin_at(now, self.rtc_ram) == zero {
                self
            } else {
                let elapsed: u64 = if now >= zero {
                    (now - zero) as u64
                } else {
                    0
                };
                let regs = counters_for(elapsed, self.rtc_ram[4]);
                RTC {
                    rtc_ram: regs,
                    rtc_zero: if elapsed / 86400 >= 512 {
                        Some(origin_at(now, regs))
                    } else {
                        self.rtc_zero
                    },
                    ..self
                }
            },
        }
    }

    /// The clock after `value` was written to the latch register at time `now`.
    pub open spec fn latched_at(self, now: u64, value: u8) -> RTC {
        if value & 1 == 0 {
            RTC { rtc_latch_armed: true, ..self }
        } else if self.rtc_latch_armed {
            let u = self.updated_at(now);
            RTC { rtc_ram_latch: u.rtc_ram, rtc_latch_armed: false, ..u }
        } else {
            self
        }
    }

    /// The mask that a write to clock register `bank` keeps.
    pub open spec fn register_mask(bank: u8) -> u8 {
        if bank == 8 || bank == 9 {
            0x3F
        } else if bank == 10 {
            0x1F
        } else if bank == 12 {
            0xC1
        } else {
            0xFF
        }
    }

    /// The clock after `value` was written to clock register `bank` at time `now`.
    pub open spec fn written_at(self, now: u64, bank: u8, value: u8) -> RTC {
        let u = self.updated_at(now);
        let regs = vstd::array::spec_array_update(u.rtc_ram, (bank - 8) as int, value & Self::register_mask(bank));
        RTC {
            rtc_ram: regs,
            rtc_zero: match u.rtc_zero {
                Some(_) => Some(origin_at(now, regs)),
                None => None,
            },
            ..u
        }
    }

    fn new(data: &[u8]) -> (r: Self)
        requires
            data@.len() > 0x147,
        ensures
            r.rtc_ram@ == seq![0u8, 0, 0, 0, 0],
            r.rtc_ram_latch@ == seq![0u8, 0, 0, 0, 0],
            r.rtc_zero == if data@[0x147] == 0x0F || data@[0x147] == 0x10 {
                Some(0u64)
            } else {
                None
            },
            !r.rtc_latch_armed,
    {
        let rtc = if data[0x147] == 0x0F || data[0x147] == 0x10 {
            Some(0)
        } else {
            None
        };
        let r = Self {
            rtc_ram: [0u8; 5],
            rtc_ram_latch: [0u8; 5],
            rtc_zero: rtc,
            rtc_latch_armed: false,
        };
        assert(r.rtc_ram@ =~= seq![0u8, 0, 0, 0, 0]);
        r
    }

    fn halted(&self) -> (r: bool)
        ensures
            r == self.halted_spec(),
    {
        self.rtc_ram[4] & HALT_BIT != 0
    }

    /// The Unix time at which the counters would have read zero, seen at time `now`.
    fn origin(&self, now: u64) -> (r: u64)
        ensures
            r == origin_at(now, self.rtc_ram),
    {
        let days: u64 = ((self.rtc_ram[4] as u64 % 2) * 256) + (self.rtc_ram[3] as u64);
        let counted: u64 = self.rtc_ram[0] as u64 + (self.rtc_ram[1] as u64) * 60 + (
        self.rtc_ram[2] as u64) * 3600 + days * 86400;
        now.wrapping_sub(counted)
    }

    fn calc_rtc_reg(&mut self, now: u64)
        ensures
            *final(self) == old(self).updated_at(now),
    {
        if self.halted() {
            return;
        }
        let zero = match self.rtc_zero {
            Some(t) => t,
            None => return,
        };
        if self.origin(now) == zero {
            return;
        }
        let elapsed: u64 = if now >= zero {
            now - zero
        } else {
            0
        };
        let days: u64 = elapsed / 86400;
        let control: u8 = self.rtc_ram[4];
        let low: u8 = (control & 0xFE) | (((days / 256) % 2) as u8);
        let regs: [u8; 5] = [
            (elapsed % 60) as u8,
            ((elapsed / 60) % 60) as u8,
            ((elapsed / 3600) % 24) as u8,
            (days % 256) as u8,
            if days >= 512 {
                low | DAY_COUNTER_OVERFLOW_BIT
            } else {
                low
            },
        ];
        self.rtc_ram = regs;
        if days >= 512 {
            self.rtc_zero = Some(self.origin(now));
        }
    }

    fn latch(&mut self, now: u64, value: u8)
        ensures
            *final(self) == old(self).latched_at(now, value),
    {
        if value & 1 == 0 {
            self.rtc_latch_armed = true;
        } else if self.rtc_latch_armed {
            self.calc_rtc_reg(now);
            self.rtc_ram_latch = self.rtc_ram;
            self.rtc_latch_armed = false;
        }
    }

    fn read(&self, bank: u8) -> (r: u8)
        requires
            0x08 <= bank <= 0x0C,
        ensures
            r == self.rtc_ram[bank - 8],
    {
        self.rtc_ram[(bank - 8) as usize]
    }

    fn write(&mut self, now: u64, bank: u8, value: u8)
        requires
            0x08 <= bank <= 0x0C,
        ensures
            *final(self) == old(self).written_at(now, bank, value),
    {
        self.calc_rtc_reg(now);
        let mask: u8 = if bank == 8 || bank == 9 {
            0x3F
        } else if bank == 10 {
            0x1F
        } else if bank == 12 {
            0xC1
        } else {
            0xFF
        };
        let ghost updated = self.rtc_ram;
        self.rtc_ram[(bank - 8) as usize] = value & mask;
        assert(self.rtc_ram =~= vstd::array::spec_array_update(
            updated,
            (bank - 8) as int,
            value & RTC::register_mask(bank),
        ));
        if self.rtc_zero.is_some() {
            self.rtc_zero = Some(self.origin(now));
        }
    }
}

/// The MBC3 memory bank controller: up to 2 MiB of ROM, 32 KiB of RAM and a real-time clock.
pub struct MBC3 {
    pub rom: Vec<u8>,
    pub ram: Vec<u8>,
    pub ram_enabled: bool,
    pub rom_bank: u8,
    pub rom_banks: u8,
    pub ram_bank: u8,
    pub rtc: RTC,
}

/// The ROM bank register after `value` was written to `0x2000..=0x3FFF`: at least 1,
/// reduced modulo the bank count where the header announces one that fits a byte.
pub open spec fn mbc3_rom_bank(value: u8, rom_banks: u8) -> u8 {
    let selected: u8 = if value & 0x7F == 0 { 1 } else { value & 0x7F };
    if rom_banks == 0 {
        selected
    } else {
        (selected % rom_banks) as u8
    }
}

impl MBC3 {
    pub open spec fn ram_index(&self, address: u16) -> int {
        self.ram_bank as int * 0x2000 + (address as int % 0x2000)
    }

    /// The state right after the cartridge was built from `data`.
    pub open spec fn is_initial(&self, data: Seq<u8>) -> bool {
        let code = data[0x147];
        let ram_banks: u8 = if code == 0x10 || code == 0x12 || code == 0x13 {
            ram_banks_spec(data[0x149])
        } else {
            0
        };
        &&& self.rom@ == data
        &&& self.ram@ == Seq::new(ram_banks as nat * 0x2000, |i: int| 0u8)
        &&& !self.ram_enabled
        &&& self.rom_bank == 1
        &&& self.ram_bank == 0
        &&& self.rom_banks == rom_banks_spec(data[0x148]) as u8
        &&& self.rtc.rtc_ram@ == seq![0u8, 0, 0, 0, 0]
        &&& self.rtc.rtc_ram_latch@ == seq![0u8, 0, 0, 0, 0]
        &&& self.rtc.rtc_zero == if code == 0x0F || code == 0x10 {
            Some(0u64)
        } else {
            None
        }
        &&& !self.rtc.rtc_latch_armed
    }

    pub fn new(data: &[u8]) -> (r: Self)
        requires
            data@.len() >= 0x150,
        ensures
            r.is_initial(data@),
    {
        let code = data[0x147];
        let ram_banks: u8 = if code == 0x10 || code == 0x12 || code == 0x13 {
            ram_banks(data)
        } else {
            0
        };
        Self {
            rom: vstd::slice::slice_to_vec(data),
            ram: zeroed(ram_banks as usize * 0x2000),
            ram_bank: 0,
            ram_enabled: false,
            rom_bank: 1,
            rtc: RTC::new(data),
            rom_banks: rom_banks(data) as u8,
        }
    }

    /// The state that a write of `value` to `address` at Unix time `now` leaves.
    pub open spec fn written_at(pre: Self, post: Self, now: u64, address: u16, value: u8) -> bool {
        &&& post.rom@ == pre.rom@
        &&& post.rom_banks == pre.rom_banks
        &&& post.ram_enabled == if address <= 0x1FFF {
            value & 0xF == 0x0A
        } else {
            pre.ram_enabled
        }
        &&& post.rom_bank == if 0x2000 <= address <= 0x3FFF {
            mbc3_rom_bank(value, pre.rom_banks)
        } else {
            pre.rom_bank
        }
        &&& post.ram_bank == if 0x4000 <= address <= 0x5FFF && value <= 0x0C {
            value
        } else {
            pre.ram_bank
        }
        &&& post.rtc == if 0x6000 <= address <= 0x7FFF {
            pre.rtc.latched_at(now, value)
        } else if 0xA000 <= address <= 0xBFFF && pre.ram_enabled && 0x08 <= pre.ram_bank
            <= 0x0C {
            pre.rtc.written_at(now, pre.ram_bank, value)
        } else {
            pre.rtc
        }
        &&& post.ram@ == if 0xA000 <= address <= 0xBFFF && pre.ram_enabled && pre.ram_bank
            <= 0x07 {
            store_if_present(pre.ram@, pre.ram_index(address), value)
        } else {
            pre.ram@
        }
    }

    /// Writes `value` to `address` with the clock reading `now` seconds since the Unix epoch.
    pub fn write_at(&mut self, now: u64, address: Address, value: u8)
        requires
            crate::cartridge::is_cartridge_address(address.0),
        ensures
            MBC3::written_at(*old(self), *final(self), now, address.0, value),
    {
        let a = address.value();
        if a <= 0x1FFF {
            self.ram_enabled = value & 0xF == 0x0A;
        } else if a <= 0x3FFF {
            let selected: u8 = if value & 0x7F == 0 {
                1
            } else {
                value & 0x7F
            };
            self.rom_bank = if self.rom_banks == 0 {
                selected
            } else {
                selected % self.rom_banks
            };
        } else if a <= 0x5FFF {
            if value <= 0x0C {
                self.ram_bank = value;
            }
        } else if a <= 0x7FFF {
            self.rtc.latch(now, value);
        } else if self.ram_enabled {
            if self.ram_bank <= 0x07 {
                let index = self.ram_bank as usize * 0x2000 + (address.index() % 0x2000);
                store_at(&mut self.ram, index, value);
            } else if self.ram_bank <= 0x0C {
                self.rtc.write(now, self.ram_bank, value);
            }
        }
    }
}

impl Cartridge for MBC3 {
    open spec fn read_spec(&self, address: u16) -> u8 {
        if address <= 0x3FFF {
            byte_or_open_bus(self.rom@, address as int)
        } else if address <= 0x7FFF {
            byte_or_open_bus(self.rom@, self.rom_bank as int * 0x4000 + (address as int % 0x4000))
        } else if 0xA000 <= address <= 0xBFFF {
            if !self.ram_enabled {
                0xFF
            } else if self.ram_bank <= 0x07 {
                byte_or_open_bus(self.ram@, self.ram_index(address))
            } else if self.ram_bank <= 0x0C {
                self.rtc.rtc_ram[self.ram_bank - 8]
            } else {
                0xFF
            }
        } else {
            0xFF
        }
    }

    /// The clock is read from the machine, so a write stands for every time it may have read.
    open spec fn write_spec(pre: Self, post: Self, address: u16, value: u8) -> bool {
        exists|now: u64| MBC3::written_at(pre, post, now, address, value)
    }

    open spec fn rom_spec(&self) -> Seq<u8> {
        self.rom@
    }

    open spec fn ram_spec(&self) -> Seq<u8> {
        self.ram@
    }

    fn read(&self, address: Address) -> (r: u8) {
        let a = address.value();
        if a <= 0x3FFF {
            byte_at(&self.rom, address.index())
        } else if a <= 0x7FFF {
            byte_at(&self.rom, self.rom_bank as usize * 0x4000 + (address.index() % 0x4000))
        } else if !self.ram_enabled {
            0xFF
        } else if self.ram_bank <= 0x07 {
            byte_at(&self.ram, self.ram_bank as usize * 0x2000 + (address.index() % 0x2000))
        } else if self.ram_bank <= 0x0C {
            self.rtc.read(self.ram_bank)
        } else {
            0xFF
        }
    }

    fn write(&mut self, address: Address, value: u8) {
        let now = unix_time_secs();
        self.write_at(now, address, value);
    }

    fn rom(&self) -> (r: &[u8]) {
        self.rom.as_slice()
    }

    fn ram(&self) -> (r: &[u8]) {
        self.ram.as_slice()
    }

    fn load_ram(&mut self, ram: &[u8]) -> (r: bool) {
        if ram.len() == self.ram.len() {
            self.ram = vstd::slice::slice_to_vec(ram);
            true
        } else {
            false
        }
    }
}

} // verus!
