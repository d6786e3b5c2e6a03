//! The cartridge: the ROM image, battery-backed external RAM, and the
//! memory-bank-controller state machine that writes into the ROM window
//! drive.  ROM-only, MBC1-family and MBC3-family cartridges are supported.

use vstd::prelude::*;

verus! {

/// The cartridge hardware named by header byte 0x0147.
#[derive(Clone, Copy, PartialEq, Eq, Structural, Debug)]
pub enum CartridgeType {
    RomOnly,
    Mbc1,
    Mbc1Ram,
    Mbc1RamBattery,
    Mbc3TimerBattery,
    Mbc3TimerRamBattery,
    Mbc3,
    Mbc3Ram,
    Mbc3RamBattery,
}

/// Whether the type is in the MBC1 family.
pub open spec fn spec_is_mbc1(t: CartridgeType) -> bool {
    t == CartridgeType::Mbc1 || t == CartridgeType::Mbc1Ram || t == CartridgeType::Mbc1RamBattery
}

/// Whether the type is in the MBC3 family.
pub open spec fn spec_is_mbc3(t: CartridgeType) -> bool {
    t == CartridgeType::Mbc3TimerBattery || t == CartridgeType::Mbc3TimerRamBattery || t
        == CartridgeType::Mbc3 || t == CartridgeType::Mbc3Ram || t == CartridgeType::Mbc3RamBattery
}

/// The decode table for header byte 0x0147.
pub open spec fn spec_cartridge_type_from_byte(byte: u8) -> Option<CartridgeType> {
    match byte {
        0x00 => Some(CartridgeType::RomOnly),
        0x01 => Some(CartridgeType::Mbc1),
        0x02 => Some(CartridgeType::Mbc1Ram),
        0x03 => Some(CartridgeType::Mbc1RamBattery),
        0x0F => Some(CartridgeType::Mbc3TimerBattery),
        0x10 => Some(CartridgeType::Mbc3TimerRamBattery),
        0x11 => Some(CartridgeType::Mbc3),
        0x12 => Some(CartridgeType::Mbc3Ram),
        0x13 => Some(CartridgeType::Mbc3RamBattery),
        _ => None,
    }
}

/// Whether the type carries external RAM.
pub open spec fn spec_has_ram(t: CartridgeType) -> bool {
    t == CartridgeType::Mbc1Ram || t == CartridgeType::Mbc1RamBattery || t
        == CartridgeType::Mbc3TimerRamBattery || t == CartridgeType::Mbc3Ram || t
        == CartridgeType::Mbc3RamBattery
}

/// Whether the type carries the MBC3 real-time clock.
pub open spec fn spec_has_timer(t: CartridgeType) -> bool {
    t == CartridgeType::Mbc3TimerBattery || t == CartridgeType::Mbc3TimerRamBattery
}

impl CartridgeType {
    /// Decodes header byte 0x0147; `None` for an unsupported type.
    pub fn from_byte(byte: u8) -> (r: Option<CartridgeType>)
        ensures
            r == spec_cartridge_type_from_byte(byte),
    {
        match byte {
            0x00 => Some(CartridgeType::RomOnly),
            0x01 => Some(CartridgeType::Mbc1),
            0x02 => Some(CartridgeType::Mbc1Ram),
            0x03 => Some(CartridgeType::Mbc1RamBattery),
            0x0F => Some(CartridgeType::Mbc3TimerBattery),
            0x10 => Some(CartridgeType::Mbc3TimerRamBattery),
            0x11 => Some(CartridgeType::Mbc3),
            0x12 => Some(CartridgeType::Mbc3Ram),
            0x13 => Some(CartridgeType::Mbc3RamBattery),
            _ => None,
        }
    }

    /// Whether this cartridge carries external RAM.
    pub fn has_ram(&self) -> (r: bool)
        ensures
            r == spec_has_ram(*self),
    {
        matches!(
            self,
            CartridgeType::Mbc1Ram | CartridgeType::Mbc1RamBattery
                | CartridgeType::Mbc3TimerRamBattery | CartridgeType::Mbc3Ram
                | CartridgeType::Mbc3RamBattery
        )
    }

    /// Whether this cartridge carries the real-time clock.
    pub fn has_timer(&self) -> (r: bool)
        ensures
            r == spec_has_timer(*self),
    {
        matches!(self, CartridgeType::Mbc3TimerBattery | CartridgeType::Mbc3TimerRamBattery)
    }
}

/// External-RAM size named by header byte 0x0149.
pub open spec fn spec_ram_size(byte: u8) -> nat {
    match byte {
        0x00 => 0nat,
        0x02 => 8192nat,
        0x03 => 32768nat,
        0x04 => 131072nat,
        0x05 => 65536nat,
        _ => 0nat,
    }
}

/// A cartridge: the fixed ROM image, the external RAM, and the bank
/// controller's registers.  `ram_bank` doubles as the MBC1 upper-bank
/// register and as the MBC3 RAM-bank / RTC-register selector.
pub struct Cart {
    pub rom: Vec<u8>,
    pub ram: Vec<u8>,
    pub cartridge_type: CartridgeType,
    pub rom_bank: u8,
    pub ram_bank: u8,
    pub ram_rtc_enable: bool,
    pub mbc1_mode: bool,
    pub rtc_registers: Vec<u8>,
}

impl Cart {
    /// Structural soundness: five RTC bytes and a switchable ROM bank
    /// whose low five (MBC1) or seven (MBC3) bits are never zero.
    pub open spec fn wf(&self) -> bool {
        &&& self.rtc_registers@.len() == 5
        &&& 1 <= self.rom_bank <= 127
    }

    /// The ROM bank mapped at 0x4000-0x7FFF.  MBC1 composes the upper-bank
    /// register into bits 5-6 while in ROM-banking mode; because the low
    /// five bits are never zero, banks 0x00, 0x20, 0x40 and 0x60 are never
    /// selected, which is the documented MBC1 aliasing quirk.
    pub open spec fn spec_effective_rom_bank(&self) -> int {
        if spec_is_mbc1(self.cartridge_type) && !self.mbc1_mode {
            self.ram_bank * 32 + self.rom_bank
        } else {
            self.rom_bank as int
        }
    }

    /// The external-RAM bank addressed through 0xA000-0xBFFF.
    pub open spec fn spec_effective_ram_bank(&self) -> int {
        if spec_is_mbc1(self.cartridge_type) {
            if self.mbc1_mode {
                self.ram_bank as int
            } else {
                0
            }
        } else {
            self.ram_bank as int
        }
    }

    /// What a read of the ROM window returns: bank 0 below 0x4000, the
    /// effective switchable bank above, 0xFF past the image or outside
    /// the window.
    pub open spec fn spec_read(&self, addr: u16) -> u8 {
        if addr < 0x4000 {
            if addr < self.rom@.len() {
                self.rom@[addr as int]
            } else {
                0xFFu8
            }
        } else if addr < 0x8000 {
            let rom_addr = self.spec_effective_rom_bank() * 0x4000 + (addr - 0x4000);
            if rom_addr < self.rom@.len() {
                self.rom@[rom_addr]
            } else {
                0xFFu8
            }
        } else {
            0xFFu8
        }
    }

    /// What a read of 0xA000-0xBFFF returns: 0xFF while access is
    /// disabled, a RAM byte for banks 0-3, an RTC byte for selectors
    /// 0x08-0x0C on a clock cartridge, 0xFF otherwise.
    pub open spec fn spec_read_ram(&self, addr: u16) -> u8 {
        if !self.ram_rtc_enable {
            0xFFu8
        } else if !(0xA000 <= addr < 0xC000) {
            0xFFu8
        } else if self.spec_effective_ram_bank() <= 3 && !(spec_is_mbc3(self.cartridge_type)
            && self.ram_bank > 3) {
            if spec_has_ram(self.cartridge_type) && self.ram@.len() > 0 {
                let ram_addr = self.spec_effective_ram_bank() * 0x2000 + (addr - 0xA000);
                if ram_addr < self.ram@.len() {
                    self.ram@[ram_addr]
                } else {
                    0xFFu8
                }
            } else {
                0xFFu8
            }
        } else if 0x08 <= self.ram_bank <= 0x0C {
            if spec_has_timer(self.cartridge_type) {
                self.rtc_registers@[self.ram_bank - 0x08]
            } else {
                0xFFu8
            }
        } else {
            0xFFu8
        }
    }

    /// The bank-controller state after a write into the ROM window; the
    /// ROM and RAM bytes never change.
    pub open spec fn spec_after_write(&self, addr: u16, value: u8) -> Cart {
        if self.cartridge_type == CartridgeType::RomOnly || addr >= 0x8000 {
            *self
        } else if spec_is_mbc1(self.cartridge_type) {
            if addr < 0x2000 {
                Cart { ram_rtc_enable: value % 16 == 0x0A, ..*self }
            } else if addr < 0x4000 {
                Cart {
                    rom_bank: if value % 32 == 0 {
                        1u8
                    } else {
                        (value % 32) as u8
                    },
                    ..*self
                }
            } else if addr < 0x6000 {
                Cart { ram_bank: (value % 4) as u8, ..*self }
            } else {
                Cart { mbc1_mode: value % 2 == 1, ..*self }
            }
        } else {
            if addr < 0x2000 {
                Cart { ram_rtc_enable: value == 0x0A, ..*self }
            } else if addr < 0x4000 {
                Cart {
                    rom_bank: if value % 128 == 0 {
                        1u8
                    } else {
                        (value % 128) as u8
                    },
                    ..*self
                }
            } else if addr < 0x6000 {
                if value <= 0x03 || 0x08 <= value <= 0x0C {
                    Cart { ram_bank: value, ..*self }
                } else {
                    *self
                }
            } else {
                *self
            }
        }
    }

    /// Builds a cartridge from a raw ROM image, reading the type and the
    /// external-RAM size from the header.  An unsupported or missing type
    /// byte falls back to ROM-only, as a short or headerless image must.
    pub fn new(rom: Vec<u8>) -> (r: Cart)
        ensures
            r.wf(),
            r.rom@ == rom@,
            r.cartridge_type == (if rom@.len() > 0x0147 {
                match spec_cartridge_type_from_byte(rom@[0x0147]) {
                    Some(t) => t,
                    None => CartridgeType::RomOnly,
                }
            } else {
                CartridgeType::RomOnly
            }),
            r.ram@.len() == (if rom@.len() > 0x0149 {
                spec_ram_size(rom@[0x0149])
            } else {
                0nat
            }),
            r.ram@ == Seq::<u8>::new(r.ram@.len(), |i: int| 0u8),
            r.rom_bank == 1,
            r.ram_bank == 0,
            !r.ram_rtc_enable,
            !r.mbc1_mode,
            r.rtc_registers@ == Seq::<u8>::new(5, |i: int| 0u8),
    {
        let cartridge_type = if rom.len() > 0x0147 {
            match CartridgeType::from_byte(rom[0x0147]) {
                Some(t) => t,
                None => CartridgeType::RomOnly,
            }
        } else {
            CartridgeType::RomOnly
        };
        let ram_size: usize = if rom.len() > 0x0149 {
            match rom[0x0149] {
                0x00 => 0,
                0x02 => 8192,
                0x03 => 32768,
                0x04 => 131072,
                0x05 => 65536,
                _ => 0,
            }
        } else {
            0
        };
        let ram: Vec<u8> = vec![0u8; ram_size];
        let rtc: Vec<u8> = vec![0u8; 5];
        proof {
            assert(ram@ =~= Seq::<u8>::new(ram@.len(), |i: int| 0u8));
            assert(rtc@ =~= Seq::<u8>::new(5, |i: int| 0u8));
        }
        Cart {
            rom,
            ram,
            cartridge_type,
            rom_bank: 1,
            ram_bank: 0,
            ram_rtc_enable: false,
            mbc1_mode: false,
            rtc_registers: rtc,
        }
    }

    /// Reads the ROM window 0x0000-0x7FFF through the current banking.
    pub fn read(&self, addr: u16) -> (r: u8)
        requires
            self.wf(),
        ensures
            r == self.spec_read(addr),
    {
        if addr < 0x4000 {
            if (addr as usize) < self.rom.len() {
                self.rom[addr as usize]
            } else {
                0xFF
            }
        } else if addr < 0x8000 {
            let bank: usize = if matches!(
                self.cartridge_type,
                CartridgeType::Mbc1 | CartridgeType::Mbc1Ram | CartridgeType::Mbc1RamBattery
            ) && !self.mbc1_mode {
                self.ram_bank as usize * 32 + self.rom_bank as usize
            } else {
                self.rom_bank as usize
            };
            let rom_addr: usize = bank * 0x4000 + (addr as usize - 0x4000);
            if rom_addr < self.rom.len() {
                self.rom[rom_addr]
            } else {
                0xFF
            }
        } else {
            0xFF
        }
    }

    /// Reads external RAM or the selected RTC register through
    /// 0xA000-0xBFFF.
    pub fn read_ram(&self, addr: u16) -> (r: u8)
        requires
            self.wf(),
        ensures
            r == self.spec_read_ram(addr),
    {
        if !self.ram_rtc_enable {
            return 0xFF;
        }
        if addr < 0xA000 || addr >= 0xC000 {
            return 0xFF;
        }
        let bank: usize = if matches!(
            self.cartridge_type,
            CartridgeType::Mbc1 | CartridgeType::Mbc1Ram | CartridgeType::Mbc1RamBattery
        ) {
            if self.mbc1_mode {
                self.ram_bank as usize
            } else {
                0
            }
        } else {
            self.ram_bank as usize
        };
        let mbc3_rtc_selected = matches!(
            self.cartridge_type,
            CartridgeType::Mbc3TimerBattery | CartridgeType::Mbc3TimerRamBattery
                | CartridgeType::Mbc3 | CartridgeType::Mbc3Ram | CartridgeType::Mbc3RamBattery
        ) && self.ram_bank > 3;
        if bank <= 3 && !mbc3_rtc_selected {
            if self.cartridge_type.has_ram() && self.ram.len() > 0 {
                let ram_addr: usize = bank * 0x2000 + (addr as usize - 0xA000);
                if ram_addr < self.ram.len() {
                    self.ram[ram_addr]
                } else {
                    0xFF
                }
            } else {
                0xFF
            }
        } else if 0x08 <= self.ram_bank && self.ram_bank <= 0x0C {
            if self.cartridge_type.has_timer() {
                self.rtc_registers[(self.ram_bank - 0x08) as usize]
            } else {
                0xFF
            }
        } else {
            0xFF
        }
    }

    /// A write into the ROM window: bank switching and enable latches
    /// only; the ROM bytes themselves never change.
    pub fn write(&mut self, addr: u16, value: u8)
        requires
            old(self).wf(),
        ensures
            final(self).wf(),
            *final(self) == old(self).spec_after_write(addr, value),
    {
        if matches!(self.cartridge_type, CartridgeType::RomOnly) || addr >= 0x8000 {
            return ;
        }
        if matches!(
            self.cartridge_type,
            CartridgeType::Mbc1 | CartridgeType::Mbc1Ram | CartridgeType::Mbc1RamBattery
        ) {
            if addr < 0x2000 {
                self.ram_rtc_enable = value % 16 == 0x0A;
            } else if addr < 0x4000 {
                let low5 = value % 32;
                self.rom_bank = if low5 == 0 {
                    1
                } else {
                    low5
                };
            } else if addr < 0x6000 {
                self.ram_bank = value % 4;
            } else {
                self.mbc1_mode = value % 2 == 1;
            }
        } else {
            if addr < 0x2000 {
                self.ram_rtc_enable = value == 0x0A;
            } else if addr < 0x4000 {
                let low7 = value % 128;
                self.rom_bank = if low7 == 0 {
                    1
                } else {
                    low7
                };
            } else if addr < 0x6000 {
                if value <= 0x03 || (0x08 <= value && value <= 0x0C) {
                    self.ram_bank = value;
                }
            } else {
                // The RTC latch sequence; without wall-clock binding the
                // register file is the latched value already.
            }
        }
    }

    /// Writes external RAM or the selected RTC register through
    /// 0xA000-0xBFFF; discarded while access is disabled or the selector
    /// points nowhere.
    pub fn write_ram(&mut self, addr: u16, value: u8)
        requires
            old(self).wf(),
        ensures
            final(self).wf(),
            spec_write_ram_rel(*old(self), *final(self), addr, value),
    {
        if !self.ram_rtc_enable {
            return ;
        }
        if addr < 0xA000 || addr >= 0xC000 {
            return ;
        }
        let bank: usize = if matches!(
            self.cartridge_type,
            CartridgeType::Mbc1 | CartridgeType::Mbc1Ram | CartridgeType::Mbc1RamBattery
        ) {
            if self.mbc1_mode {
                self.ram_bank as usize
            } else {
                0
            }
        } else {
            self.ram_bank as usize
        };
        let mbc3_rtc_selected = matches!(
            self.cartridge_type,
            CartridgeType::Mbc3TimerBattery | CartridgeType::Mbc3TimerRamBattery
                | CartridgeType::Mbc3 | CartridgeType::Mbc3Ram | CartridgeType::Mbc3RamBattery
        ) && self.ram_bank > 3;
        if bank <= 3 && !mbc3_rtc_selected {
            if self.cartridge_type.has_ram() {
                let ram_addr: usize = bank * 0x2000 + (addr as usize - 0xA000);
                if ram_addr < self.ram.len() {
                    self.ram[ram_addr] = value;
                }
            }
        } else if 0x08 <= self.ram_bank && self.ram_bank <= 0x0C {
            if self.cartridge_type.has_timer() {
                self.rtc_registers[(self.ram_bank - 0x08) as usize] = value;
            }
        }
    }

    /// The NUL-trimmed title bytes from the header, 0x0134 through 0x0142.
    pub fn title_bytes(&self) -> (r: Vec<u8>)
        ensures
            self.rom@.len() >= 0x0143 ==> {
                let full = self.rom@.subrange(0x0134, 0x0143);
                r@ == full.take(spec_title_len(full))
            },
            self.rom@.len() < 0x0143 ==> r@.len() == 0,
    {
        let mut out: Vec<u8> = Vec::new();
        if self.rom.len() < 0x0143 {
            return out;
        }
        let ghost full = self.rom@.subrange(0x0134, 0x0143);
        let mut end: usize = 15;
        while end > 0 && self.rom[0x0134 + end - 1] == 0
            invariant
                end <= 15,
                self.rom@.len() >= 0x0143,
                full == self.rom@.subrange(0x0134, 0x0143),
                forall|j: int| end <= j < 15 ==> full[j] == 0,
            decreases end,
        {
            end = end - 1;
        }
        proof {
            lemma_title_len_bound(full);
            assert(spec_title_len(full) == end) by {
                lemma_title_len_pinpoint(full, end as int);
            }
        }
        let mut i: usize = 0;
        while i < end
            invariant
                i <= end,
                end <= 15,
                self.rom@.len() >= 0x0143,
                full == self.rom@.subrange(0x0134, 0x0143),
                out@ == full.take(i as int),
            decreases end - i,
        {
            let b = self.rom[0x0134 + i];
            out.push(b);
            proof {
                assert(out@ =~= full.take(i + 1));
            }
            i = i + 1;
        }
        proof {
            assert(out@ =~= full.take(spec_title_len(full)));
        }
        out
    }

    /// The display title: the header's title field with trailing NUL
    /// bytes removed, decoded as text.
    pub fn get_title(&self) -> (r: String)
        ensures
            self.rom@.len() >= 0x0143 ==> {
                let title = self.rom@.subrange(0x0134, 0x0143).take(
                    spec_title_len(self.rom@.subrange(0x0134, 0x0143)),
                );
                (forall|i: int| 0 <= i < title.len() ==> title[i] < 0x80) ==> r@ == title.map(
                    |i: int, b: u8| b as char,
                )
            },
    {
        let bytes = self.title_bytes();
        bytes_to_text(&bytes)
    }
}

/// How a write into 0xA000-0xBFFF relates the cartridge before and
/// after: the addressed RAM byte or RTC register changes, nothing else;
/// while access is disabled or the selector points nowhere, nothing
/// changes at all.
pub open spec fn spec_write_ram_rel(pre: Cart, post: Cart, addr: u16, value: u8) -> bool {
    let ram_addr = pre.spec_effective_ram_bank() * 0x2000 + (addr - 0xA000);
    let ram_hit = pre.ram_rtc_enable && 0xA000 <= addr < 0xC000 && pre.spec_effective_ram_bank()
        <= 3 && !(spec_is_mbc3(pre.cartridge_type) && pre.ram_bank > 3) && spec_has_ram(
        pre.cartridge_type,
    ) && 0 <= ram_addr < pre.ram@.len();
    let rtc_hit = pre.ram_rtc_enable && 0xA000 <= addr < 0xC000 && spec_is_mbc3(
        pre.cartridge_type,
    ) && 0x08 <= pre.ram_bank <= 0x0C && spec_has_timer(pre.cartridge_type);
    &&& post.rom@ == pre.rom@
    &&& post.cartridge_type == pre.cartridge_type
    &&& post.rom_bank == pre.rom_bank
    &&& post.ram_bank == pre.ram_bank
    &&& post.ram_rtc_enable == pre.ram_rtc_enable
    &&& post.mbc1_mode == pre.mbc1_mode
    &&& (ram_hit ==> post.ram@ == pre.ram@.update(ram_addr, value) && post.rtc_registers@
        == pre.rtc_registers@)
    &&& (rtc_hit ==> post.rtc_registers@ == pre.rtc_registers@.update(pre.ram_bank - 0x08, value)
        && post.ram@ == pre.ram@)
    &&& (!ram_hit && !rtc_hit ==> post.ram@ == pre.ram@ && post.rtc_registers@
        == pre.rtc_registers@)
}

/// Length of the title once trailing NUL bytes are removed: the least
/// index after which only NUL bytes follow.
pub open spec fn spec_title_len(s: Seq<u8>) -> int
    decreases s.len(),
{
    if s.len() == 0 {
        0
    } else if s[s.len() - 1] == 0 {
        spec_title_len(s.drop_last())
    } else {
        s.len() as int
    }
}

proof fn lemma_title_len_bound(s: Seq<u8>)
    ensures
        0 <= spec_title_len(s) <= s.len(),
    decreases s.len(),
{
    if s.len() > 0 && s[s.len() - 1] == 0 {
        lemma_title_len_bound(s.drop_last());
    }
}

/// The trimmed length is any cut point below which the last byte is
/// nonzero and above which all bytes are zero.
proof fn lemma_title_len_pinpoint(s: Seq<u8>, end: int)
    requires
        0 <= end <= s.len(),
        forall|j: int| end <= j < s.len() ==> s[j] == 0,
        end > 0 ==> s[end - 1] != 0,
    ensures
        spec_title_len(s) == end,
    decreases s.len(),
{
    if s.len() > 0 {
        if s[s.len() - 1] == 0 {
            assert(end < s.len() || (end == s.len() && end > 0 && s[end - 1] != 0));
            assert(end <= s.len() - 1);
            lemma_title_len_pinpoint(s.drop_last(), end);
        }
    }
}

/// Relies on String::from_utf8_lossy from std: bytes that are all ASCII
/// decode to exactly those characters.
#[verifier::external_body]
fn bytes_to_text(bytes: &Vec<u8>) -> (r: String)
    ensures
        (forall|i: int| 0 <= i < bytes@.len() ==> bytes@[i] < 0x80) ==> r@ == bytes@.map(
            |i: int, b: u8| b as char,
        ),
{
    String::from_utf8_lossy(bytes.as_slice()).into_owned()
}

} // verus!
