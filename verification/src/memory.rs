//! The memory map: the address decoder that routes reads and writes to the
//! bootstrap ROM overlay, the cartridge, video RAM, work RAM and its echo,
//! OAM, the I/O registers, high RAM and the interrupt registers, and that
//! performs the OAM DMA block copy.

use vstd::prelude::*;

use crate::cart::Cart;
use crate::joypad::{spec_joypad_byte, Joypad, JoypadButtons};
use crate::ppu::{Ppu, PpuMode};
use crate::timer::Timer;

verus! {

/// The memory map.  `contents` backs the regions the core owns directly
/// (bootstrap overlay, work RAM, high RAM, IF, IE and the unmapped I/O
/// bytes); the PPU, timer, joypad and cartridge own their own bytes.
pub struct MemoryMap {
    pub contents: Vec<u8>,
    pub ppu: Ppu,
    pub timer: Timer,
    pub joypad: Joypad,
    pub cart: Option<Cart>,
    pub bootstrap_enabled: bool,
}

/// How one write through the decoder relates the machine before and
/// after, region by region; the OAM DMA copy is stated in full.
#[verifier::opaque]
pub open spec fn spec_write_rel(pre: MemoryMap, post: MemoryMap, addr: u16, val: u8) -> bool {
    &&& addr < 0x8000 && pre.cart is Some ==> post.contents == pre.contents && post.ppu == pre.ppu && post.timer == pre.timer && post.joypad == pre.joypad && post.bootstrap_enabled == pre.bootstrap_enabled && (match (pre.cart, post.cart) {
                (Some(c0), Some(c1)) => c1 == c0.spec_after_write(addr, val),
                _ => false,
            })
    &&& addr < 0x8000 && pre.cart is None ==> post == (MemoryMap {
                contents: post.contents,
                ..pre
            }) && post.contents@ == pre.contents@.update(addr as int, val)
    &&& 0x8000 <= addr < 0xA000 ==> post == (MemoryMap {
                ppu: post.ppu,
                ..pre
            }) && post.ppu.vram@ == pre.ppu.vram@.update(addr - 0x8000, val) && post.ppu == (Ppu { vram: post.ppu.vram, ..pre.ppu })
    &&& 0xA000 <= addr < 0xC000 ==> post.contents == pre.contents && post.ppu == pre.ppu && post.timer == pre.timer && post.joypad == pre.joypad && post.bootstrap_enabled == pre.bootstrap_enabled && (match (pre.cart, post.cart) {
                (Some(c0), Some(c1)) => crate::cart::spec_write_ram_rel(c0, c1, addr, val),
                (None, None) => true,
                _ => false,
            })
    &&& 0xC000 <= addr < 0xE000 ==> post == (MemoryMap {
                contents: post.contents,
                ..pre
            }) && post.contents@ == pre.contents@.update(addr as int, val)
    &&& 0xE000 <= addr < 0xFE00 ==> post == (MemoryMap {
                contents: post.contents,
                ..pre
            }) && post.contents@ == pre.contents@.update(addr - 0x2000, val)
    &&& 0xFE00 <= addr < 0xFEA0 ==> post == (MemoryMap {
                ppu: post.ppu,
                ..pre
            }) && post.ppu.oam@ == pre.ppu.oam@.update(addr - 0xFE00, val) && post.ppu == (Ppu { oam: post.ppu.oam, ..pre.ppu })
    &&& 0xFEA0 <= addr < 0xFF00 ==> post == pre
    &&& addr == 0xFF00 ==> post == (MemoryMap {
                joypad: Joypad {
                    buttons: pre.joypad.buttons,
                    button_selected: val & 0x20 == 0,
                    direction_selected: val & 0x10 == 0,
                },
                ..pre
            })
    &&& 0xFF04 <= addr <= 0xFF07 ==> post == (MemoryMap {
                timer: post.timer,
                ..pre
            }) && post.timer == (Timer {
                div_counter: if addr == 0xFF04 {
                    0u16
                } else {
                    pre.timer.div_counter
                },
                tima: if addr == 0xFF05 {
                    val
                } else {
                    pre.timer.tima
                },
                tma: if addr == 0xFF06 {
                    val
                } else {
                    pre.timer.tma
                },
                tac: if addr == 0xFF07 {
                    (val & 0x07) as u8
                } else {
                    pre.timer.tac
                },
                timer_cycles: pre.timer.timer_cycles,
            })
    &&& addr == 0xFF0F ==> post == (MemoryMap {
                contents: post.contents,
                ..pre
            }) && post.contents@ == pre.contents@.update(
                addr as int,
                (val | 0xE0) as u8,
            )
    &&& addr == 0xFF46 ==> (post == (MemoryMap {
                contents: post.contents,
                ppu: post.ppu,
                ..pre
            }) && post.ppu == (Ppu { oam: post.ppu.oam, ..pre.ppu }) && post.contents@ == pre.contents@.update(addr as int, val) && (val <= 0xDF ==> post.ppu.oam@ == Seq::new(160, |i: int| pre.spec_read((val * 256 + i) as u16))) && (val > 0xDF ==> post.ppu.oam@ == pre.ppu.oam@))
    &&& addr == 0xFF50 ==> post == (MemoryMap {
                bootstrap_enabled: pre.bootstrap_enabled && val == 0,
                ..pre
            })
    &&& (0xFF40 <= addr <= 0xFF4B && addr != 0xFF46) ==> post == (
            MemoryMap { ppu: post.ppu, ..pre }) && crate::ppu::spec_ppu_write_rel(
            pre.ppu,
            post.ppu,
            addr,
            val,
        )
    &&& (addr == 0xFF01 || addr == 0xFF02 || addr == 0xFF03 || (0xFF08 <= addr < 0xFF0F) || (
            0xFF10 <= addr < 0xFF40) || (0xFF4C <= addr < 0xFF50 || 0xFF51 <= addr < 0xFF80) || (
            0xFF80 <= addr <= 0xFFFF && addr != 0xFFFF) || addr == 0xFFFF) ==> post == (
            MemoryMap { contents: post.contents, ..pre }) && post.contents@
                == pre.contents@.update(addr as int, val)
}

impl MemoryMap {
    /// Structural soundness: a full 64 KiB backing array and sound
    /// subsystems.
    pub open spec fn wf(&self) -> bool {
        &&& self.contents@.len() == 0x10000
        &&& self.ppu.wf()
        &&& match self.cart {
            Some(c) => c.wf(),
            None => true,
        }
    }

    /// What a read returns, as a function of the whole machine state;
    /// every region of the address map in one place.  Writes to echo RAM
    /// land in work RAM, so echo reads go to 0xC000-0xDDFF; the unusable
    /// region reads 0xFF; IF reads with its top three bits set.
    pub open spec fn spec_read(&self, addr: u16) -> u8 {
        if addr < 0x0100 && self.bootstrap_enabled {
            self.contents@[addr as int]
        } else if addr < 0x8000 {
            match self.cart {
                Some(c) => c.spec_read(addr),
                None => self.contents@[addr as int],
            }
        } else if 0x8000 <= addr < 0xA000 {
            self.ppu.vram@[addr - 0x8000]
        } else if 0xA000 <= addr < 0xC000 {
            match self.cart {
                Some(c) => c.spec_read_ram(addr),
                None => 0xFFu8,
            }
        } else if 0xE000 <= addr < 0xFE00 {
            self.contents@[addr - 0x2000]
        } else if 0xFE00 <= addr < 0xFEA0 {
            self.ppu.oam@[addr - 0xFE00]
        } else if 0xFEA0 <= addr < 0xFF00 {
            0xFFu8
        } else if addr == 0xFF00 {
            spec_joypad_byte(self.joypad)
        } else if 0xFF04 <= addr <= 0xFF07 {
            if addr == 0xFF04 {
                (self.timer.div_counter / 256) as u8
            } else if addr == 0xFF05 {
                self.timer.tima
            } else if addr == 0xFF06 {
                self.timer.tma
            } else {
                self.timer.tac | 0xF8
            }
        } else if addr == 0xFF0F {
            self.contents@[addr as int] | 0xE0
        } else if 0xFF40 <= addr <= 0xFF4B && addr != 0xFF46 {
            crate::ppu::spec_ppu_register(self.ppu, addr)
        } else {
            self.contents@[addr as int]
        }
    }

    /// A cold-boot memory map: cleared memory, bootstrap overlay active,
    /// no cartridge attached.
    pub fn new() -> (r: MemoryMap)
        ensures
            r.wf(),
            r.contents@ == Seq::<u8>::new(0x10000, |i: int| 0u8),
            r.ppu.ly == 0 && r.ppu.cycles == 0 && r.ppu.mode == PpuMode::OamScan,
            r.ppu.lcdc == crate::ppu::spec_lcdc_from_byte(0x91),
            !r.ppu.vblank_interrupt && !r.ppu.stat_interrupt,
            r.cart is None,
            r.bootstrap_enabled,
            r.timer.div_counter == 0 && r.timer.tima == 0 && r.timer.tma == 0 && r.timer.tac == 0
                && r.timer.timer_cycles == 0,
            !r.joypad.direction_selected && !r.joypad.button_selected,
            !r.joypad.buttons.a && !r.joypad.buttons.b && !r.joypad.buttons.start
                && !r.joypad.buttons.select && !r.joypad.buttons.up && !r.joypad.buttons.down
                && !r.joypad.buttons.left && !r.joypad.buttons.right,
    {
        let contents: Vec<u8> = vec![0u8; 0x10000];
        proof {
            assert(contents@ =~= Seq::<u8>::new(0x10000, |i: int| 0u8));
        }
        MemoryMap {
            contents,
            ppu: Ppu::new(),
            timer: Timer::new(),
            joypad: Joypad::new(),
            cart: None,
            bootstrap_enabled: true,
        }
    }

    /// The memory map as the bootstrap ROM leaves it: overlay disabled,
    /// sound and interrupt registers at their documented post-boot values.
    pub fn new_post_boot() -> (r: MemoryMap)
        ensures
            r.wf(),
            !r.bootstrap_enabled,
            r.cart is None,
            r.spec_read(0xFF0F) == 0xE0,
            r.spec_read(0xFFFF) == 0x00,
            r.ppu.mode == PpuMode::HBlank,
            r.timer.div_counter == 0xABCC,
    {
        let mut mmap = MemoryMap {
            contents: vec![0u8; 0x10000],
            ppu: Ppu::new_post_boot(),
            timer: Timer::new_post_boot(),
            joypad: Joypad::new(),
            cart: None,
            bootstrap_enabled: false,
        };
        mmap.init_post_boot_registers();
        proof {
            assert(0xE0u8 | 0xE0u8 == 0xE0u8) by (bit_vector);
        }
        mmap
    }

    /// Sets the I/O registers to their documented post-boot values: the
    /// sound registers, no pending interrupts, all interrupts disabled,
    /// and the bootstrap-disable latch already written.
    fn init_post_boot_registers(&mut self)
        requires
            old(self).wf(),
        ensures
            final(self).wf(),
            final(self).contents@.len() == old(self).contents@.len(),
            final(self).ppu == old(self).ppu,
            final(self).timer == old(self).timer,
            final(self).joypad == old(self).joypad,
            final(self).cart == old(self).cart,
            final(self).bootstrap_enabled == old(self).bootstrap_enabled,
            final(self).contents@[0xFF0F] == 0xE0,
            final(self).contents@[0xFFFF] == 0x00,
            final(self).contents@[0xFF50] == 0x01,
    {
        self.contents[0xFF10] = 0x80;
        self.contents[0xFF11] = 0xBF;
        self.contents[0xFF12] = 0xF3;
        self.contents[0xFF14] = 0xBF;
        self.contents[0xFF16] = 0x3F;
        self.contents[0xFF17] = 0x00;
        self.contents[0xFF19] = 0xBF;
        self.contents[0xFF1A] = 0x7F;
        self.contents[0xFF1B] = 0xFF;
        self.contents[0xFF1C] = 0x9F;
        self.contents[0xFF1E] = 0xBF;
        self.contents[0xFF20] = 0xFF;
        self.contents[0xFF21] = 0x00;
        self.contents[0xFF22] = 0x00;
        self.contents[0xFF23] = 0xBF;
        self.contents[0xFF24] = 0x77;
        self.contents[0xFF25] = 0xF3;
        self.contents[0xFF26] = 0xF1;
        self.contents[0xFF0F] = 0xE0;
        self.contents[0xFFFF] = 0x00;
        self.contents[0xFF50] = 0x01;
    }

    /// Turns the bootstrap overlay off, exposing the cartridge at
    /// 0x0000-0x00FF.
    pub fn disable_bootstrap(&mut self)
        ensures
            *final(self) == (MemoryMap { bootstrap_enabled: false, ..*old(self) }),
    {
        self.bootstrap_enabled = false;
    }

    /// Attaches a cartridge built from a raw ROM image; it then owns the
    /// ROM window and external RAM for the session.
    pub fn load_cartridge(&mut self, rom: Vec<u8>)
        requires
            old(self).wf(),
        ensures
            final(self).wf(),
            final(self).contents == old(self).contents,
            final(self).ppu == old(self).ppu,
            final(self).timer == old(self).timer,
            final(self).joypad == old(self).joypad,
            final(self).bootstrap_enabled == old(self).bootstrap_enabled,
            final(self).cart is Some,
            final(self).cart->Some_0.rom@ == rom@,
            final(self).cart->Some_0.rom_bank == 1,
            final(self).cart->Some_0.ram_bank == 0,
            !final(self).cart->Some_0.ram_rtc_enable,
            !final(self).cart->Some_0.mbc1_mode,
            final(self).cart->Some_0.cartridge_type == (if rom@.len() > 0x0147 {
                match crate::cart::spec_cartridge_type_from_byte(rom@[0x0147]) {
                    Some(t) => t,
                    None => crate::cart::CartridgeType::RomOnly,
                }
            } else {
                crate::cart::CartridgeType::RomOnly
            }),
            final(self).cart->Some_0.ram@.len() == (if rom@.len() > 0x0149 {
                crate::cart::spec_ram_size(rom@[0x0149])
            } else {
                0nat
            }),
    {
        let cart = Cart::new(rom);
        self.cart = Some(cart);
    }

    /// Copies the bootstrap ROM bytes into the overlay region; the image
    /// must be exactly 256 bytes.
    pub fn load_bootstrap(&mut self, boot: &Vec<u8>)
        requires
            old(self).wf(),
            boot@.len() == 256,
        ensures
            final(self).wf(),
            final(self).ppu == old(self).ppu,
            final(self).timer == old(self).timer,
            final(self).joypad == old(self).joypad,
            final(self).cart == old(self).cart,
            final(self).bootstrap_enabled == old(self).bootstrap_enabled,
            final(self).contents@ == Seq::new(
                old(self).contents@.len(),
                |i: int|
                    if 0 <= i < 256 {
                        boot@[i]
                    } else {
                        old(self).contents@[i]
                    },
            ),
    {
        let mut i: usize = 0;
        while i < 256
            invariant
                i <= 256,
                old(self).wf(),
                boot@.len() == 256,
                self.wf(),
                self.ppu == old(self).ppu,
                self.timer == old(self).timer,
                self.joypad == old(self).joypad,
                self.cart == old(self).cart,
                self.bootstrap_enabled == old(self).bootstrap_enabled,
                self.contents@.len() == old(self).contents@.len(),
                forall|j: int| 0 <= j < i ==> self.contents@[j] == boot@[j],
                forall|j: int|
                    i <= j < self.contents@.len() ==> self.contents@[j] == old(self).contents@[j],
            decreases 256 - i,
        {
            self.contents[i] = boot[i];
            i = i + 1;
        }
        proof {
            assert(self.contents@ =~= Seq::new(
                old(self).contents@.len(),
                |i: int|
                    if 0 <= i < 256 {
                        boot@[i]
                    } else {
                        old(self).contents@[i]
                    },
            ));
        }
    }

    /// Reads one byte through the address decoder.
    pub fn read(&self, addr: u16) -> (r: u8)
        requires
            self.wf(),
        ensures
            r == self.spec_read(addr),
    {
        if addr < 0x0100 && self.bootstrap_enabled {
            self.contents[addr as usize]
        } else if addr < 0x8000 {
            match &self.cart {
                Some(c) => c.read(addr),
                None => self.contents[addr as usize],
            }
        } else if addr < 0xA000 {
            self.ppu.read_vram(addr)
        } else if addr < 0xC000 {
            match &self.cart {
                Some(c) => c.read_ram(addr),
                None => 0xFF,
            }
        } else if 0xE000 <= addr && addr < 0xFE00 {
            self.contents[(addr - 0x2000) as usize]
        } else if 0xFE00 <= addr && addr < 0xFEA0 {
            self.ppu.read_oam(addr)
        } else if 0xFEA0 <= addr && addr < 0xFF00 {
            0xFF
        } else if addr == 0xFF00 {
            self.joypad.read_register()
        } else if 0xFF04 <= addr && addr <= 0xFF07 {
            self.timer.read_register(addr)
        } else if addr == 0xFF0F {
            self.contents[addr as usize] | 0xE0
        } else if 0xFF40 <= addr && addr <= 0xFF4B && addr != 0xFF46 {
            self.ppu.read_register(addr)
        } else {
            self.contents[addr as usize]
        }
    }

    /// Writes one byte through the address decoder.  Writes into the ROM
    /// window drive the bank controller; echo-RAM writes land in work
    /// RAM; the unusable region and LY discard writes; a write to 0xFF46
    /// performs the whole OAM DMA copy at once; a nonzero write to 0xFF50
    /// retires the bootstrap overlay for good.
    #[verifier::rlimit(100)]
    #[verifier::spinoff_prover]
    pub fn write(&mut self, addr: u16, val: u8)
        requires
            old(self).wf(),
        ensures
            final(self).wf(),
            spec_write_rel(*old(self), *final(self), addr, val),
    {
        proof {
            reveal(spec_write_rel);
        }
        if addr < 0x8000 {
            match self.cart {
                Some(ref mut cart) => {
                    cart.write(addr, val);
                },
                None => {
                    // With no cartridge attached the window is plain
                    // memory, so the host can stage test programs there.
                    self.contents[addr as usize] = val;
                },
            }
        } else if addr < 0xA000 {
            self.ppu.write_vram(addr, val);
        } else if addr < 0xC000 {
            if let Some(ref mut cart) = self.cart {
                cart.write_ram(addr, val);
            }
        } else if addr < 0xE000 {
            self.contents[addr as usize] = val;
        } else if addr < 0xFE00 {
            self.contents[(addr - 0x2000) as usize] = val;
        } else if addr < 0xFEA0 {
            self.ppu.write_oam(addr, val);
        } else if addr < 0xFF00 {
            // Unusable region: writes are discarded.
        } else if addr == 0xFF00 {
            self.joypad.write_register(val);
        } else if 0xFF04 <= addr && addr <= 0xFF07 {
            self.timer.write_register(addr, val);
        } else if addr == 0xFF0F {
            self.contents[addr as usize] = val | 0xE0;
        } else if addr == 0xFF46 {
            self.run_oam_dma(val);
            self.contents[addr as usize] = val;
        } else if addr == 0xFF50 {
            if val != 0 {
                self.bootstrap_enabled = false;
            }
        } else if 0xFF40 <= addr && addr <= 0xFF4B {
            self.ppu.write_register(addr, val);
        } else {
            self.contents[addr as usize] = val;
        }
    }

    /// The OAM DMA copy: the 160 bytes at val*0x100 onward, read through
    /// the normal decoder, replace the whole of OAM in one step.
    fn run_oam_dma(&mut self, val: u8)
        requires
            old(self).wf(),
        ensures
            final(self).wf(),
            *final(self) == (MemoryMap { ppu: final(self).ppu, ..*old(self) }),
            final(self).ppu == (Ppu { oam: final(self).ppu.oam, ..old(self).ppu }),
            val <= 0xDF ==> final(self).ppu.oam@ == Seq::new(
                160,
                |i: int| old(self).spec_read((val * 256 + i) as u16),
            ),
            val > 0xDF ==> final(self).ppu.oam@ == old(self).ppu.oam@,
    {
        let source_addr: u16 = (val as u16) * 256;
        if val > 0xDF {
            // A source above 0xDF00 would wrap past the address space;
            // real hardware reads nothing sensible there, so the copy is
            // skipped (the OAM keeps its bytes).
            return ;
        }
        let mut i: u16 = 0;
        while i < 160
            invariant
                i <= 160,
                old(self).wf(),
                self.wf(),
                val <= 0xDF,
                source_addr == val * 256,
                *self == (MemoryMap { ppu: self.ppu, ..*old(self) }),
                self.ppu == (Ppu { oam: self.ppu.oam, ..old(self).ppu }),
                self.ppu.oam@.len() == 160,
                forall|j: int|
                    0 <= j < i ==> self.ppu.oam@[j] == old(self).spec_read((val * 256 + j) as u16),
                forall|j: int| i <= j < 160 ==> self.ppu.oam@[j] == old(self).ppu.oam@[j],
            decreases 160 - i,
        {
            let ghost pre = *self;
            let source_byte = self.read_for_dma(source_addr + i);
            self.ppu.write_oam(0xFE00 + i, source_byte);
            i = i + 1;
        }
        proof {
            assert(self.ppu.oam@ =~= Seq::new(
                160,
                |i: int| old(self).spec_read((val * 256 + i) as u16),
            ));
        }
    }

    /// A read used by the DMA copy; the source region never overlaps OAM,
    /// so reading through the decoder during the copy sees the original
    /// state for every source byte.
    fn read_for_dma(&self, addr: u16) -> (r: u8)
        requires
            self.wf(),
            addr < 0xE000,
        ensures
            r == self.spec_read(addr),
    {
        self.read(addr)
    }

    /// Borrows the picture processor.
    pub fn get_ppu(&self) -> (r: &Ppu)
        ensures
            r == self.ppu,
    {
        &self.ppu
    }

    /// Borrows the picture processor mutably.
    pub fn get_ppu_mut(&mut self) -> (r: &mut Ppu)
        ensures
            *r == old(self).ppu,
            *final(self) == (MemoryMap { ppu: *final(r), ..*old(self) }),
    {
        &mut self.ppu
    }

}

/// How one picture-processor advance relates the PPU before and after,
/// with the two latched-and-taken interrupt requests: `vb` for VBlank
/// and `st` for STAT.  The post state has both latches already cleared.
#[verifier::opaque]
pub open spec fn spec_step_ppu_rel(pre: Ppu, post: Ppu, vb: bool, st: bool, cycles: u16) -> bool {
    &&& !post.vblank_interrupt && !post.stat_interrupt
    &&& (!pre.lcdc.lcd_enable ==> vb == pre.vblank_interrupt && st == pre.stat_interrupt && post
        == (Ppu { vblank_interrupt: false, stat_interrupt: false, ..pre }))
    &&& (pre.lcdc.lcd_enable ==> {
        let total = pre.cycles + cycles;
        let lines = total / 456;
        &&& post.cycles == total % 456
        &&& post.ly == (pre.ly + lines) % 154
        &&& post.vram == pre.vram
        &&& post.oam == pre.oam
        &&& post.lcdc == pre.lcdc
        &&& (vb <==> (pre.vblank_interrupt || exists|k: int|
            0 <= k < lines && #[trigger] crate::ppu::spec_crosses_vblank(pre.ly as int, k)))
        &&& (pre.stat_interrupt ==> st)
        &&& (lines == 0 ==> vb == pre.vblank_interrupt && st == pre.stat_interrupt && post == (Ppu {
            cycles: post.cycles,
            vblank_interrupt: false,
            stat_interrupt: false,
            ..pre
        }))
        &&& (lines == 1 ==> crate::ppu::spec_line_rel(
            pre,
            Ppu { vblank_interrupt: vb, stat_interrupt: st, ..post },
        ))
        &&& (lines >= 1 ==> crate::ppu::spec_lines_rel(
            pre,
            Ppu { vblank_interrupt: vb, stat_interrupt: st, ..post },
            lines,
        ))
    })
}

/// Everything in the memory map but the picture processor agrees.
pub open spec fn spec_mmap_same_but_ppu(a: MemoryMap, b: MemoryMap) -> bool {
    &&& a.contents == b.contents
    &&& a.timer == b.timer
    &&& a.joypad == b.joypad
    &&& a.cart == b.cart
    &&& a.bootstrap_enabled == b.bootstrap_enabled
}

/// Everything in the memory map but the timer agrees.
pub open spec fn spec_mmap_same_but_timer(a: MemoryMap, b: MemoryMap) -> bool {
    &&& a.contents == b.contents
    &&& a.ppu == b.ppu
    &&& a.joypad == b.joypad
    &&& a.cart == b.cart
    &&& a.bootstrap_enabled == b.bootstrap_enabled
}

impl MemoryMap {
    /// Advances the picture processor and takes its latched interrupt
    /// requests: VBlank first, STAT second.
    pub fn step_ppu(&mut self, cycles: u16) -> (r: (bool, bool))
        requires
            old(self).wf(),
        ensures
            final(self).wf(),
            spec_mmap_same_but_ppu(*old(self), *final(self)),
            spec_step_ppu_rel(old(self).ppu, final(self).ppu, r.0, r.1, cycles),
    {
        proof {
            reveal(spec_step_ppu_rel);
        }
        self.ppu.step(cycles);
        let ghost stepped = self.ppu;
        let vblank_interrupt = self.ppu.take_vblank_interrupt();
        let stat_interrupt = self.ppu.take_stat_interrupt();
        proof {
            assert(Ppu {
                vblank_interrupt: vblank_interrupt,
                stat_interrupt: stat_interrupt,
                ..self.ppu
            } == stepped);
        }
        (vblank_interrupt, stat_interrupt)
    }

    /// Advances the timer; true when a TIMA overflow requests the timer
    /// interrupt.
    pub fn step_timer(&mut self, cycles: u16) -> (r: bool)
        requires
            old(self).wf(),
        ensures
            final(self).wf(),
            spec_mmap_same_but_timer(*old(self), *final(self)),
            crate::timer::spec_step_timer_rel(old(self).timer, final(self).timer, r, cycles),
    {
        self.timer.step(cycles)
    }

    /// Replaces the joypad's pressed state; true on any new press, which
    /// is the joypad interrupt's trigger.
    pub fn update_joypad(&mut self, buttons: JoypadButtons) -> (r: bool)
        ensures
            *final(self) == (MemoryMap { joypad: final(self).joypad, ..*old(self) }),
            final(self).joypad.buttons == buttons,
            final(self).joypad.direction_selected == old(self).joypad.direction_selected,
            final(self).joypad.button_selected == old(self).joypad.button_selected,
            r == crate::joypad::spec_press_edge(old(self).joypad.buttons, buttons),
    {
        self.joypad.update_buttons(buttons)
    }

    /// Whether any button is held at all.
    pub fn joypad_interrupt_requested(&self) -> (r: bool)
        ensures
            r == (self.joypad.buttons.a || self.joypad.buttons.b || self.joypad.buttons.start
                || self.joypad.buttons.select || self.joypad.buttons.up
                || self.joypad.buttons.down || self.joypad.buttons.left
                || self.joypad.buttons.right),
    {
        self.joypad.any_button_pressed()
    }
}

} // verus!
