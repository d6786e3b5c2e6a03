//! The picture processor: scanline state machine, tile-based background
//! and window compositor, sprite scanner and blender, the LY/LYC
//! coincidence machinery, and the VBlank and STAT interrupt requests.

use vstd::prelude::*;

verus! {

/// Screen width in pixels.
pub const SCREEN_WIDTH: usize = 160;

/// Screen height in pixels.
pub const SCREEN_HEIGHT: usize = 144;

/// Bytes of video RAM.
pub const VRAM_SIZE: usize = 0x2000;

/// Bytes of object attribute memory: 40 sprites of 4 bytes.
pub const OAM_SIZE: usize = 160;

/// Sprite entries in OAM.
pub const MAX_SPRITES: usize = 40;

/// At most this many sprites are kept per scanline.
pub const MAX_SPRITES_PER_LINE: usize = 10;

/// T-cycles of one whole scanline.
pub const SCANLINE_CYCLES: u16 = 456;

/// The observable mode in STAT's low two bits.
#[derive(Clone, Copy, PartialEq, Eq, Structural, Debug)]
pub enum PpuMode {
    HBlank,
    VBlank,
    OamScan,
    Drawing,
}

/// The LCDC control register, bit 7 down to bit 0.
#[derive(Clone, Copy, PartialEq, Eq, Structural, Debug)]
pub struct LcdcFlags {
    pub lcd_enable: bool,
    pub window_tile_map: bool,
    pub window_enable: bool,
    pub bg_window_tiles: bool,
    pub bg_tile_map: bool,
    pub sprite_size: bool,
    pub sprite_enable: bool,
    pub bg_enable: bool,
}

/// LCDC decoded from its byte.
pub open spec fn spec_lcdc_from_byte(byte: u8) -> LcdcFlags {
    LcdcFlags {
        lcd_enable: byte & 0x80 != 0,
        window_tile_map: byte & 0x40 != 0,
        window_enable: byte & 0x20 != 0,
        bg_window_tiles: byte & 0x10 != 0,
        bg_tile_map: byte & 0x08 != 0,
        sprite_size: byte & 0x04 != 0,
        sprite_enable: byte & 0x02 != 0,
        bg_enable: byte & 0x01 != 0,
    }
}

/// LCDC packed into its byte.
pub open spec fn spec_lcdc_to_byte(f: LcdcFlags) -> u8 {
    ((if f.lcd_enable {
        0x80u8
    } else {
        0u8
    }) + (if f.window_tile_map {
        0x40u8
    } else {
        0u8
    }) + (if f.window_enable {
        0x20u8
    } else {
        0u8
    }) + (if f.bg_window_tiles {
        0x10u8
    } else {
        0u8
    }) + (if f.bg_tile_map {
        0x08u8
    } else {
        0u8
    }) + (if f.sprite_size {
        0x04u8
    } else {
        0u8
    }) + (if f.sprite_enable {
        0x02u8
    } else {
        0u8
    }) + (if f.bg_enable {
        0x01u8
    } else {
        0u8
    })) as u8
}

impl LcdcFlags {
    /// Unpacks the LCDC byte.
    pub fn from_byte(byte: u8) -> (r: LcdcFlags)
        ensures
            r == spec_lcdc_from_byte(byte),
    {
        LcdcFlags {
            lcd_enable: byte & 0x80 != 0,
            window_tile_map: byte & 0x40 != 0,
            window_enable: byte & 0x20 != 0,
            bg_window_tiles: byte & 0x10 != 0,
            bg_tile_map: byte & 0x08 != 0,
            sprite_size: byte & 0x04 != 0,
            sprite_enable: byte & 0x02 != 0,
            bg_enable: byte & 0x01 != 0,
        }
    }

    /// Packs the LCDC byte.
    pub fn to_byte(&self) -> (r: u8)
        ensures
            r == spec_lcdc_to_byte(*self),
    {
        (if self.lcd_enable {
            0x80u8
        } else {
            0u8
        }) + (if self.window_tile_map {
            0x40u8
        } else {
            0u8
        }) + (if self.window_enable {
            0x20u8
        } else {
            0u8
        }) + (if self.bg_window_tiles {
            0x10u8
        } else {
            0u8
        }) + (if self.bg_tile_map {
            0x08u8
        } else {
            0u8
        }) + (if self.sprite_size {
            0x04u8
        } else {
            0u8
        }) + (if self.sprite_enable {
            0x02u8
        } else {
            0u8
        }) + (if self.bg_enable {
            0x01u8
        } else {
            0u8
        })
    }
}

/// The STAT status register: interrupt-source enables in bits 6-3, the
/// LY=LYC coincidence flag in bit 2, and the mode in bits 1-0.
#[derive(Clone, Copy, PartialEq, Eq, Structural, Debug)]
pub struct StatFlags {
    pub lyc_interrupt: bool,
    pub oam_interrupt: bool,
    pub vblank_interrupt: bool,
    pub hblank_interrupt: bool,
    pub lyc_flag: bool,
    pub mode: PpuMode,
}

/// The mode number in STAT's low two bits.
pub open spec fn spec_mode_bits(m: PpuMode) -> u8 {
    match m {
        PpuMode::HBlank => 0u8,
        PpuMode::VBlank => 1u8,
        PpuMode::OamScan => 2u8,
        PpuMode::Drawing => 3u8,
    }
}

/// STAT decoded from its byte.
pub open spec fn spec_stat_from_byte(byte: u8) -> StatFlags {
    StatFlags {
        lyc_interrupt: byte & 0x40 != 0,
        oam_interrupt: byte & 0x20 != 0,
        vblank_interrupt: byte & 0x10 != 0,
        hblank_interrupt: byte & 0x08 != 0,
        lyc_flag: byte & 0x04 != 0,
        mode: if byte % 4 == 0 {
            PpuMode::HBlank
        } else if byte % 4 == 1 {
            PpuMode::VBlank
        } else if byte % 4 == 2 {
            PpuMode::OamScan
        } else {
            PpuMode::Drawing
        },
    }
}

/// STAT packed into its byte.
pub open spec fn spec_stat_to_byte(f: StatFlags) -> u8 {
    ((if f.lyc_interrupt {
        0x40u8
    } else {
        0u8
    }) + (if f.oam_interrupt {
        0x20u8
    } else {
        0u8
    }) + (if f.vblank_interrupt {
        0x10u8
    } else {
        0u8
    }) + (if f.hblank_interrupt {
        0x08u8
    } else {
        0u8
    }) + (if f.lyc_flag {
        0x04u8
    } else {
        0u8
    }) + spec_mode_bits(f.mode)) as u8
}

impl StatFlags {
    /// Unpacks the STAT byte.
    pub fn from_byte(byte: u8) -> (r: StatFlags)
        ensures
            r == spec_stat_from_byte(byte),
    {
        StatFlags {
            lyc_interrupt: byte & 0x40 != 0,
            oam_interrupt: byte & 0x20 != 0,
            vblank_interrupt: byte & 0x10 != 0,
            hblank_interrupt: byte & 0x08 != 0,
            lyc_flag: byte & 0x04 != 0,
            mode: match byte % 4 {
                0 => PpuMode::HBlank,
                1 => PpuMode::VBlank,
                2 => PpuMode::OamScan,
                _ => PpuMode::Drawing,
            },
        }
    }

    /// Packs the STAT byte.
    pub fn to_byte(&self) -> (r: u8)
        ensures
            r == spec_stat_to_byte(*self),
    {
        let mode_bits: u8 = match self.mode {
            PpuMode::HBlank => 0,
            PpuMode::VBlank => 1,
            PpuMode::OamScan => 2,
            PpuMode::Drawing => 3,
        };
        (if self.lyc_interrupt {
            0x40u8
        } else {
            0u8
        }) + (if self.oam_interrupt {
            0x20u8
        } else {
            0u8
        }) + (if self.vblank_interrupt {
            0x10u8
        } else {
            0u8
        }) + (if self.hblank_interrupt {
            0x08u8
        } else {
            0u8
        }) + (if self.lyc_flag {
            0x04u8
        } else {
            0u8
        }) + mode_bits
    }
}

/// One OAM entry: screen position (offset by 16 and 8), tile number and
/// attribute flags.
#[derive(Clone, Copy, PartialEq, Eq, Structural, Debug)]
pub struct Sprite {
    pub y: u8,
    pub x: u8,
    pub tile: u8,
    pub flags: u8,
}

impl Sprite {
    /// Builds a sprite from its four OAM bytes.
    pub fn from_oam_bytes(bytes: &[u8; 4]) -> (r: Sprite)
        ensures
            r == (Sprite { y: bytes[0], x: bytes[1], tile: bytes[2], flags: bytes[3] }),
    {
        Sprite { y: bytes[0], x: bytes[1], tile: bytes[2], flags: bytes[3] }
    }

    /// True when the sprite paints over the background (attribute bit 7
    /// clear); false restricts it to background color 0.
    pub fn priority(&self) -> (r: bool)
        ensures
            r == spec_sprite_priority(*self),
    {
        (self.flags & 0x80) == 0
    }

    /// Vertical mirroring, attribute bit 6.
    pub fn flip_y(&self) -> (r: bool)
        ensures
            r == spec_sprite_flip_y(*self),
    {
        (self.flags & 0x40) != 0
    }

    /// Horizontal mirroring, attribute bit 5.
    pub fn flip_x(&self) -> (r: bool)
        ensures
            r == spec_sprite_flip_x(*self),
    {
        (self.flags & 0x20) != 0
    }

    /// Palette selection, attribute bit 4: false is OBP0, true is OBP1.
    pub fn palette(&self) -> (r: bool)
        ensures
            r == spec_sprite_palette(*self),
    {
        (self.flags & 0x10) != 0
    }
}

pub open spec fn spec_sprite_priority(s: Sprite) -> bool {
    s.flags & 0x80 == 0
}

pub open spec fn spec_sprite_flip_y(s: Sprite) -> bool {
    s.flags & 0x40 != 0
}

pub open spec fn spec_sprite_flip_x(s: Sprite) -> bool {
    s.flags & 0x20 != 0
}

pub open spec fn spec_sprite_palette(s: Sprite) -> bool {
    s.flags & 0x10 != 0
}

/// The picture processor.  The framebuffer holds one byte per pixel with
/// a palette-resolved color index 0-3.
pub struct Ppu {
    pub vram: Vec<u8>,
    pub oam: Vec<u8>,
    pub lcdc: LcdcFlags,
    pub stat: StatFlags,
    pub scy: u8,
    pub scx: u8,
    pub ly: u8,
    pub lyc: u8,
    pub wy: u8,
    pub wx: u8,
    pub bgp: u8,
    pub obp0: u8,
    pub obp1: u8,
    pub mode: PpuMode,
    pub cycles: u16,
    pub frame_buffer: Vec<u8>,
    pub scanline_sprites: Vec<Sprite>,
    pub window_line: u8,
    pub vblank_interrupt: bool,
    pub stat_interrupt: bool,
    pub prev_stat_line: bool,
}

impl Ppu {
    /// Structural soundness: the fixed sizes of VRAM, OAM and the
    /// framebuffer, the per-line sprite cap, and a cycle accumulator
    /// below one scanline.
    pub open spec fn wf(&self) -> bool {
        &&& self.vram@.len() == VRAM_SIZE
        &&& self.oam@.len() == OAM_SIZE
        &&& self.frame_buffer@.len() == SCREEN_WIDTH * SCREEN_HEIGHT
        &&& self.scanline_sprites@.len() <= MAX_SPRITES_PER_LINE
        &&& self.cycles < SCANLINE_CYCLES
        &&& self.ly <= 153
    }

    /// Cold-boot state: LCD on with the default control value, cleared
    /// memories, and the scan of line 0 about to begin.
    pub fn new() -> (r: Ppu)
        ensures
            r.wf(),
            r.lcdc == spec_lcdc_from_byte(0x91),
            r.stat == spec_stat_from_byte(0x00),
            r.scy == 0 && r.scx == 0 && r.ly == 0 && r.lyc == 0 && r.wy == 0 && r.wx == 0,
            r.bgp == 0xFC && r.obp0 == 0xFF && r.obp1 == 0xFF,
            r.mode == PpuMode::OamScan,
            r.cycles == 0,
            r.window_line == 0,
            !r.vblank_interrupt && !r.stat_interrupt && !r.prev_stat_line,
            r.vram@ == Seq::<u8>::new(VRAM_SIZE as nat, |i: int| 0u8),
            r.oam@ == Seq::<u8>::new(OAM_SIZE as nat, |i: int| 0u8),
            r.frame_buffer@ == Seq::<u8>::new((SCREEN_WIDTH * SCREEN_HEIGHT) as nat, |i: int| 0u8),
            r.scanline_sprites@.len() == 0,
    {
        let vram: Vec<u8> = vec![0u8; VRAM_SIZE];
        let oam: Vec<u8> = vec![0u8; OAM_SIZE];
        let frame_buffer: Vec<u8> = vec![0u8; 160 * 144];
        proof {
            assert(vram@ =~= Seq::<u8>::new(VRAM_SIZE as nat, |i: int| 0u8));
            assert(oam@ =~= Seq::<u8>::new(OAM_SIZE as nat, |i: int| 0u8));
            assert(frame_buffer@ =~= Seq::<u8>::new(
                (SCREEN_WIDTH * SCREEN_HEIGHT) as nat,
                |i: int| 0u8,
            ));
        }
        Ppu {
            vram,
            oam,
            lcdc: LcdcFlags::from_byte(0x91),
            stat: StatFlags::from_byte(0x00),
            scy: 0,
            scx: 0,
            ly: 0,
            lyc: 0,
            wy: 0,
            wx: 0,
            bgp: 0xFC,
            obp0: 0xFF,
            obp1: 0xFF,
            mode: PpuMode::OamScan,
            cycles: 0,
            frame_buffer,
            scanline_sprites: Vec::new(),
            window_line: 0,
            vblank_interrupt: false,
            stat_interrupt: false,
            prev_stat_line: false,
        }
    }

    /// The state the bootstrap ROM leaves behind: as the cold boot, but
    /// resting in HBlank.
    pub fn new_post_boot() -> (r: Ppu)
        ensures
            r.wf(),
            r.lcdc == spec_lcdc_from_byte(0x91),
            r.stat == spec_stat_from_byte(0x00),
            r.scy == 0 && r.scx == 0 && r.ly == 0 && r.lyc == 0 && r.wy == 0 && r.wx == 0,
            r.bgp == 0xFC && r.obp0 == 0xFF && r.obp1 == 0xFF,
            r.mode == PpuMode::HBlank,
            r.cycles == 0,
            r.window_line == 0,
            !r.vblank_interrupt && !r.stat_interrupt && !r.prev_stat_line,
            r.vram@ == Seq::<u8>::new(VRAM_SIZE as nat, |i: int| 0u8),
            r.oam@ == Seq::<u8>::new(OAM_SIZE as nat, |i: int| 0u8),
            r.frame_buffer@ == Seq::<u8>::new((SCREEN_WIDTH * SCREEN_HEIGHT) as nat, |i: int| 0u8),
            r.scanline_sprites@.len() == 0,
    {
        let mut r = Ppu::new();
        r.mode = PpuMode::HBlank;
        r
    }

    /// Reads a PPU register; unmapped addresses read 0xFF.
    pub fn read_register(&self, addr: u16) -> (r: u8)
        ensures
            r == spec_ppu_register(*self, addr),
    {
        match addr {
            0xFF40 => self.lcdc.to_byte(),
            0xFF41 => self.stat.to_byte(),
            0xFF42 => self.scy,
            0xFF43 => self.scx,
            0xFF44 => self.ly,
            0xFF45 => self.lyc,
            0xFF4A => self.wy,
            0xFF4B => self.wx,
            0xFF47 => self.bgp,
            0xFF48 => self.obp0,
            0xFF49 => self.obp1,
            _ => 0xFF,
        }
    }

    /// Reads video RAM; the address must fall in 0x8000-0x9FFF.
    pub fn read_vram(&self, addr: u16) -> (r: u8)
        requires
            self.wf(),
            0x8000 <= addr < 0xA000,
        ensures
            r == self.vram@[addr - 0x8000],
    {
        self.vram[(addr - 0x8000) as usize]
    }

    /// Writes video RAM; the address must fall in 0x8000-0x9FFF.
    pub fn write_vram(&mut self, addr: u16, value: u8)
        requires
            old(self).wf(),
            0x8000 <= addr < 0xA000,
        ensures
            final(self).wf(),
            final(self).vram@ == old(self).vram@.update(addr - 0x8000, value),
            *final(self) == (Ppu { vram: final(self).vram, ..*old(self) }),
    {
        self.vram[(addr - 0x8000) as usize] = value;
    }

    /// Reads object attribute memory; the address must fall in
    /// 0xFE00-0xFE9F.
    pub fn read_oam(&self, addr: u16) -> (r: u8)
        requires
            self.wf(),
            0xFE00 <= addr < 0xFEA0,
        ensures
            r == self.oam@[addr - 0xFE00],
    {
        self.oam[(addr - 0xFE00) as usize]
    }

    /// Writes object attribute memory; the address must fall in
    /// 0xFE00-0xFE9F.
    pub fn write_oam(&mut self, addr: u16, value: u8)
        requires
            old(self).wf(),
            0xFE00 <= addr < 0xFEA0,
        ensures
            final(self).wf(),
            final(self).oam@ == old(self).oam@.update(addr - 0xFE00, value),
            *final(self) == (Ppu { oam: final(self).oam, ..*old(self) }),
    {
        self.oam[(addr - 0xFE00) as usize] = value;
    }

    /// The palette-resolved framebuffer, row-major, 160 by 144.
    pub fn get_frame_buffer(&self) -> (r: &Vec<u8>)
        ensures
            r == self.frame_buffer,
    {
        &self.frame_buffer
    }

    /// Takes and clears the pending VBlank interrupt request.
    pub fn take_vblank_interrupt(&mut self) -> (r: bool)
        ensures
            r == old(self).vblank_interrupt,
            *final(self) == (Ppu { vblank_interrupt: false, ..*old(self) }),
    {
        let interrupt = self.vblank_interrupt;
        self.vblank_interrupt = false;
        interrupt
    }

    /// Takes and clears the pending STAT interrupt request.
    pub fn take_stat_interrupt(&mut self) -> (r: bool)
        ensures
            r == old(self).stat_interrupt,
            *final(self) == (Ppu { stat_interrupt: false, ..*old(self) }),
    {
        let interrupt = self.stat_interrupt;
        self.stat_interrupt = false;
        interrupt
    }

    /// Records a mode transition in both the live mode and STAT.
    fn set_mode(&mut self, new_mode: PpuMode)
        ensures
            *final(self) == (Ppu {
                mode: new_mode,
                stat: StatFlags { mode: new_mode, ..old(self).stat },
                ..*old(self)
            }),
    {
        self.mode = new_mode;
        self.stat.mode = new_mode;
    }

    /// Recomputes the LY=LYC coincidence flag, requesting a STAT
    /// interrupt on a match when the LYC source is enabled.
    fn update_lyc_flag(&mut self)
        ensures
            *final(self) == (Ppu {
                stat: StatFlags { lyc_flag: old(self).ly == old(self).lyc, ..old(self).stat },
                stat_interrupt: old(self).stat_interrupt || (old(self).ly == old(self).lyc && old(
                    self,
                ).stat.lyc_interrupt),
                ..*old(self)
            }),
    {
        let lyc_match = self.ly == self.lyc;
        self.stat.lyc_flag = lyc_match;
        if lyc_match && self.stat.lyc_interrupt {
            self.stat_interrupt = true;
        }
    }

    /// The level of the STAT interrupt line: the OR of the enabled
    /// sources against the current coincidence flag and mode.
    fn should_trigger_stat_interrupt(&self) -> (r: bool)
        ensures
            r == spec_stat_line(*self),
    {
        if self.stat.lyc_interrupt && self.stat.lyc_flag {
            return true;
        }
        match self.mode {
            PpuMode::HBlank => self.stat.hblank_interrupt,
            PpuMode::VBlank => self.stat.vblank_interrupt,
            PpuMode::OamScan => self.stat.oam_interrupt,
            PpuMode::Drawing => false,
        }
    }

    /// Requests a STAT interrupt on a rising edge of the interrupt line.
    fn check_stat_interrupts(&mut self)
        ensures
            *final(self) == (Ppu {
                stat_interrupt: old(self).stat_interrupt || (spec_stat_line(*old(self)) && !old(
                    self,
                ).prev_stat_line),
                prev_stat_line: spec_stat_line(*old(self)),
                ..*old(self)
            }),
    {
        let stat_line = self.should_trigger_stat_interrupt();
        if stat_line && !self.prev_stat_line {
            self.stat_interrupt = true;
        }
        self.prev_stat_line = stat_line;
    }
}

/// What each PPU register reads as.
pub open spec fn spec_ppu_register(p: Ppu, addr: u16) -> u8 {
    if addr == 0xFF40 {
        spec_lcdc_to_byte(p.lcdc)
    } else if addr == 0xFF41 {
        spec_stat_to_byte(p.stat)
    } else if addr == 0xFF42 {
        p.scy
    } else if addr == 0xFF43 {
        p.scx
    } else if addr == 0xFF44 {
        p.ly
    } else if addr == 0xFF45 {
        p.lyc
    } else if addr == 0xFF4A {
        p.wy
    } else if addr == 0xFF4B {
        p.wx
    } else if addr == 0xFF47 {
        p.bgp
    } else if addr == 0xFF48 {
        p.obp0
    } else if addr == 0xFF49 {
        p.obp1
    } else {
        0xFFu8
    }
}

/// Everything but the framebuffer agrees between two PPU states.
pub open spec fn spec_same_but_frame(a: Ppu, b: Ppu) -> bool {
    &&& a.vram == b.vram
    &&& a.oam == b.oam
    &&& a.lcdc == b.lcdc
    &&& a.stat == b.stat
    &&& a.scy == b.scy
    &&& a.scx == b.scx
    &&& a.ly == b.ly
    &&& a.lyc == b.lyc
    &&& a.wy == b.wy
    &&& a.wx == b.wx
    &&& a.bgp == b.bgp
    &&& a.obp0 == b.obp0
    &&& a.obp1 == b.obp1
    &&& a.mode == b.mode
    &&& a.cycles == b.cycles
    &&& a.scanline_sprites == b.scanline_sprites
    &&& a.window_line == b.window_line
    &&& a.vblank_interrupt == b.vblank_interrupt
    &&& a.stat_interrupt == b.stat_interrupt
    &&& a.prev_stat_line == b.prev_stat_line
}

/// A 2-bit color index read out of a tile: two bit planes, low byte then
/// high byte, leftmost pixel in bit 7.  Reads past VRAM yield 0.
pub open spec fn spec_tile_pixel(vram: Seq<u8>, addr: int, px: int, py: int) -> u8 {
    let off = addr + py * 2;
    if off < 0 || off + 1 >= VRAM_SIZE {
        0u8
    } else {
        let lo = vram[off];
        let hi = vram[off + 1];
        let bit = (7 - px) as u8;
        ((((hi >> bit) & 1) << 1) | ((lo >> bit) & 1)) as u8
    }
}

/// A 2-bit color index run through a packed palette register: field
/// `color` of four 2-bit fields.
pub open spec fn spec_apply_palette(color: u8, palette: u8) -> u8 {
    if color == 0 {
        (palette % 4) as u8
    } else if color == 1 {
        ((palette / 4) % 4) as u8
    } else if color == 2 {
        ((palette / 16) % 4) as u8
    } else if color == 3 {
        ((palette / 64) % 4) as u8
    } else {
        0u8
    }
}

/// The raw 2-bit background color index at screen column x of line y:
/// scrolled into the 256x256 background plane and looked up through the
/// selected tile map and tile-data addressing, before any palette.
#[verifier::opaque]
pub open spec fn spec_bg_index(p: Ppu, x: int, y: int) -> u8 {
    let bg_y = if p.scy + y < 256 {
        p.scy + y
    } else {
        p.scy + y - 256
    };
    let bg_x = if p.scx + x < 256 {
        p.scx + x
    } else {
        p.scx + x - 256
    };
    let map_base: int = if p.lcdc.bg_tile_map {
        0x1C00
    } else {
        0x1800
    };
    let tile_index = (bg_y / 8) * 32 + (bg_x / 8);
    let tile_id = p.vram@[map_base + tile_index];
    let data_addr: int = if p.lcdc.bg_window_tiles {
        tile_id * 16
    } else {
        0x1000 + (if tile_id >= 0x80 {
            tile_id - 256
        } else {
            tile_id as int
        }) * 16
    };
    spec_tile_pixel(p.vram@, data_addr, bg_x % 8, bg_y % 8)
}

/// The background pixel stored in the framebuffer: the raw index run
/// through BGP.
pub open spec fn spec_bg_pixel(p: Ppu, x: int, y: int) -> u8 {
    spec_apply_palette(spec_bg_index(p, x, y), p.bgp)
}

/// The leftmost screen column the window covers: WX holds the column
/// plus 7.
pub open spec fn spec_window_start(p: Ppu) -> int {
    if p.wx < 7 {
        0
    } else {
        p.wx - 7
    }
}

/// The raw 2-bit window color index at screen column x, reading row
/// `wline` of the window plane through the window tile map, before any
/// palette.
#[verifier::opaque]
pub open spec fn spec_win_index(p: Ppu, x: int, wline: int) -> u8 {
    let window_x = x - spec_window_start(p);
    let map_base: int = if p.lcdc.window_tile_map {
        0x1C00
    } else {
        0x1800
    };
    let tile_index = (wline / 8) * 32 + (window_x / 8);
    let tile_id = p.vram@[map_base + tile_index];
    let data_addr: int = if p.lcdc.bg_window_tiles {
        tile_id * 16
    } else {
        0x1000 + (if tile_id >= 0x80 {
            tile_id - 256
        } else {
            tile_id as int
        }) * 16
    };
    spec_tile_pixel(p.vram@, data_addr, window_x % 8, wline % 8)
}

/// The window pixel stored in the framebuffer: the raw index run through
/// BGP.
pub open spec fn spec_win_pixel(p: Ppu, x: int, wline: int) -> u8 {
    spec_apply_palette(spec_win_index(p, x, wline), p.bgp)
}

/// The window pixel reads only VRAM and the control registers, so states
/// that differ elsewhere (in particular in the framebuffer) agree on it.
pub proof fn lemma_win_pixel_same(p1: Ppu, p2: Ppu, x: int, wline: int)
    requires
        p1.vram@ == p2.vram@,
        p1.lcdc == p2.lcdc,
        p1.wx == p2.wx,
        p1.bgp == p2.bgp,
    ensures
        spec_win_pixel(p1, x, wline) == spec_win_pixel(p2, x, wline),
{
    reveal(spec_win_index);
}

/// Whether the window is drawn on line y: enabled, the line at or below
/// WY, and WX on screen.
pub open spec fn spec_window_rendered(p: Ppu, y: int) -> bool {
    p.lcdc.window_enable && y >= p.wy && p.wx < 167
}

/// The raw color index of the background layer under a sprite pixel:
/// the window's index where the window is drawn over this column, the
/// background's index where the background is drawn, and 0 (so a
/// behind-background sprite shows) where both layers are off.
pub open spec fn spec_bgwin_index(p: Ppu, x: int, y: int) -> u8 {
    if spec_window_rendered(p, y) && x >= spec_window_start(p) {
        spec_win_index(p, x, p.window_line as int)
    } else if p.lcdc.bg_enable {
        spec_bg_index(p, x, y)
    } else {
        0u8
    }
}

/// The whole raw background-layer index row of line y.
#[verifier::opaque]
pub open spec fn spec_bgwin_raw_row(p: Ppu, y: int) -> Seq<u8> {
    Seq::new(160, |x: int| spec_bgwin_index(p, x, y))
}

/// The raw index row reads only VRAM and the control registers, so
/// states that differ elsewhere (in particular in the framebuffer and
/// the sprite list) agree on it.
pub proof fn lemma_raw_row_same(p1: Ppu, p2: Ppu, y: int)
    requires
        p1.vram@ == p2.vram@,
        p1.lcdc == p2.lcdc,
        p1.scy == p2.scy,
        p1.scx == p2.scx,
        p1.wy == p2.wy,
        p1.wx == p2.wx,
        p1.window_line == p2.window_line,
    ensures
        spec_bgwin_raw_row(p1, y) == spec_bgwin_raw_row(p2, y),
{
    reveal(spec_bgwin_raw_row);
    reveal(spec_bg_index);
    reveal(spec_win_index);
    assert(spec_bgwin_raw_row(p1, y) =~= spec_bgwin_raw_row(p2, y));
}

/// Sprite height per LCDC bit 2.
pub open spec fn spec_sprite_height(lcdc: LcdcFlags) -> int {
    if lcdc.sprite_size {
        16
    } else {
        8
    }
}

/// A sprite's top screen line: its Y byte offset by 16.  Negative for a
/// sprite that straddles the screen's top edge, whose lower rows are
/// still visible.
pub open spec fn spec_sprite_top(s: Sprite) -> int {
    s.y - 16
}

/// A sprite's leftmost screen column: its X byte offset by 8.  Negative
/// for a sprite that straddles the screen's left edge, whose right
/// columns are still visible.
pub open spec fn spec_sprite_left(s: Sprite) -> int {
    s.x - 8
}

/// Whether the sprite's vertical extent covers line ly.
pub open spec fn spec_sprite_covers(s: Sprite, ly: int, h: int) -> bool {
    spec_sprite_top(s) <= ly < spec_sprite_top(s) + h
}

/// The sprite read out of OAM entry i.
pub open spec fn spec_sprite_at(oam: Seq<u8>, i: int) -> Sprite {
    Sprite { y: oam[i * 4], x: oam[i * 4 + 1], tile: oam[i * 4 + 2], flags: oam[i * 4 + 3] }
}

/// The OAM scan from entry i on with `room` slots left: keeps each sprite
/// whose extent covers ly, in OAM order, until the slots run out.
pub open spec fn spec_scan(oam: Seq<u8>, ly: int, h: int, i: nat, room: nat) -> Seq<Sprite>
    decreases MAX_SPRITES - i,
{
    if i >= MAX_SPRITES || room == 0 {
        Seq::empty()
    } else if spec_sprite_covers(spec_sprite_at(oam, i as int), ly, h) {
        seq![spec_sprite_at(oam, i as int)] + spec_scan(oam, ly, h, i + 1, (room - 1) as nat)
    } else {
        spec_scan(oam, ly, h, i + 1, room)
    }
}

/// The sprite list the scan leaves for line ly: empty when sprites are
/// disabled, else the first ten covering sprites in OAM order.
pub open spec fn spec_line_sprites(p: Ppu, ly: int) -> Seq<Sprite> {
    if p.lcdc.sprite_enable {
        spec_scan(p.oam@, ly, spec_sprite_height(p.lcdc), 0, MAX_SPRITES_PER_LINE as nat)
    } else {
        Seq::empty()
    }
}

/// Every sprite the scan keeps covers the scanned line.
pub proof fn lemma_scan_covers(oam: Seq<u8>, ly: int, h: int, i: nat, room: nat)
    ensures
        forall|k: int|
            0 <= k < spec_scan(oam, ly, h, i, room).len() ==> spec_sprite_covers(
                #[trigger] spec_scan(oam, ly, h, i, room)[k],
                ly,
                h,
            ),
    decreases MAX_SPRITES - i,
{
    if i >= MAX_SPRITES || room == 0 {
    } else if spec_sprite_covers(spec_sprite_at(oam, i as int), ly, h) {
        lemma_scan_covers(oam, ly, h, i + 1, (room - 1) as nat);
        let s = spec_sprite_at(oam, i as int);
        let rest = spec_scan(oam, ly, h, i + 1, (room - 1) as nat);
        let whole = spec_scan(oam, ly, h, i, room);
        assert forall|k: int| 0 <= k < whole.len() implies spec_sprite_covers(
            whole[k],
            ly,
            h,
        ) by {
            if k == 0 {
                assert(whole[0] == s);
            } else {
                assert(whole[k] == rest[k - 1]);
            }
        }
    } else {
        lemma_scan_covers(oam, ly, h, i + 1, room);
        let rest = spec_scan(oam, ly, h, i + 1, room);
        let whole = spec_scan(oam, ly, h, i, room);
        assert forall|k: int| 0 <= k < whole.len() implies spec_sprite_covers(
            whole[k],
            ly,
            h,
        ) by {
            assert(whole[k] == rest[k]);
        }
    }
}

/// The scan never keeps more than its room.
pub proof fn lemma_scan_len(oam: Seq<u8>, ly: int, h: int, i: nat, room: nat)
    ensures
        spec_scan(oam, ly, h, i, room).len() <= room,
    decreases MAX_SPRITES - i,
{
    if i >= MAX_SPRITES || room == 0 {
    } else if spec_sprite_covers(spec_sprite_at(oam, i as int), ly, h) {
        lemma_scan_len(oam, ly, h, i + 1, (room - 1) as nat);
    } else {
        lemma_scan_len(oam, ly, h, i + 1, room);
    }
}

/// One sprite painted over a 160-pixel row.  A pixel is painted when it
/// falls in the sprite's horizontal extent, its color index is not 0
/// (transparent), and either the sprite has priority over the background
/// or the raw background color index underneath (in `raw`) is 0.
#[verifier::opaque]
pub open spec fn spec_paint_sprite(
    row: Seq<u8>,
    raw: Seq<u8>,
    s: Sprite,
    vram: Seq<u8>,
    lcdc: LcdcFlags,
    obp0: u8,
    obp1: u8,
    y: int,
) -> Seq<u8> {
    let sx = spec_sprite_left(s);
    if sx >= SCREEN_WIDTH {
        row
    } else {
        Seq::new(
            row.len(),
            |x: int|
                if sx <= x < sx + 8 {
                    let px = x - sx;
                    let apx = if spec_sprite_flip_x(s) {
                        7 - px
                    } else {
                        px
                    };
                    let line_in = y - spec_sprite_top(s);
                    let actual = if spec_sprite_flip_y(s) {
                        spec_sprite_height(lcdc) - 1 - line_in
                    } else {
                        line_in
                    };
                    let tid: int = if lcdc.sprite_size {
                        (s.tile / 2) * 2
                    } else {
                        s.tile as int
                    };
                    let color = spec_tile_pixel(vram, tid * 16 + actual * 2, apx, 0);
                    if color == 0 {
                        row[x]
                    } else if spec_sprite_priority(s) || raw[x] == 0 {
                        spec_apply_palette(
                            color,
                            if spec_sprite_palette(s) {
                                obp1
                            } else {
                                obp0
                            },
                        )
                    } else {
                        row[x]
                    }
                } else {
                    row[x]
                },
        )
    }
}

/// The whole sprite list painted over a row, the last list entry first,
/// so that the earliest OAM entry is painted last and wins.
#[verifier::opaque]
pub open spec fn spec_paint_sprites(
    row: Seq<u8>,
    raw: Seq<u8>,
    sprites: Seq<Sprite>,
    vram: Seq<u8>,
    lcdc: LcdcFlags,
    obp0: u8,
    obp1: u8,
    y: int,
) -> Seq<u8>
    decreases sprites.len(),
{
    if sprites.len() == 0 {
        row
    } else {
        spec_paint_sprite(
            spec_paint_sprites(row, raw, sprites.drop_first(), vram, lcdc, obp0, obp1, y),
            raw,
            sprites.first(),
            vram,
            lcdc,
            obp0,
            obp1,
            y,
        )
    }
}

/// Painting keeps the row's length.
pub proof fn lemma_paint_sprites_len(
    row: Seq<u8>,
    raw: Seq<u8>,
    sprites: Seq<Sprite>,
    vram: Seq<u8>,
    lcdc: LcdcFlags,
    obp0: u8,
    obp1: u8,
    y: int,
)
    ensures
        spec_paint_sprites(row, raw, sprites, vram, lcdc, obp0, obp1, y).len() == row.len(),
    decreases sprites.len(),
{
    reveal(spec_paint_sprite);
    reveal(spec_paint_sprites);
    if sprites.len() > 0 {
        lemma_paint_sprites_len(row, raw, sprites.drop_first(), vram, lcdc, obp0, obp1, y);
    }
}

/// One 160-byte row written into the framebuffer at line y.
#[verifier::opaque]
pub open spec fn spec_write_row(fb: Seq<u8>, y: int, row: Seq<u8>) -> Seq<u8> {
    Seq::new(
        fb.len(),
        |i: int|
            if 160 * y <= i < 160 * y + 160 {
                row[i - 160 * y]
            } else {
                fb[i]
            },
    )
}

/// The background and window layers of line y, over the row's previous
/// content where the background is disabled.
#[verifier::opaque]
pub open spec fn spec_bgwin_row(p: Ppu, y: int) -> Seq<u8> {
    let base = p.frame_buffer@.subrange(160 * y, 160 * y + 160);
    let bg = if p.lcdc.bg_enable {
        Seq::new(160, |x: int| spec_bg_pixel(p, x, y))
    } else {
        base
    };
    if spec_window_rendered(p, y) {
        Seq::new(
            160,
            |x: int|
                if x >= spec_window_start(p) {
                    spec_win_pixel(p, x, p.window_line as int)
                } else {
                    bg[x]
                },
        )
    } else {
        bg
    }
}

/// The fully rendered row for line y: background and window, then the
/// given sprite list when sprites are enabled.
#[verifier::opaque]
pub open spec fn spec_rendered_row(p: Ppu, sprites: Seq<Sprite>, y: int) -> Seq<u8> {
    let bw = spec_bgwin_row(p, y);
    if p.lcdc.sprite_enable {
        spec_paint_sprites(
            bw,
            spec_bgwin_raw_row(p, y),
            sprites,
            p.vram@,
            p.lcdc,
            p.obp0,
            p.obp1,
            y,
        )
    } else {
        bw
    }
}

/// The level of the STAT interrupt line.
pub open spec fn spec_stat_line(p: Ppu) -> bool {
    (p.stat.lyc_interrupt && p.stat.lyc_flag) || (match p.mode {
        PpuMode::HBlank => p.stat.hblank_interrupt,
        PpuMode::VBlank => p.stat.vblank_interrupt,
        PpuMode::OamScan => p.stat.oam_interrupt,
        PpuMode::Drawing => false,
    })
}

/// What the background stage leaves in the framebuffer: row y holds the
/// background pixels, everything else is untouched.
#[verifier::opaque]
pub open spec fn spec_bg_stage(pre: Ppu, fb: Seq<u8>, y: int) -> bool {
    &&& fb.len() == pre.frame_buffer@.len()
    &&& forall|x: int| 0 <= x < 160 ==> fb[160 * y + x] == spec_bg_pixel(pre, x, y)
    &&& forall|i: int|
        0 <= i < fb.len() && !(160 * y <= i < 160 * y + 160) ==> fb[i] == pre.frame_buffer@[i]
}

/// What the window stage leaves in the framebuffer: the window pixels
/// from the window's start column on, the previous content elsewhere.
#[verifier::opaque]
pub open spec fn spec_window_stage(pre: Ppu, fb: Seq<u8>, y: int) -> bool {
    &&& fb.len() == pre.frame_buffer@.len()
    &&& forall|x: int|
        0 <= x < 160 ==> fb[160 * y + x] == (if x >= spec_window_start(pre) {
            spec_win_pixel(pre, x, pre.window_line as int)
        } else {
            pre.frame_buffer@[160 * y + x]
        })
    &&& forall|i: int|
        0 <= i < fb.len() && !(160 * y <= i < 160 * y + 160) ==> fb[i] == pre.frame_buffer@[i]
}

/// Composes the three render stages of one line: given the framebuffer
/// after the background stage, after the window stage, and after the
/// sprite stage, the final framebuffer is the line's rendered row written
/// into the original framebuffer.
#[verifier::rlimit(100)]
proof fn lemma_compose_line(
    p0: Ppu,
    mid: Ppu,
    fin: Seq<u8>,
    after_bg: Seq<u8>,
    after_win: Seq<u8>,
    yi: int,
)
    requires
        p0.wf(),
        0 <= yi < 144,
        mid.vram@ == p0.vram@,
        mid.lcdc == p0.lcdc,
        mid.wx == p0.wx,
        mid.wy == p0.wy,
        mid.bgp == p0.bgp,
        mid.window_line == p0.window_line,
        after_bg.len() == p0.frame_buffer@.len(),
        after_win.len() == after_bg.len(),
        fin.len() == after_win.len(),
        mid.frame_buffer@ == after_bg,
        p0.lcdc.bg_enable ==> spec_bg_stage(p0, after_bg, yi),
        !p0.lcdc.bg_enable ==> after_bg == p0.frame_buffer@,
        spec_window_rendered(p0, yi) ==> spec_window_stage(mid, after_win, yi),
        !spec_window_rendered(p0, yi) ==> after_win == after_bg,
        p0.lcdc.sprite_enable ==> fin == spec_write_row(
            after_win,
            yi,
            spec_paint_sprites(
                after_win.subrange(160 * yi, 160 * yi + 160),
                spec_bgwin_raw_row(p0, yi),
                p0.scanline_sprites@,
                p0.vram@,
                p0.lcdc,
                p0.obp0,
                p0.obp1,
                yi,
            ),
        ),
        !p0.lcdc.sprite_enable ==> fin == after_win,
    ensures
        fin == spec_write_row(p0.frame_buffer@, yi, spec_rendered_row(p0, p0.scanline_sprites@, yi)),
{
    reveal(spec_bg_stage);
    reveal(spec_window_stage);
    reveal(spec_write_row);
    reveal(spec_paint_sprites);
    reveal(spec_bgwin_row);
    reveal(spec_rendered_row);
    let bw = spec_bgwin_row(p0, yi);
    let base = p0.frame_buffer@.subrange(160 * yi, 160 * yi + 160);
    assert(spec_window_start(mid) == spec_window_start(p0));
    assert forall|x: int| 0 <= x < 160 implies after_win[160 * yi + x] == bw[x] by {
        if !p0.lcdc.bg_enable {
            assert(base[x] == p0.frame_buffer@[160 * yi + x]);
        }
        if spec_window_rendered(p0, yi) {
            lemma_win_pixel_same(mid, p0, x, p0.window_line as int);
        }
    }
    assert(after_win.subrange(160 * yi, 160 * yi + 160) =~= bw);
    assert forall|i: int|
        0 <= i < after_win.len() && !(160 * yi <= i < 160 * yi + 160) implies after_win[i]
        == p0.frame_buffer@[i] by {}
    let row = spec_rendered_row(p0, p0.scanline_sprites@, yi);
    if p0.lcdc.sprite_enable {
        lemma_paint_sprites_len(
            bw,
            spec_bgwin_raw_row(p0, yi),
            p0.scanline_sprites@,
            p0.vram@,
            p0.lcdc,
            p0.obp0,
            p0.obp1,
            yi,
        );
    }
    assert forall|i: int| 0 <= i < fin.len() implies fin[i] == spec_write_row(
        p0.frame_buffer@,
        yi,
        row,
    )[i] by {
        if 160 * yi <= i < 160 * yi + 160 {
            let x = i - 160 * yi;
            if p0.lcdc.sprite_enable {
                assert(fin[i] == row[x]);
            } else {
                assert(fin[i] == after_win[160 * yi + x]);
            }
        } else {
            if p0.lcdc.sprite_enable {
                assert(fin[i] == after_win[i]);
            }
        }
    }
    assert(fin =~= spec_write_row(p0.frame_buffer@, yi, row));
}

impl Ppu {
    /// Reads one pixel out of a tile's bit planes.
    fn get_tile_pixel(&self, tile_data_addr: usize, pixel_x: usize, pixel_y: usize) -> (r: u8)
        requires
            self.wf(),
            tile_data_addr <= 0x8000,
            pixel_x < 8,
            pixel_y < 16,
        ensures
            r == spec_tile_pixel(
                self.vram@,
                tile_data_addr as int,
                pixel_x as int,
                pixel_y as int,
            ),
    {
        let byte_offset: usize = tile_data_addr + pixel_y * 2;
        if byte_offset + 1 >= VRAM_SIZE {
            return 0;
        }
        let low_byte = self.vram[byte_offset];
        let high_byte = self.vram[byte_offset + 1];
        let bit = (7 - pixel_x) as u8;
        (((high_byte >> bit) & 1) << 1) | ((low_byte >> bit) & 1)
    }

    /// Resolves a 2-bit color index through a packed palette register.
    fn apply_palette(&self, color: u8, palette: u8) -> (r: u8)
        ensures
            r == spec_apply_palette(color, palette),
    {
        match color {
            0 => palette % 4,
            1 => (palette / 4) % 4,
            2 => (palette / 16) % 4,
            3 => (palette / 64) % 4,
            _ => 0,
        }
    }

    /// The tile-data address of a tile id under the current background and
    /// window addressing mode: unsigned from 0x8000, or signed around
    /// 0x9000.
    fn tile_data_addr(&self, tile_id: u8) -> (r: usize)
        ensures
            r == (if self.lcdc.bg_window_tiles {
                tile_id * 16
            } else {
                0x1000 + (if tile_id >= 0x80 {
                    tile_id - 256
                } else {
                    tile_id as int
                }) * 16
            }),
            r <= 0x1FF0,
    {
        if self.lcdc.bg_window_tiles {
            tile_id as usize * 16
        } else {
            if tile_id >= 0x80 {
                tile_id as usize * 16
            } else {
                0x1000 + tile_id as usize * 16
            }
        }
    }

    /// Draws the background layer of line y into the framebuffer.
    fn render_background_line(&mut self, y: usize)
        requires
            old(self).wf(),
            y < SCREEN_HEIGHT,
        ensures
            final(self).wf(),
            spec_same_but_frame(*old(self), *final(self)),
            spec_bg_stage(*old(self), final(self).frame_buffer@, y as int),
    {
        proof {
            reveal(spec_bg_stage);
        }
        let scroll_y: usize = self.scy.wrapping_add(y as u8) as usize;
        let tile_y: usize = scroll_y / 8;
        let pixel_y: usize = scroll_y % 8;
        let mut x: usize = 0;
        while x < SCREEN_WIDTH
            invariant
                x <= SCREEN_WIDTH,
                y < SCREEN_HEIGHT,
                scroll_y == (if old(self).scy + y < 256 {
                    old(self).scy + y
                } else {
                    old(self).scy + y - 256
                }),
                tile_y == scroll_y / 8,
                pixel_y == scroll_y % 8,
                old(self).wf(),
                self.wf(),
                *self == (Ppu { frame_buffer: self.frame_buffer, ..*old(self) }),
                forall|i: int|
                    0 <= i < self.frame_buffer@.len() && !(160 * y <= i < 160 * y + x)
                        ==> self.frame_buffer@[i] == old(self).frame_buffer@[i],
                forall|j: int|
                    0 <= j < x ==> self.frame_buffer@[160 * y + j] == spec_bg_pixel(
                        *old(self),
                        j,
                        y as int,
                    ),
            decreases SCREEN_WIDTH - x,
        {
            let scroll_x: usize = self.scx.wrapping_add(x as u8) as usize;
            let tile_x: usize = scroll_x / 8;
            let pixel_x: usize = scroll_x % 8;
            let tile_map_addr: usize = if self.lcdc.bg_tile_map {
                0x1C00
            } else {
                0x1800
            };
            let tile_index: usize = tile_y * 32 + tile_x;
            let tile_id = self.vram[tile_map_addr + tile_index];
            let tile_data_addr = self.tile_data_addr(tile_id);
            let pixel_color = self.get_tile_pixel(tile_data_addr, pixel_x, pixel_y);
            let final_color = self.apply_palette(pixel_color, self.bgp);
            proof {
                reveal(spec_bg_index);
                assert(pixel_color == spec_bg_index(*old(self), x as int, y as int));
            }
            self.frame_buffer[y * 160 + x] = final_color;
            x = x + 1;
        }
    }

    /// Draws the window layer of line y into the framebuffer, reading row
    /// `window_line` of the window plane; does nothing when the window is
    /// off screen or above the line.
    fn render_window_line(&mut self, y: usize)
        requires
            old(self).wf(),
            y < SCREEN_HEIGHT,
        ensures
            final(self).wf(),
            spec_same_but_frame(*old(self), *final(self)),
            old(self).wx >= 167 || y < old(self).wy ==> final(self).frame_buffer@ == old(
                self,
            ).frame_buffer@,
            !(old(self).wx >= 167 || y < old(self).wy) ==> spec_window_stage(
                *old(self),
                final(self).frame_buffer@,
                y as int,
            ),
    {
        proof {
            reveal(spec_window_stage);
        }
        if self.wx >= 167 || y < self.wy as usize {
            return ;
        }
        let wline: usize = self.window_line as usize;
        let tile_y: usize = wline / 8;
        let pixel_y: usize = wline % 8;
        let start_x: usize = if self.wx < 7 {
            0
        } else {
            self.wx as usize - 7
        };
        let mut x: usize = start_x;
        while x < SCREEN_WIDTH
            invariant
                start_x <= x <= SCREEN_WIDTH,
                y < SCREEN_HEIGHT,
                start_x == spec_window_start(*old(self)),
                wline == old(self).window_line,
                tile_y == wline / 8,
                pixel_y == wline % 8,
                old(self).wf(),
                self.wf(),
                *self == (Ppu { frame_buffer: self.frame_buffer, ..*old(self) }),
                forall|i: int|
                    0 <= i < self.frame_buffer@.len() && !(160 * y + start_x <= i < 160 * y + x)
                        ==> self.frame_buffer@[i] == old(self).frame_buffer@[i],
                forall|j: int|
                    start_x <= j < x ==> self.frame_buffer@[160 * y + j] == spec_win_pixel(
                        *old(self),
                        j,
                        old(self).window_line as int,
                    ),
            decreases SCREEN_WIDTH - x,
        {
            let window_x: usize = x - start_x;
            let tile_x: usize = window_x / 8;
            let pixel_x: usize = window_x % 8;
            let tile_map_addr: usize = if self.lcdc.window_tile_map {
                0x1C00
            } else {
                0x1800
            };
            let tile_index: usize = tile_y * 32 + tile_x;
            let tile_id = self.vram[tile_map_addr + tile_index];
            let tile_data_addr = self.tile_data_addr(tile_id);
            let pixel_color = self.get_tile_pixel(tile_data_addr, pixel_x, pixel_y);
            let final_color = self.apply_palette(pixel_color, self.bgp);
            proof {
                reveal(spec_win_index);
                assert(pixel_color == spec_win_index(
                    *old(self),
                    x as int,
                    old(self).window_line as int,
                ));
            }
            self.frame_buffer[y * 160 + x] = final_color;
            x = x + 1;
        }
    }

    /// The raw background-layer color index under screen column x of
    /// line y: the window's index where the window covers the column,
    /// the background's where the background is on, 0 otherwise.
    fn bgwin_index(&self, x: usize, y: usize) -> (r: u8)
        requires
            self.wf(),
            x < SCREEN_WIDTH,
            y < SCREEN_HEIGHT,
        ensures
            r == spec_bgwin_index(*self, x as int, y as int),
    {
        if self.lcdc.window_enable && y >= self.wy as usize && self.wx < 167 && x >= (if self.wx
            < 7 {
            0
        } else {
            self.wx as usize - 7
        }) {
            let start_x: usize = if self.wx < 7 {
                0
            } else {
                self.wx as usize - 7
            };
            let wline: usize = self.window_line as usize;
            let window_x: usize = x - start_x;
            let tile_map_addr: usize = if self.lcdc.window_tile_map {
                0x1C00
            } else {
                0x1800
            };
            let tile_index: usize = (wline / 8) * 32 + window_x / 8;
            let tile_id = self.vram[tile_map_addr + tile_index];
            let tile_data_addr = self.tile_data_addr(tile_id);
            let color = self.get_tile_pixel(tile_data_addr, window_x % 8, wline % 8);
            proof {
                reveal(spec_win_index);
                assert(color == spec_win_index(*self, x as int, self.window_line as int));
            }
            color
        } else if self.lcdc.bg_enable {
            let scroll_y: usize = self.scy.wrapping_add(y as u8) as usize;
            let scroll_x: usize = self.scx.wrapping_add(x as u8) as usize;
            let tile_map_addr: usize = if self.lcdc.bg_tile_map {
                0x1C00
            } else {
                0x1800
            };
            let tile_index: usize = (scroll_y / 8) * 32 + scroll_x / 8;
            let tile_id = self.vram[tile_map_addr + tile_index];
            let tile_data_addr = self.tile_data_addr(tile_id);
            let color = self.get_tile_pixel(tile_data_addr, scroll_x % 8, scroll_y % 8);
            proof {
                reveal(spec_bg_index);
                assert(color == spec_bg_index(*self, x as int, y as int));
            }
            color
        } else {
            0
        }
    }

    /// Paints one sprite of the current line over the framebuffer; `raw`
    /// holds the line's raw background-layer color indices, which decide
    /// where a behind-background sprite may draw.
    fn paint_sprite(&mut self, sprite: Sprite, y: usize, raw: &Vec<u8>)
        requires
            old(self).wf(),
            y < SCREEN_HEIGHT,
            raw@.len() == 160,
            spec_sprite_covers(sprite, y as int, spec_sprite_height(old(self).lcdc)),
        ensures
            final(self).wf(),
            spec_same_but_frame(*old(self), *final(self)),
            final(self).frame_buffer@ == spec_write_row(
                old(self).frame_buffer@,
                y as int,
                spec_paint_sprite(
                    old(self).frame_buffer@.subrange(160 * y, 160 * y + 160),
                    raw@,
                    sprite,
                    old(self).vram@,
                    old(self).lcdc,
                    old(self).obp0,
                    old(self).obp1,
                    y as int,
                ),
            ),
    {
        let ghost row0 = old(self).frame_buffer@.subrange(160 * y, 160 * y + 160);
        let ghost target = spec_paint_sprite(
            row0,
            raw@,
            sprite,
            old(self).vram@,
            old(self).lcdc,
            old(self).obp0,
            old(self).obp1,
            y as int,
        );
        let ghost sx = spec_sprite_left(sprite);
        if sprite.x >= 168 {
            proof {
                reveal(spec_paint_sprite);
                reveal(spec_write_row);
                assert(final(self).frame_buffer@ =~= spec_write_row(
                    old(self).frame_buffer@,
                    y as int,
                    target,
                ));
            }
            return ;
        }
        proof {
            reveal(spec_paint_sprite);
            assert(target.len() == 160);
        }
        let line_in_sprite: usize = (y + 16) - sprite.y as usize;
        let height: usize = if self.lcdc.sprite_size {
            16
        } else {
            8
        };
        let actual_line: usize = if sprite.flip_y() {
            height - 1 - line_in_sprite
        } else {
            line_in_sprite
        };
        let tile_id: usize = if self.lcdc.sprite_size {
            (sprite.tile as usize / 2) * 2
        } else {
            sprite.tile as usize
        };
        let tile_data_addr: usize = tile_id * 16 + actual_line * 2;
        // Columns left of the screen are clipped by starting the pixel
        // walk at the first on-screen column.
        let start_px: usize = if sprite.x >= 8 {
            0
        } else {
            8 - sprite.x as usize
        };
        let mut px: usize = start_px;
        while px < 8 && sprite.x as usize + px < 168
            invariant
                start_px <= px <= 8,
                y < SCREEN_HEIGHT,
                sx == spec_sprite_left(sprite),
                sx == sprite.x - 8,
                sx < SCREEN_WIDTH,
                start_px == (if sprite.x >= 8 {
                    0int
                } else {
                    8 - sprite.x
                }),
                sx + start_px >= 0,
                spec_sprite_covers(sprite, y as int, spec_sprite_height(old(self).lcdc)),
                height == spec_sprite_height(old(self).lcdc),
                line_in_sprite == y - spec_sprite_top(sprite),
                actual_line == (if spec_sprite_flip_y(sprite) {
                    height - 1 - line_in_sprite
                } else {
                    line_in_sprite as int
                }),
                tile_data_addr == (if old(self).lcdc.sprite_size {
                    (sprite.tile / 2) * 2 * 16 + actual_line * 2
                } else {
                    sprite.tile * 16 + actual_line * 2
                }),
                tile_data_addr <= 0x8000,
                row0 == old(self).frame_buffer@.subrange(160 * y, 160 * y + 160),
                raw@.len() == 160,
                target == spec_paint_sprite(
                    row0,
                    raw@,
                    sprite,
                    old(self).vram@,
                    old(self).lcdc,
                    old(self).obp0,
                    old(self).obp1,
                    y as int,
                ),
                target.len() == 160,
                old(self).wf(),
                self.wf(),
                *self == (Ppu { frame_buffer: self.frame_buffer, ..*old(self) }),
                forall|i: int|
                    0 <= i < self.frame_buffer@.len() && !(160 * y + sx + start_px <= i < 160 * y
                        + sx + px && i < 160 * y + 160) ==> self.frame_buffer@[i] == old(
                        self,
                    ).frame_buffer@[i],
                forall|j: int|
                    sx + start_px <= j < sx + px && j < 160 ==> self.frame_buffer@[160 * y + j]
                        == target[j],
            decreases 8 - px,
        {
            let screen_x: usize = sprite.x as usize + px - 8;
            let actual_pixel_x: usize = if sprite.flip_x() {
                7 - px
            } else {
                px
            };
            let ghost xi = screen_x as int;
            proof {
                assert(xi == sx + px);
                assert(self.frame_buffer@[160 * y + xi] == old(self).frame_buffer@[160 * y + xi]);
                assert(row0[xi] == old(self).frame_buffer@[160 * y + xi]);
            }
            let pixel_color = self.get_tile_pixel(tile_data_addr, actual_pixel_x, 0);
            let ghost color = spec_tile_pixel(
                old(self).vram@,
                tile_data_addr as int,
                actual_pixel_x as int,
                0,
            );
            proof {
                reveal(spec_paint_sprite);
                let line_in = y - spec_sprite_top(sprite);
                let actual = if spec_sprite_flip_y(sprite) {
                    spec_sprite_height(old(self).lcdc) - 1 - line_in
                } else {
                    line_in
                };
                let tid: int = if old(self).lcdc.sprite_size {
                    (sprite.tile / 2) * 2
                } else {
                    sprite.tile as int
                };
                assert(tile_data_addr == tid * 16 + actual * 2);
                assert(actual_pixel_x as int == (if spec_sprite_flip_x(sprite) {
                    7 - (xi - spec_sprite_left(sprite))
                } else {
                    xi - spec_sprite_left(sprite)
                }));
                assert(target[xi] == (if color == 0 {
                    row0[xi]
                } else if spec_sprite_priority(sprite) || raw@[xi] == 0 {
                    spec_apply_palette(
                        color,
                        if spec_sprite_palette(sprite) {
                            old(self).obp1
                        } else {
                            old(self).obp0
                        },
                    )
                } else {
                    row0[xi]
                }));
            }
            if pixel_color != 0 {
                let under_raw = raw[screen_x];
                if sprite.priority() || under_raw == 0 {
                    let palette = if sprite.palette() {
                        self.obp1
                    } else {
                        self.obp0
                    };
                    let final_color = self.apply_palette(pixel_color, palette);
                    self.frame_buffer[y * 160 + screen_x] = final_color;
                }
            }
            proof {
                assert(self.frame_buffer@[160 * y + xi] == target[xi]);
            }
            px = px + 1;
        }
        proof {
            reveal(spec_paint_sprite);
            reveal(spec_write_row);
            let result = spec_write_row(old(self).frame_buffer@, y as int, target);
            assert forall|i: int| 0 <= i < self.frame_buffer@.len() implies self.frame_buffer@[i]
                == result[i] by {
                if 160 * y <= i < 160 * y + 160 {
                    let x = i - 160 * y;
                    if sx <= x < sx + 8 {
                        assert(sx + start_px <= x < sx + px);
                        assert(self.frame_buffer@[160 * y + x] == target[x]);
                    } else {
                        assert(target[x] == row0[x]);
                        assert(row0[x] == old(self).frame_buffer@[160 * y + x]);
                    }
                }
            }
            assert(self.frame_buffer@ =~= result);
        }
    }

    /// Paints the kept sprites of line y, the last kept entry first, so
    /// the earliest OAM entry wins ties.
    fn render_sprites_line(&mut self, y: usize)
        requires
            old(self).wf(),
            y < SCREEN_HEIGHT,
            forall|k: int|
                0 <= k < old(self).scanline_sprites@.len() ==> spec_sprite_covers(
                    #[trigger] old(self).scanline_sprites@[k],
                    y as int,
                    spec_sprite_height(old(self).lcdc),
                ),
        ensures
            final(self).wf(),
            spec_same_but_frame(*old(self), *final(self)),
            final(self).frame_buffer@ == spec_write_row(
                old(self).frame_buffer@,
                y as int,
                spec_paint_sprites(
                    old(self).frame_buffer@.subrange(160 * y, 160 * y + 160),
                    spec_bgwin_raw_row(*old(self), y as int),
                    old(self).scanline_sprites@,
                    old(self).vram@,
                    old(self).lcdc,
                    old(self).obp0,
                    old(self).obp1,
                    y as int,
                ),
            ),
    {
        let ghost row0 = old(self).frame_buffer@.subrange(160 * y, 160 * y + 160);
        let ghost sprites = old(self).scanline_sprites@;
        let ghost rawr = spec_bgwin_raw_row(*old(self), y as int);
        let raw = self.raw_index_row(y);
        proof {
            assert(raw@ == rawr);
        }
        let n: usize = self.scanline_sprites.len();
        let mut j: usize = n;
        proof {
            reveal(spec_write_row);
            reveal(spec_paint_sprites);
            assert(sprites.subrange(n as int, n as int) =~= Seq::<Sprite>::empty());
            assert(self.frame_buffer@ =~= spec_write_row(
                old(self).frame_buffer@,
                y as int,
                spec_paint_sprites(
                    row0,
                    rawr,
                    sprites.subrange(n as int, n as int),
                    old(self).vram@,
                    old(self).lcdc,
                    old(self).obp0,
                    old(self).obp1,
                    y as int,
                ),
            ));
        }
        while j > 0
            invariant
                j <= n,
                n == sprites.len(),
                y < SCREEN_HEIGHT,
                row0 == old(self).frame_buffer@.subrange(160 * y, 160 * y + 160),
                sprites == old(self).scanline_sprites@,
                rawr == spec_bgwin_raw_row(*old(self), y as int),
                raw@ == rawr,
                raw@.len() == 160,
                forall|k: int|
                    0 <= k < sprites.len() ==> spec_sprite_covers(
                        #[trigger] sprites[k],
                        y as int,
                        spec_sprite_height(old(self).lcdc),
                    ),
                self.wf(),
                *self == (Ppu { frame_buffer: self.frame_buffer, ..*old(self) }),
                self.frame_buffer@ == spec_write_row(
                    old(self).frame_buffer@,
                    y as int,
                    spec_paint_sprites(
                        row0,
                        rawr,
                        sprites.subrange(j as int, n as int),
                        old(self).vram@,
                        old(self).lcdc,
                        old(self).obp0,
                        old(self).obp1,
                        y as int,
                    ),
                ),
            decreases j,
        {
            j = j - 1;
            let sprite = self.scanline_sprites[j];
            let ghost acc = spec_paint_sprites(
                row0,
                rawr,
                sprites.subrange(j + 1, n as int),
                old(self).vram@,
                old(self).lcdc,
                old(self).obp0,
                old(self).obp1,
                y as int,
            );
            proof {
                reveal(spec_write_row);
                reveal(spec_paint_sprites);
                lemma_paint_sprites_len(
                    row0,
                    rawr,
                    sprites.subrange(j + 1, n as int),
                    old(self).vram@,
                    old(self).lcdc,
                    old(self).obp0,
                    old(self).obp1,
                    y as int,
                );
                assert(self.frame_buffer@.subrange(160 * y, 160 * y + 160) =~= acc);
            }
            self.paint_sprite(sprite, y, &raw);
            proof {
                reveal(spec_write_row);
                reveal(spec_paint_sprites);
                let sub = sprites.subrange(j as int, n as int);
                assert(sub.first() == sprites[j as int]);
                assert(sub.drop_first() =~= sprites.subrange(j + 1, n as int));
                assert(spec_paint_sprites(
                    row0,
                    rawr,
                    sub,
                    old(self).vram@,
                    old(self).lcdc,
                    old(self).obp0,
                    old(self).obp1,
                    y as int,
                ) == spec_paint_sprite(
                    acc,
                    rawr,
                    sprites[j as int],
                    old(self).vram@,
                    old(self).lcdc,
                    old(self).obp0,
                    old(self).obp1,
                    y as int,
                ));
                assert(self.frame_buffer@ =~= spec_write_row(
                    old(self).frame_buffer@,
                    y as int,
                    spec_paint_sprites(
                        row0,
                        rawr,
                        sprites.subrange(j as int, n as int),
                        old(self).vram@,
                        old(self).lcdc,
                        old(self).obp0,
                        old(self).obp1,
                        y as int,
                    ),
                ));
            }
        }
        proof {
            reveal(spec_write_row);
            reveal(spec_paint_sprites);
            assert(sprites.subrange(0, n as int) =~= sprites);
        }
    }

    /// Builds the line's raw background-layer index row, one byte per
    /// screen column.
    fn raw_index_row(&self, y: usize) -> (raw: Vec<u8>)
        requires
            self.wf(),
            y < SCREEN_HEIGHT,
        ensures
            raw@ == spec_bgwin_raw_row(*self, y as int),
            raw@.len() == 160,
    {
        let mut raw: Vec<u8> = Vec::new();
        let mut x: usize = 0;
        while x < SCREEN_WIDTH
            invariant
                x <= SCREEN_WIDTH,
                self.wf(),
                y < SCREEN_HEIGHT,
                raw@.len() == x,
                forall|i: int| 0 <= i < x ==> raw@[i] == spec_bgwin_index(*self, i, y as int),
            decreases SCREEN_WIDTH - x,
        {
            let v = self.bgwin_index(x, y);
            raw.push(v);
            x = x + 1;
        }
        proof {
            reveal(spec_bgwin_raw_row);
            assert(raw@ =~= spec_bgwin_raw_row(*self, y as int));
        }
        raw
    }

    /// Scans OAM for the sprites whose vertical extent covers the current
    /// line, keeping at most ten in OAM order; with sprites disabled the
    /// kept list is empty.
    fn scan_oam(&mut self)
        requires
            old(self).wf(),
            old(self).ly <= 143,
        ensures
            final(self).wf(),
            *final(self) == (Ppu {
                scanline_sprites: final(self).scanline_sprites,
                ..*old(self)
            }),
            final(self).scanline_sprites@ == spec_line_sprites(*old(self), old(self).ly as int),
    {
        self.scanline_sprites = Vec::new();
        if !self.lcdc.sprite_enable {
            return ;
        }
        let height: u16 = if self.lcdc.sprite_size {
            16
        } else {
            8
        };
        let ghost oam0 = self.oam@;
        let ghost ly = self.ly as int;
        let ghost h = spec_sprite_height(self.lcdc);
        let mut i: usize = 0;
        while i < MAX_SPRITES && self.scanline_sprites.len() < MAX_SPRITES_PER_LINE
            invariant
                i <= MAX_SPRITES,
                old(self).wf(),
                self.wf(),
                height == h,
                ly == old(self).ly as int,
                old(self).lcdc.sprite_enable,
                h == spec_sprite_height(old(self).lcdc),
                oam0 == old(self).oam@,
                *self == (Ppu { scanline_sprites: self.scanline_sprites, ..*old(self) }),
                self.scanline_sprites@.len() <= MAX_SPRITES_PER_LINE,
                spec_scan(oam0, ly, h, 0, MAX_SPRITES_PER_LINE as nat) == self.scanline_sprites@
                    + spec_scan(
                    oam0,
                    ly,
                    h,
                    i as nat,
                    (MAX_SPRITES_PER_LINE - self.scanline_sprites@.len()) as nat,
                ),
            decreases MAX_SPRITES - i,
        {
            let sprite = Sprite {
                y: self.oam[i * 4],
                x: self.oam[i * 4 + 1],
                tile: self.oam[i * 4 + 2],
                flags: self.oam[i * 4 + 3],
            };
            proof {
                assert(sprite == spec_sprite_at(oam0, i as int));
            }
            let ghost before = self.scanline_sprites@;
            let ghost room = (MAX_SPRITES_PER_LINE - before.len()) as nat;
            if (self.ly as u16) + 16 >= sprite.y as u16 && (self.ly as u16) + 16 < sprite.y as u16
                + height {
                self.scanline_sprites.push(sprite);
                proof {
                    assert(spec_sprite_covers(sprite, ly, h));
                    assert(spec_scan(oam0, ly, h, i as nat, room) == seq![sprite] + spec_scan(
                        oam0,
                        ly,
                        h,
                        (i + 1) as nat,
                        (room - 1) as nat,
                    ));
                    assert(before + spec_scan(oam0, ly, h, i as nat, room) =~= before
                        + seq![sprite] + spec_scan(oam0, ly, h, (i + 1) as nat, (room - 1) as nat));
                    assert(self.scanline_sprites@ =~= before + seq![sprite]);
                }
            } else {
                proof {
                    assert(!spec_sprite_covers(sprite, ly, h));
                    assert(spec_scan(oam0, ly, h, i as nat, room) == spec_scan(
                        oam0,
                        ly,
                        h,
                        (i + 1) as nat,
                        room,
                    ));
                }
            }
            i = i + 1;
        }
        proof {
            let room = (MAX_SPRITES_PER_LINE - self.scanline_sprites@.len()) as nat;
            assert(spec_scan(oam0, ly, h, i as nat, room) =~= Seq::<Sprite>::empty());
            assert(self.scanline_sprites@ + Seq::<Sprite>::empty() =~= self.scanline_sprites@);
        }
    }

    /// Renders one visible line: the background layer, the window layer
    /// (advancing the window's internal line counter when drawn), and the
    /// kept sprites.
    #[verifier::rlimit(100)]
    #[verifier::spinoff_prover]
    fn render_scanline(&mut self)
        requires
            old(self).wf(),
            old(self).ly <= 143,
            forall|k: int|
                0 <= k < old(self).scanline_sprites@.len() ==> spec_sprite_covers(
                    #[trigger] old(self).scanline_sprites@[k],
                    old(self).ly as int,
                    spec_sprite_height(old(self).lcdc),
                ),
        ensures
            final(self).wf(),
            spec_same_but_frame(
                Ppu { window_line: final(self).window_line, ..*old(self) },
                *final(self),
            ),
            final(self).frame_buffer@ == spec_write_row(
                old(self).frame_buffer@,
                old(self).ly as int,
                spec_rendered_row(*old(self), old(self).scanline_sprites@, old(self).ly as int),
            ),
            final(self).window_line == (if spec_window_rendered(*old(self), old(self).ly as int) {
                vstd::wrapping::u8_specs::wrapping_add(old(self).window_line, 1)
            } else {
                old(self).window_line
            }),
    {
        let y: usize = self.ly as usize;
        let ghost p0 = *old(self);
        let ghost yi = y as int;
        let ghost bw = spec_bgwin_row(p0, yi);
        if self.lcdc.bg_enable {
            self.render_background_line(y);
        }
        let ghost mid = *self;
        let ghost after_bg = self.frame_buffer@;
        if self.lcdc.window_enable && self.ly >= self.wy {
            self.render_window_line(y);
        }
        let ghost after_win = self.frame_buffer@;
        proof {
            assert(self.scanline_sprites@ == p0.scanline_sprites@);
            assert(self.lcdc == p0.lcdc);
            assert forall|k: int| 0 <= k < self.scanline_sprites@.len() implies spec_sprite_covers(
                #[trigger] self.scanline_sprites@[k],
                y as int,
                spec_sprite_height(self.lcdc),
            ) by {
                assert(spec_sprite_covers(p0.scanline_sprites@[k], yi, spec_sprite_height(p0.lcdc)));
            }
        }
        let ghost late = *self;
        if self.lcdc.sprite_enable {
            self.render_sprites_line(y);
        }
        proof {
            lemma_raw_row_same(late, p0, yi);
            lemma_compose_line(p0, mid, self.frame_buffer@, after_bg, after_win, yi);
        }
        if self.lcdc.window_enable && self.ly >= self.wy && self.wx < 167 {
            self.window_line = self.window_line.wrapping_add(1);
        }
    }
}

/// Whether the line processed k lines after starting at ly is the one
/// that crosses from 143 into the vertical blank.
pub open spec fn spec_crosses_vblank(ly: int, k: int) -> bool {
    (ly + k) % 154 == 143
}

/// The rendered row reads only VRAM, the control and scroll registers and
/// the framebuffer, so states that agree on those agree on the row.
pub proof fn lemma_rendered_row_same(p1: Ppu, p2: Ppu, sprites: Seq<Sprite>, y: int)
    requires
        p1.vram@ == p2.vram@,
        p1.lcdc == p2.lcdc,
        p1.scy == p2.scy,
        p1.scx == p2.scx,
        p1.wy == p2.wy,
        p1.wx == p2.wx,
        p1.bgp == p2.bgp,
        p1.obp0 == p2.obp0,
        p1.obp1 == p2.obp1,
        p1.window_line == p2.window_line,
        p1.frame_buffer@ == p2.frame_buffer@,
    ensures
        spec_rendered_row(p1, sprites, y) == spec_rendered_row(p2, sprites, y),
{
    reveal(spec_rendered_row);
    reveal(spec_bgwin_row);
    reveal(spec_bg_index);
    reveal(spec_win_index);
    let b1 = spec_bgwin_row(p1, y);
    let b2 = spec_bgwin_row(p2, y);
    assert(b1 =~= b2);
    lemma_raw_row_same(p1, p2, y);
}

/// A chain of whole scanlines: n in a row, each state related to the
/// next by the single-line relation, through some sequence of
/// intermediate states.  (The relation is silent on the cycle
/// accumulator, which the step loop owns.)
pub open spec fn spec_lines_rel(pre: Ppu, post: Ppu, n: int) -> bool {
    exists|chain: Seq<Ppu>|
        #![trigger chain.len()]
        {
            &&& chain.len() == n + 1
            &&& chain.first() == pre
            &&& chain.last() == post
            &&& (forall|j: int| 0 <= j < n ==> #[trigger] spec_line_rel(chain[j], chain[j + 1]))
        }
}

/// One scanline is a chain of length one.
proof fn lemma_lines_one(pre: Ppu, post: Ppu)
    requires
        spec_line_rel(pre, post),
    ensures
        spec_lines_rel(pre, post, 1),
{
    let chain: Seq<Ppu> = seq![pre, post];
    assert(chain.len() == 2);
    assert(forall|j: int| 0 <= j < 1 ==> #[trigger] spec_line_rel(chain[j], chain[j + 1]));
}

/// The single-line relation is silent on the cycle accumulator, so a
/// post state that differs only there satisfies it too.
proof fn lemma_line_rel_retime(pre: Ppu, post1: Ppu, post2: Ppu)
    requires
        spec_line_rel(pre, post1),
        post2 == (Ppu { cycles: post2.cycles, ..post1 }),
    ensures
        spec_line_rel(pre, post2),
{
}

/// A chain of scanlines tolerates a changed cycle accumulator on its
/// final state, for the same reason.
proof fn lemma_lines_retime(pre: Ppu, post1: Ppu, post2: Ppu, n: int)
    requires
        n >= 1,
        spec_lines_rel(pre, post1, n),
        post2 == (Ppu { cycles: post2.cycles, ..post1 }),
    ensures
        spec_lines_rel(pre, post2, n),
{
    let chain = choose|c: Seq<Ppu>|
        #![trigger c.len()]
        {
            &&& c.len() == n + 1
            &&& c.first() == pre
            &&& c.last() == post1
            &&& (forall|j: int| 0 <= j < n ==> #[trigger] spec_line_rel(c[j], c[j + 1]))
        };
    let chain2 = chain.update(n, post2);
    assert(chain2.len() == n + 1);
    assert(chain2.first() == pre);
    assert(chain2.last() == post2);
    assert forall|j: int| 0 <= j < n implies #[trigger] spec_line_rel(
        chain2[j],
        chain2[j + 1],
    ) by {
        if j + 1 < n {
            assert(chain2[j] == chain[j]);
            assert(chain2[j + 1] == chain[j + 1]);
        } else {
            assert(chain2[j] == chain[j]);
            assert(chain[n] == post1);
            lemma_line_rel_retime(chain[j], post1, post2);
        }
    }
}

/// Extends a chain of scanlines by one more at the end.
proof fn lemma_lines_snoc(pre: Ppu, mid: Ppu, post: Ppu, n: int)
    requires
        n >= 1,
        spec_lines_rel(pre, mid, n),
        spec_line_rel(mid, post),
    ensures
        spec_lines_rel(pre, post, n + 1),
{
    let chain = choose|c: Seq<Ppu>|
        #![trigger c.len()]
        {
            &&& c.len() == n + 1
            &&& c.first() == pre
            &&& c.last() == mid
            &&& (forall|j: int| 0 <= j < n ==> #[trigger] spec_line_rel(c[j], c[j + 1]))
        };
    let chain2 = chain.push(post);
    assert(chain2.len() == (n + 1) + 1);
    assert(chain2.first() == pre);
    assert(chain2.last() == post);
    assert forall|j: int| 0 <= j < n + 1 implies #[trigger] spec_line_rel(
        chain2[j],
        chain2[j + 1],
    ) by {
        if j < n {
            assert(chain2[j] == chain[j]);
            assert(chain2[j + 1] == chain[j + 1]);
        } else {
            assert(chain2[n] == chain[n]);
            assert(chain[n] == chain.last());
            assert(chain2[n + 1] == post);
        }
    }
}

/// The observable mode after a number of completed scanlines, given the
/// final LY: a fresh frame rests in the OAM scan, a completed visible
/// line in HBlank, line 144 enters the vertical blank; deeper blank
/// lines keep VBlank unless the step started inside the blank and never
/// wrapped, in which case no mode event fired at all.
pub open spec fn spec_mode_after(ly0: u8, mode0: PpuMode, lines: int, ly1: u8) -> PpuMode {
    if ly1 == 0 {
        PpuMode::OamScan
    } else if 1 <= ly1 <= 143 {
        PpuMode::HBlank
    } else if ly1 == 144 {
        PpuMode::VBlank
    } else if ly0 >= 144 && ly0 + lines == ly1 {
        mode0
    } else {
        PpuMode::VBlank
    }
}

/// How one whole scanline transforms the PPU state: the line is rendered
/// (when visible), LY advances and wraps after 153, the mode walks its
/// machine, the LY=LYC flag is recomputed, and the VBlank and STAT
/// interrupt requests are latched.  The cycle accumulator is not covered
/// here; the step loop owns it.
pub open spec fn spec_line_rel(pre: Ppu, post: Ppu) -> bool {
    let visible = pre.ly <= 143;
    let wrapped = pre.ly >= 153;
    let new_ly: u8 = if pre.ly >= 153 {
        0u8
    } else {
        (pre.ly + 1) as u8
    };
    let sprites = spec_line_sprites(pre, pre.ly as int);
    let mode1 = if wrapped {
        PpuMode::OamScan
    } else if new_ly == 144 && visible {
        PpuMode::VBlank
    } else if visible {
        PpuMode::HBlank
    } else {
        pre.mode
    };
    let stat_mode1 = if visible || wrapped {
        mode1
    } else {
        pre.stat.mode
    };
    let lyc_flag1 = new_ly == pre.lyc;
    let line_level = (pre.stat.lyc_interrupt && lyc_flag1) || (match mode1 {
        PpuMode::HBlank => pre.stat.hblank_interrupt,
        PpuMode::VBlank => pre.stat.vblank_interrupt,
        PpuMode::OamScan => pre.stat.oam_interrupt,
        PpuMode::Drawing => false,
    });
    &&& post.vram == pre.vram
    &&& post.oam == pre.oam
    &&& post.lcdc == pre.lcdc
    &&& post.scy == pre.scy
    &&& post.scx == pre.scx
    &&& post.lyc == pre.lyc
    &&& post.wy == pre.wy
    &&& post.wx == pre.wx
    &&& post.bgp == pre.bgp
    &&& post.obp0 == pre.obp0
    &&& post.obp1 == pre.obp1
    &&& post.ly == new_ly
    &&& post.mode == mode1
    &&& post.stat == (StatFlags { mode: stat_mode1, lyc_flag: lyc_flag1, ..pre.stat })
    &&& post.vblank_interrupt == (pre.vblank_interrupt || (visible && new_ly == 144))
    &&& post.stat_interrupt == (pre.stat_interrupt || (lyc_flag1 && pre.stat.lyc_interrupt) || (
    line_level && !pre.prev_stat_line))
    &&& post.prev_stat_line == line_level
    &&& post.window_line == (if wrapped {
        0u8
    } else if visible && spec_window_rendered(pre, pre.ly as int) {
        vstd::wrapping::u8_specs::wrapping_add(pre.window_line, 1)
    } else {
        pre.window_line
    })
    &&& post.scanline_sprites@ == (if visible {
        sprites
    } else {
        pre.scanline_sprites@
    })
    &&& post.frame_buffer@ == (if visible {
        spec_write_row(
            pre.frame_buffer@,
            pre.ly as int,
            spec_rendered_row(pre, sprites, pre.ly as int),
        )
    } else {
        pre.frame_buffer@
    })
}

impl Ppu {
    /// Performs one whole scanline: on a visible line the OAM scan, the
    /// render and the mode walk to HBlank (or into VBlank at line 144);
    /// on a VBlank line just the LY advance, wrapping to a fresh frame
    /// after line 153.  Ends with the edge-triggered STAT check.
    fn advance_line(&mut self)
        requires
            old(self).wf(),
        ensures
            final(self).wf(),
            final(self).cycles == old(self).cycles,
            spec_line_rel(*old(self), *final(self)),
    {
        if self.ly <= 143 {
            self.set_mode(PpuMode::OamScan);
            self.scan_oam();
            self.set_mode(PpuMode::Drawing);
            proof {
                lemma_scan_covers(
                    old(self).oam@,
                    old(self).ly as int,
                    spec_sprite_height(old(self).lcdc),
                    0,
                    MAX_SPRITES_PER_LINE as nat,
                );
            }
            let ghost before_render = *self;
            self.render_scanline();
            proof {
                lemma_rendered_row_same(
                    before_render,
                    *old(self),
                    before_render.scanline_sprites@,
                    old(self).ly as int,
                );
            }
            self.set_mode(PpuMode::HBlank);
            self.ly = self.ly + 1;
            self.update_lyc_flag();
            if self.ly == 144 {
                self.set_mode(PpuMode::VBlank);
                self.vblank_interrupt = true;
            }
        } else {
            self.ly = self.ly + 1;
            if self.ly >= 154 {
                self.ly = 0;
                self.window_line = 0;
                self.set_mode(PpuMode::OamScan);
            }
            self.update_lyc_flag();
        }
        self.check_stat_interrupts();
    }

    /// Advances the picture processor by a number of T-cycles.  While the
    /// LCD is enabled, every full 456 accumulated T-cycles complete one
    /// scanline; LY therefore advances by the number of completed lines,
    /// modulo the 154-line frame, and the VBlank request is latched
    /// exactly when some completed line crossed from 143 into 144.
    pub fn step(&mut self, cycles: u16)
        requires
            old(self).wf(),
        ensures
            final(self).wf(),
            !old(self).lcdc.lcd_enable ==> *final(self) == *old(self),
            old(self).lcdc.lcd_enable ==> {
                let total = old(self).cycles + cycles;
                let lines = total / 456;
                &&& final(self).cycles == total % 456
                &&& final(self).ly == (old(self).ly + lines) % 154
                &&& final(self).vram == old(self).vram
                &&& final(self).oam == old(self).oam
                &&& final(self).lcdc == old(self).lcdc
                &&& final(self).scy == old(self).scy
                &&& final(self).scx == old(self).scx
                &&& final(self).lyc == old(self).lyc
                &&& final(self).wy == old(self).wy
                &&& final(self).wx == old(self).wx
                &&& final(self).bgp == old(self).bgp
                &&& final(self).obp0 == old(self).obp0
                &&& final(self).obp1 == old(self).obp1
                &&& (final(self).vblank_interrupt <==> (old(self).vblank_interrupt || exists|
                    k: int,
                |
                    0 <= k < lines && #[trigger] spec_crosses_vblank(old(self).ly as int, k)))
                &&& (old(self).stat_interrupt ==> final(self).stat_interrupt)
                &&& (lines == 0 ==> *final(self) == (Ppu {
                    cycles: final(self).cycles,
                    ..*old(self)
                }))
                &&& (lines > 0 ==> final(self).mode == spec_mode_after(
                    old(self).ly,
                    old(self).mode,
                    lines,
                    final(self).ly,
                ))
                &&& (lines > 0 ==> final(self).stat.mode == spec_mode_after(
                    old(self).ly,
                    old(self).stat.mode,
                    lines,
                    final(self).ly,
                ))
                &&& (lines >= 1 ==> spec_lines_rel(*old(self), *final(self), lines))
                &&& (lines == 1 ==> spec_line_rel(*old(self), *final(self)))
            },
    {
        if !self.lcdc.lcd_enable {
            return ;
        }
        let ghost p0 = *old(self);
        let mut total: u32 = self.cycles as u32 + cycles as u32;
        let ghost lines = ((p0.cycles + cycles) / 456) as int;
        let mut done: u32 = 0;
        while total >= 456
            invariant
                p0.wf(),
                self.wf(),
                total + 456 * done == p0.cycles + cycles,
                self.lcdc == p0.lcdc,
                self.cycles == p0.cycles,
                self.vram == p0.vram,
                self.oam == p0.oam,
                self.scy == p0.scy,
                self.scx == p0.scx,
                self.lyc == p0.lyc,
                self.wy == p0.wy,
                self.wx == p0.wx,
                self.bgp == p0.bgp,
                self.obp0 == p0.obp0,
                self.obp1 == p0.obp1,
                self.ly == (p0.ly + done) % 154,
                done > 0 ==> self.mode == spec_mode_after(p0.ly, p0.mode, done as int, self.ly),
                done > 0 ==> self.stat.mode == spec_mode_after(
                    p0.ly,
                    p0.stat.mode,
                    done as int,
                    self.ly,
                ),
                self.vblank_interrupt <==> (p0.vblank_interrupt || exists|k: int|
                    0 <= k < done && #[trigger] spec_crosses_vblank(p0.ly as int, k)),
                p0.stat_interrupt ==> self.stat_interrupt,
                done == 0 ==> *self == p0,
                done >= 1 ==> spec_lines_rel(p0, *self, done as int),
                done == 1 ==> spec_line_rel(p0, *self),
            decreases total,
        {
            let ghost pre = *self;
            let ghost done0 = done as int;
            self.advance_line();
            total = total - 456;
            done = done + 1;
            proof {
                if done0 >= 1 {
                    lemma_lines_snoc(p0, pre, *self, done0);
                } else {
                    lemma_lines_one(p0, *self);
                }
                assert(pre.ly == (p0.ly + done0) % 154);
                if pre.ly >= 153 {
                    assert(self.ly == 0);
                    assert((p0.ly + done0 + 1) % 154 == 0) by {
                        assert((p0.ly + done0) % 154 == 153);
                        vstd::arithmetic::div_mod::lemma_add_mod_noop(
                            p0.ly + done0,
                            1,
                            154,
                        );
                    }
                } else {
                    assert(self.ly == pre.ly + 1);
                    assert((p0.ly + done0 + 1) % 154 == pre.ly + 1) by {
                        vstd::arithmetic::div_mod::lemma_add_mod_noop(
                            p0.ly + done0,
                            1,
                            154,
                        );
                        assert((pre.ly + 1) % 154 == pre.ly + 1) by {
                            vstd::arithmetic::div_mod::lemma_small_mod(
                                (pre.ly + 1) as nat,
                                154,
                            );
                        };
                    }
                }
                assert(self.ly == (p0.ly + done) % 154);
                if self.vblank_interrupt && !pre.vblank_interrupt {
                    assert(pre.ly <= 143 && pre.ly + 1 == 144);
                    assert(spec_crosses_vblank(p0.ly as int, done0));
                }
                if exists|k: int| 0 <= k < done && #[trigger] spec_crosses_vblank(
                    p0.ly as int,
                    k,
                ) {
                    let k = choose|k: int|
                        0 <= k < done && #[trigger] spec_crosses_vblank(p0.ly as int, k);
                    if k < done0 {
                        assert(pre.vblank_interrupt);
                        assert(self.vblank_interrupt);
                    } else {
                        assert(k == done0);
                        assert(pre.ly == 143);
                        assert(self.vblank_interrupt);
                    }
                }
            }
        }
        let ghost before_retime = *self;
        self.cycles = total as u16;
        proof {
            vstd::arithmetic::div_mod::lemma_fundamental_div_mod_converse(
                (p0.cycles + cycles) as int,
                456,
                done as int,
                total as int,
            );
            if done >= 1 {
                lemma_lines_retime(p0, before_retime, *self, done as int);
            }
        }
    }
}

/// How a PPU register write relates the machine before and after:
/// LY writes are discarded, STAT keeps its read-only low bits, an LCD
/// disable resets the scanline machine, a LYC write recomputes the
/// coincidence flag, and the rest are plain register stores.
pub open spec fn spec_ppu_write_rel(pre: Ppu, post: Ppu, addr: u16, value: u8) -> bool {
    &&& post.vram == pre.vram
    &&& post.oam == pre.oam
    &&& post.frame_buffer == pre.frame_buffer
    &&& post.scanline_sprites == pre.scanline_sprites
    &&& post.vblank_interrupt == pre.vblank_interrupt
    &&& post.prev_stat_line == pre.prev_stat_line
    &&& addr == 0xFF40 ==> {
                let new_lcdc = spec_lcdc_from_byte(value);
                let disabled = pre.lcdc.lcd_enable && !new_lcdc.lcd_enable;
                &&& post.lcdc == new_lcdc
                &&& post.ly == (if disabled {
                    0u8
                } else {
                    pre.ly
                })
                &&& post.cycles == (if disabled {
                    0u16
                } else {
                    pre.cycles
                })
                &&& post.window_line == (if disabled {
                    0u8
                } else {
                    pre.window_line
                })
                &&& post.mode == (if disabled {
                    PpuMode::HBlank
                } else {
                    pre.mode
                })
                &&& post.stat == (if disabled {
                    StatFlags { mode: PpuMode::HBlank, ..pre.stat }
                } else {
                    pre.stat
                })
                &&& post.scy == pre.scy && post.scx == pre.scx
                    && post.lyc == pre.lyc && post.wy == pre.wy
                    && post.wx == pre.wx && post.bgp == pre.bgp
                    && post.obp0 == pre.obp0 && post.obp1 == pre.obp1
                    && post.stat_interrupt == pre.stat_interrupt
            }
    &&& addr == 0xFF41 ==> post == (Ppu {
                stat: spec_stat_from_byte(
                    ((value & 0x78) | (spec_stat_to_byte(pre.stat) & 0x87)) as u8,
                ),
                ..pre
            })
    &&& addr == 0xFF42 ==> post == (Ppu { scy: value, ..pre })
    &&& addr == 0xFF43 ==> post == (Ppu { scx: value, ..pre })
    &&& addr == 0xFF45 ==> post == (Ppu {
                lyc: value,
                stat: StatFlags { lyc_flag: pre.ly == value, ..pre.stat },
                stat_interrupt: pre.stat_interrupt || (pre.ly == value
                    && pre.stat.lyc_interrupt),
                ..pre
            })
    &&& addr == 0xFF4A ==> post == (Ppu { wy: value, ..pre })
    &&& addr == 0xFF4B ==> post == (Ppu { wx: value, ..pre })
    &&& addr == 0xFF47 ==> post == (Ppu { bgp: value, ..pre })
    &&& addr == 0xFF48 ==> post == (Ppu { obp0: value, ..pre })
    &&& addr == 0xFF49 ==> post == (Ppu { obp1: value, ..pre })
    &&& !(addr == 0xFF40 || addr == 0xFF41 || addr == 0xFF42 || addr == 0xFF43 || addr
                == 0xFF45 || addr == 0xFF47 || addr == 0xFF48 || addr == 0xFF49 || addr == 0xFF4A
                || addr == 0xFF4B) ==> post == pre
}

impl Ppu {
    /// Writes a PPU register.  LY is read-only and writes to it are
    /// discarded; STAT keeps its read-only low three bits; turning the
    /// LCD off resets the scanline machine to line 0 in HBlank; a write
    /// to LYC recomputes the coincidence flag at once.
    pub fn write_register(&mut self, addr: u16, value: u8)
        requires
            old(self).wf(),
        ensures
            final(self).wf(),
            spec_ppu_write_rel(*old(self), *final(self), addr, value),
    {
        match addr {
            0xFF40 => {
                let old_enable = self.lcdc.lcd_enable;
                self.lcdc = LcdcFlags::from_byte(value);
                if old_enable && !self.lcdc.lcd_enable {
                    self.ly = 0;
                    self.cycles = 0;
                    self.window_line = 0;
                    self.mode = PpuMode::HBlank;
                    self.stat.mode = PpuMode::HBlank;
                }
            },
            0xFF41 => {
                let old_stat = self.stat.to_byte();
                let new_stat = (value & 0x78) | (old_stat & 0x87);
                self.stat = StatFlags::from_byte(new_stat);
            },
            0xFF42 => {
                self.scy = value;
            },
            0xFF43 => {
                self.scx = value;
            },
            0xFF45 => {
                self.lyc = value;
                self.update_lyc_flag();
            },
            0xFF4A => {
                self.wy = value;
            },
            0xFF4B => {
                self.wx = value;
            },
            0xFF47 => {
                self.bgp = value;
            },
            0xFF48 => {
                self.obp0 = value;
            },
            0xFF49 => {
                self.obp1 = value;
            },
            _ => {},
        }
    }
}

} // verus!
