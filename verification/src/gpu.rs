//! The video peripheral: owns VRAM, OAM and the LCD registers, and exposes the
//! byte load/store surface the memory bus delegates to, plus an out-of-core
//! rasterization step that unpacks tile data into an RGB framebuffer.

use vstd::prelude::*;

verus! {

use vstd::arithmetic::div_mod::{
    lemma_fundamental_div_mod, lemma_fundamental_div_mod_converse, lemma_mod_bound,
};

/// Mathematical view of the video peripheral.
pub struct GpuSnap {
    pub lcd_control: u8,
    pub lcd_status: u8,
    pub scroll_x: u8,
    pub scroll_y: u8,
    pub ly: u8,
    pub lyc: u8,
    pub bg_palette: u8,
    pub sprite_palette_0: u8,
    pub sprite_palette_1: u8,
    pub window_x: u8,
    pub window_y: u8,
    pub oam: Seq<u8>,
    pub vram: Seq<u8>,
    pub new_frame: bool,
    pub frame_content: Seq<u8>,
}

pub struct Gpu {
    pub lcd_control: u8,
    pub lcd_status: u8,
    pub scroll_x: u8,
    pub scroll_y: u8,
    pub ly: u8,
    pub lyc: u8,
    pub bg_palette: u8,
    pub sprite_palette_0: u8,
    pub sprite_palette_1: u8,
    pub window_x: u8,
    pub window_y: u8,
    pub oam: Vec<u8>,
    pub vram: Vec<u8>,
    pub new_frame: bool,
    pub frame_content: Vec<u8>,
}

impl View for Gpu {
    type V = GpuSnap;

    open spec fn view(&self) -> GpuSnap {
        GpuSnap {
            lcd_control: self.lcd_control,
            lcd_status: self.lcd_status,
            scroll_x: self.scroll_x,
            scroll_y: self.scroll_y,
            ly: self.ly,
            lyc: self.lyc,
            bg_palette: self.bg_palette,
            sprite_palette_0: self.sprite_palette_0,
            sprite_palette_1: self.sprite_palette_1,
            window_x: self.window_x,
            window_y: self.window_y,
            oam: self.oam@,
            vram: self.vram@,
            new_frame: self.new_frame,
            frame_content: self.frame_content@,
        }
    }
}

/// A sequence of `n` copies of the byte `b`.
pub open spec fn filled(n: nat, b: u8) -> Seq<u8> {
    Seq::new(n, |i: int| b)
}

/// Reading an LCD register, by its I/O offset. Offsets that the peripheral
/// does not serve read as 0.
pub open spec fn gpu_reg_read(g: GpuSnap, address: u8) -> u8 {
    if address == 0x40 {
        g.lcd_control
    } else if address == 0x41 {
        g.lcd_status
    } else if address == 0x42 {
        g.scroll_x
    } else if address == 0x43 {
        g.scroll_y
    } else if address == 0x44 {
        g.ly
    } else if address == 0x45 {
        g.lyc
    } else if address == 0x47 {
        g.bg_palette
    } else if address == 0x48 {
        g.sprite_palette_0
    } else if address == 0x49 {
        g.sprite_palette_1
    } else if address == 0x4A {
        g.window_x
    } else if address == 0x4B {
        g.window_y
    } else {
        0
    }
}

/// Writing an LCD register, by its I/O offset. A write to the current
/// scanline register resets it to 0 instead of storing the written value;
/// offsets the peripheral does not serve are no-ops.
pub open spec fn gpu_reg_write(g: GpuSnap, address: u8, value: u8) -> GpuSnap {
    if address == 0x40 {
        GpuSnap { lcd_control: value, ..g }
    } else if address == 0x41 {
        GpuSnap { lcd_status: value, ..g }
    } else if address == 0x42 {
        GpuSnap { scroll_x: value, ..g }
    } else if address == 0x43 {
        GpuSnap { scroll_y: value, ..g }
    } else if address == 0x44 {
        GpuSnap { ly: 0, ..g }
    } else if address == 0x45 {
        GpuSnap { lyc: value, ..g }
    } else if address == 0x47 {
        GpuSnap { bg_palette: value, ..g }
    } else if address == 0x48 {
        GpuSnap { sprite_palette_0: value, ..g }
    } else if address == 0x49 {
        GpuSnap { sprite_palette_1: value, ..g }
    } else if address == 0x4A {
        GpuSnap { window_x: value, ..g }
    } else if address == 0x4B {
        GpuSnap { window_y: value, ..g }
    } else {
        g
    }
}

impl GpuSnap {
    /// Well-formedness: the backing stores have their hardware sizes.
    pub open spec fn wf(self) -> bool {
        &&& self.vram.len() == 0x2000
        &&& self.oam.len() == 0xA0
        &&& self.frame_content.len() == 160 * 144 * 3
    }
}

/// The peripheral's state at power-on.
pub open spec fn initial_gpu() -> GpuSnap {
    GpuSnap {
        lcd_control: 0x91u8,
        lcd_status: 0u8,
        scroll_x: 0u8,
        scroll_y: 0u8,
        ly: 0x91u8,
        lyc: 0u8,
        bg_palette: 0xFCu8,
        sprite_palette_0: 0xFFu8,
        sprite_palette_1: 0xFFu8,
        window_x: 0u8,
        window_y: 0u8,
        oam: filled(0xA0, 0u8),
        vram: filled(0x2000, 0u8),
        new_frame: false,
        frame_content: filled((160 * 144 * 3) as nat, 0xFFu8),
    }
}

/// The x coordinate of the pixel that framebuffer byte `i` belongs to: three
/// bytes per pixel, 160 pixels per row.
pub open spec fn pixel_x(i: int) -> int {
    (i / 3) % 160
}

/// The y coordinate of the pixel that framebuffer byte `i` belongs to.
pub open spec fn pixel_y(i: int) -> int {
    (i / 3) / 160
}

/// The grey shade the rasterizer derives for pixel (x, y) of the 8x8 tile at
/// (x_offset, y_offset): bit 7-x of the row's two bit planes, weighted 128
/// and 64.
pub open spec fn tile_shade(vram: Seq<u8>, x_offset: u16, y_offset: u16, x: u16, y: u16) -> u8 {
    let plane0 = vram[y * 2 + x_offset * 16 + y_offset * 256];
    let plane1 = vram[y * 2 + 1 + x_offset * 16 + y_offset * 256];
    let bit0 = (plane0 >> ((7 - x) as u8)) & 1 != 0;
    let bit1 = (plane1 >> ((7 - x) as u8)) & 1 != 0;
    ((if bit1 {
        128u8
    } else {
        0u8
    }) + (if bit0 {
        64u8
    } else {
        0u8
    })) as u8
}

/// Whether framebuffer byte `i` lies inside the tile at (x_offset, y_offset).
pub open spec fn pixel_in_tile(i: int, x_offset: u16, y_offset: u16) -> bool {
    &&& x_offset * 8 <= pixel_x(i) < x_offset * 8 + 8
    &&& y_offset * 8 <= pixel_y(i) < y_offset * 8 + 8
}

/// The shade drawn at framebuffer byte `i` by the tile at (x_offset,
/// y_offset), in tile-relative coordinates.
pub open spec fn tile_pixel(vram: Seq<u8>, x_offset: u16, y_offset: u16, i: int) -> u8 {
    tile_shade(
        vram,
        x_offset,
        y_offset,
        (pixel_x(i) - x_offset * 8) as u16,
        (pixel_y(i) - y_offset * 8) as u16,
    )
}

/// Whether the tile walk has painted byte `i` after finishing `rows` full
/// rows plus `cols` pixels of the next row of one tile.
pub open spec fn tile_progress(i: int, x_offset: u16, y_offset: u16, rows: int, cols: int) -> bool {
    &&& pixel_in_tile(i, x_offset, y_offset)
    &&& (pixel_y(i) < y_offset * 8 + rows || (pixel_y(i) == y_offset * 8 + rows && pixel_x(i)
        < x_offset * 8 + cols))
}

/// Whether the rasterizer's tile walk (column-major: all tiles of column tx
/// before column tx + 1) has painted byte `i` after `x` full tile columns
/// plus `y` tiles of the next column.
pub open spec fn tiles_progress(i: int, x: int, y: int) -> bool {
    &&& pixel_x(i) < 128
    &&& pixel_y(i) < 128
    &&& (pixel_x(i) / 8 < x || (pixel_x(i) / 8 == x && pixel_y(i) / 8 < y))
}

/// The shade of byte `i` once the whole 16x16 tile grid has been unpacked.
pub open spec fn rendered_shade(vram: Seq<u8>, i: int) -> u8 {
    tile_shade(
        vram,
        (pixel_x(i) / 8) as u16,
        (pixel_y(i) / 8) as u16,
        (pixel_x(i) % 8) as u16,
        (pixel_y(i) % 8) as u16,
    )
}

/// The whole framebuffer after one rasterization pass: the 128x128 region
/// covered by the tile grid takes its shades from VRAM, every other byte
/// keeps its previous value.
pub open spec fn rendered_frame(vram: Seq<u8>, frame: Seq<u8>) -> Seq<u8> {
    Seq::new(
        frame.len(),
        |i: int|
            if pixel_x(i) < 128 && pixel_y(i) < 128 {
                rendered_shade(vram, i)
            } else {
                frame[i]
            },
    )
}

/// The three bytes of the pixel at (px, py) decompose as that pixel.
proof fn lemma_pixel_bytes(px: int, py: int, k: int)
    requires
        0 <= px < 160,
        0 <= py < 144,
        0 <= k < 3,
    ensures
        pixel_x((py * 160 + px) * 3 + k) == px,
        pixel_y((py * 160 + px) * 3 + k) == py,
{
    let p = py * 160 + px;
    lemma_fundamental_div_mod_converse(p * 3 + k, 3, p, k);
    lemma_fundamental_div_mod_converse(p, 160, py, px);
}

/// Bounds and decompositions of the pixel coordinates of byte `i`.
proof fn lemma_pixel_geometry(i: int)
    requires
        0 <= i < 160 * 144 * 3,
    ensures
        0 <= pixel_x(i) < 160,
        0 <= pixel_y(i) < 144,
        (pixel_y(i) * 160 + pixel_x(i)) * 3 <= i < (pixel_y(i) * 160 + pixel_x(i)) * 3 + 3,
        pixel_x(i) == 8 * (pixel_x(i) / 8) + pixel_x(i) % 8,
        0 <= pixel_x(i) % 8 < 8,
        pixel_y(i) == 8 * (pixel_y(i) / 8) + pixel_y(i) % 8,
        0 <= pixel_y(i) % 8 < 8,
{
    lemma_fundamental_div_mod(i, 3);
    lemma_mod_bound(i, 3);
    lemma_fundamental_div_mod(i / 3, 160);
    lemma_mod_bound(i / 3, 160);
    lemma_fundamental_div_mod(pixel_x(i), 8);
    lemma_mod_bound(pixel_x(i), 8);
    lemma_fundamental_div_mod(pixel_y(i), 8);
    lemma_mod_bound(pixel_y(i), 8);
}

/// Tile membership in range form coincides with tile indices in division
/// form, and the tile-relative coordinates are the remainders.
proof fn lemma_pixel_tile(i: int, x_offset: u16, y_offset: u16)
    requires
        0 <= i < 160 * 144 * 3,
        x_offset < 16,
        y_offset < 16,
    ensures
        pixel_in_tile(i, x_offset, y_offset) <==> (pixel_x(i) < 128 && pixel_y(i) < 128
            && pixel_x(i) / 8 == x_offset && pixel_y(i) / 8 == y_offset),
        pixel_in_tile(i, x_offset, y_offset) ==> pixel_x(i) % 8 == pixel_x(i) - x_offset * 8
            && pixel_y(i) % 8 == pixel_y(i) - y_offset * 8,
{
    lemma_pixel_geometry(i);
}

impl Gpu {
    pub open spec fn wf(&self) -> bool {
        self@.wf()
    }

    pub fn new() -> (r: Gpu)
        ensures
            r.wf(),
            r@ == initial_gpu(),
    {
        let gpu = Gpu {
            lcd_control: 0x91,
            lcd_status: 0,
            scroll_x: 0,
            scroll_y: 0,
            ly: 0x91,
            lyc: 0,
            bg_palette: 0xFC,
            sprite_palette_0: 0xFF,
            sprite_palette_1: 0xFF,
            window_x: 0,
            window_y: 0,
            oam: byte_vec(0xA0, 0),
            vram: byte_vec(0x2000, 0),
            new_frame: false,
            frame_content: byte_vec(160 * 144 * 3, 0xFF),
        };
        gpu
    }

    pub fn reset(&mut self)
        ensures
            *final(self) == *old(self),
    {
    }

    pub fn vram_load(&self, address: u16) -> (r: u8)
        requires
            self.wf(),
            address < 0x2000,
        ensures
            r == self@.vram[address as int],
    {
        self.vram[address as usize]
    }

    pub fn vram_store(&mut self, address: u16, value: u8)
        requires
            old(self).wf(),
            address < 0x2000,
        ensures
            final(self).wf(),
            final(self)@ == (GpuSnap {
                vram: old(self)@.vram.update(address as int, value),
                ..old(self)@
            }),
    {
        self.vram.set(address as usize, value);
    }

    pub fn load(&self, address: u8) -> (r: u8)
        ensures
            r == gpu_reg_read(self@, address),
    {
        if address == 0x40 {
            self.lcd_control
        } else if address == 0x41 {
            self.lcd_status
        } else if address == 0x42 {
            self.scroll_x
        } else if address == 0x43 {
            self.scroll_y
        } else if address == 0x44 {
            self.ly
        } else if address == 0x45 {
            self.lyc
        } else if address == 0x47 {
            self.bg_palette
        } else if address == 0x48 {
            self.sprite_palette_0
        } else if address == 0x49 {
            self.sprite_palette_1
        } else if address == 0x4A {
            self.window_x
        } else if address == 0x4B {
            self.window_y
        } else {
            0
        }
    }

    pub fn store(&mut self, address: u8, value: u8)
        ensures
            final(self)@ == gpu_reg_write(old(self)@, address, value),
            final(self)@.wf() == old(self)@.wf(),
    {
        if address == 0x40 {
            self.lcd_control = value;
        } else if address == 0x41 {
            self.lcd_status = value;
        } else if address == 0x42 {
            self.scroll_x = value;
        } else if address == 0x43 {
            self.scroll_y = value;
        } else if address == 0x44 {
            self.ly = 0;
        } else if address == 0x45 {
            self.lyc = value;
        } else if address == 0x47 {
            self.bg_palette = value;
        } else if address == 0x48 {
            self.sprite_palette_0 = value;
        } else if address == 0x49 {
            self.sprite_palette_1 = value;
        } else if address == 0x4A {
            self.window_x = value;
        } else if address == 0x4B {
            self.window_y = value;
        }
    }

    /// Rasterize the 16x16 tile grid at the start of VRAM into the
    /// framebuffer and flag a new frame: the 128x128 pixel region takes the
    /// shades VRAM dictates, and the rest of the framebuffer, VRAM, OAM and
    /// the LCD registers are untouched.
    pub fn step(&mut self, _cycles: u64)
        requires
            old(self).wf(),
        ensures
            final(self).wf(),
            final(self)@ == (GpuSnap {
                new_frame: true,
                frame_content: final(self)@.frame_content,
                ..old(self)@
            }),
            final(self)@.frame_content == rendered_frame(
                old(self)@.vram,
                old(self)@.frame_content,
            ),
    {
        proof {
            assert forall|i: int| 0 <= i < old(self)@.frame_content.len() implies !tiles_progress(
                i,
                0,
                0,
            ) by {
                lemma_pixel_geometry(i);
            }
        }
        let mut x: u16 = 0;
        while x < 16
            invariant
                self.wf(),
                x <= 16,
                self@ == (GpuSnap {
                    new_frame: old(self)@.new_frame,
                    frame_content: self@.frame_content,
                    ..old(self)@
                }),
                self@.frame_content.len() == old(self)@.frame_content.len(),
                forall|i: int|
                    0 <= i < old(self)@.frame_content.len() ==> self@.frame_content[i] == (
                    if tiles_progress(i, x as int, 0) {
                        rendered_shade(old(self)@.vram, i)
                    } else {
                        old(self)@.frame_content[i]
                    }),
            decreases 16 - x,
        {
            let mut y: u16 = 0;
            while y < 16
                invariant
                    self.wf(),
                    x < 16,
                    y <= 16,
                    self@ == (GpuSnap {
                        new_frame: old(self)@.new_frame,
                        frame_content: self@.frame_content,
                        ..old(self)@
                    }),
                    self@.frame_content.len() == old(self)@.frame_content.len(),
                    forall|i: int|
                        0 <= i < old(self)@.frame_content.len() ==> self@.frame_content[i] == (
                        if tiles_progress(i, x as int, y as int) {
                            rendered_shade(old(self)@.vram, i)
                        } else {
                            old(self)@.frame_content[i]
                        }),
                decreases 16 - y,
            {
                self.draw_tile(x, y);
                proof {
                    assert forall|i: int|
                        0 <= i < old(self)@.frame_content.len() implies self@.frame_content[i] == (
                        if tiles_progress(i, x as int, y as int + 1) {
                            rendered_shade(old(self)@.vram, i)
                        } else {
                            old(self)@.frame_content[i]
                        }) by {
                        lemma_pixel_geometry(i);
                        lemma_pixel_tile(i, x, y);
                    }
                }
                y = y + 1;
            }
            proof {
                assert forall|i: int|
                    0 <= i < old(self)@.frame_content.len() implies tiles_progress(
                    i,
                    x as int,
                    16,
                ) == tiles_progress(i, x as int + 1, 0) by {
                    lemma_pixel_geometry(i);
                }
            }
            x = x + 1;
        }
        self.new_frame = true;
        proof {
            let frame = rendered_frame(old(self)@.vram, old(self)@.frame_content);
            assert forall|i: int|
                0 <= i < old(self)@.frame_content.len() implies self@.frame_content[i] == frame[i] by {
                lemma_pixel_geometry(i);
            }
            assert(self@.frame_content =~= frame);
        }
    }

    /// Unpack one 8x8 tile's two bit planes into grey shades in the
    /// framebuffer: every byte of the tile's 64 pixels takes the shade VRAM
    /// dictates and no other byte changes.
    fn draw_tile(&mut self, x_offset: u16, y_offset: u16)
        requires
            old(self).wf(),
            x_offset < 16,
            y_offset < 16,
        ensures
            final(self).wf(),
            final(self)@ == (GpuSnap {
                frame_content: final(self)@.frame_content,
                ..old(self)@
            }),
            final(self)@.frame_content.len() == old(self)@.frame_content.len(),
            forall|i: int|
                0 <= i < old(self)@.frame_content.len() ==> final(self)@.frame_content[i] == (
                if pixel_in_tile(i, x_offset, y_offset) {
                    tile_pixel(old(self)@.vram, x_offset, y_offset, i)
                } else {
                    old(self)@.frame_content[i]
                }),
    {
        let mut y: u16 = 0;
        while y < 8
            invariant
                self.wf(),
                x_offset < 16,
                y_offset < 16,
                y <= 8,
                self@ == (GpuSnap { frame_content: self@.frame_content, ..old(self)@ }),
                self@.frame_content.len() == old(self)@.frame_content.len(),
                forall|i: int|
                    0 <= i < old(self)@.frame_content.len() ==> self@.frame_content[i] == (
                    if tile_progress(i, x_offset, y_offset, y as int, 0) {
                        tile_pixel(old(self)@.vram, x_offset, y_offset, i)
                    } else {
                        old(self)@.frame_content[i]
                    }),
            decreases 8 - y,
        {
            let plane0 = self.vram_load(y * 2 + x_offset * 16 + y_offset * 256);
            let plane1 = self.vram_load(y * 2 + 1 + x_offset * 16 + y_offset * 256);
            let mut x: u16 = 0;
            while x < 8
                invariant
                    self.wf(),
                    x_offset < 16,
                    y_offset < 16,
                    y < 8,
                    x <= 8,
                    plane0 == old(self)@.vram[y * 2 + x_offset * 16 + y_offset * 256],
                    plane1 == old(self)@.vram[y * 2 + 1 + x_offset * 16 + y_offset * 256],
                    self@ == (GpuSnap { frame_content: self@.frame_content, ..old(self)@ }),
                    self@.frame_content.len() == old(self)@.frame_content.len(),
                    forall|i: int|
                        0 <= i < old(self)@.frame_content.len() ==> self@.frame_content[i] == (
                        if tile_progress(i, x_offset, y_offset, y as int, x as int) {
                            tile_pixel(old(self)@.vram, x_offset, y_offset, i)
                        } else {
                            old(self)@.frame_content[i]
                        }),
                decreases 8 - x,
            {
                let bit0 = (plane0 >> ((7 - x) as u8)) & 1 != 0;
                let bit1 = (plane1 >> ((7 - x) as u8)) & 1 != 0;
                let shade = (if bit1 { 128u8 } else { 0u8 }) + (if bit0 { 64u8 } else { 0u8 });
                let px = x + x_offset * 8;
                let py = y + y_offset * 8;
                self.set_pixel(px, py, shade);
                proof {
                    let base = (py * 160 + px) * 3;
                    assert forall|i: int|
                        0 <= i < old(self)@.frame_content.len() implies self@.frame_content[i] == (
                        if tile_progress(i, x_offset, y_offset, y as int, x as int + 1) {
                            tile_pixel(old(self)@.vram, x_offset, y_offset, i)
                        } else {
                            old(self)@.frame_content[i]
                        }) by {
                        lemma_pixel_geometry(i);
                        lemma_pixel_tile(i, x_offset, y_offset);
                        if base <= i < base + 3 {
                            lemma_pixel_bytes(px as int, py as int, i - base);
                        }
                    }
                }
                x = x + 1;
            }
            y = y + 1;
        }
    }

    /// Store one grey pixel as three identical colour bytes at (x, y).
    fn set_pixel(&mut self, x: u16, y: u16, shade: u8)
        requires
            old(self).wf(),
            x < 160,
            y < 144,
        ensures
            final(self).wf(),
            final(self)@ == (GpuSnap {
                frame_content: old(self)@.frame_content
                    .update((y * 160 + x) * 3 + 0, shade)
                    .update((y * 160 + x) * 3 + 1, shade)
                    .update((y * 160 + x) * 3 + 2, shade),
                ..old(self)@
            }),
    {
        let base: usize = (y as usize * 160 + x as usize) * 3;
        self.frame_content.set(base, shade);
        self.frame_content.set(base + 1, shade);
        self.frame_content.set(base + 2, shade);
    }
}

/// A vector of `n` copies of the byte `b`.
pub fn byte_vec(n: usize, b: u8) -> (r: Vec<u8>)
    ensures
        r@ == filled(n as nat, b),
{
    let mut v: Vec<u8> = Vec::new();
    let mut i: usize = 0;
    while i < n
        invariant
            i <= n,
            v@ =~= filled(i as nat, b),
        decreases n - i,
    {
        v.push(b);
        i = i + 1;
    }
    v
}

} // verus!
