//! Texel lookup and colour blending of the 3D renderer.
use vstd::prelude::*;
use crate::video::memory::mapping::Engine3DVRAM;
use crate::video::video3d::palette::{Colour, TexPaletteCache};
use crate::video::video3d::types::TextureAttrs;

verus! {

/// A colour with a 5-bit alpha.
#[derive(Clone, Copy, PartialEq, Eq, Structural, Debug)]
pub struct ColourAlpha {
    pub col: Colour,
    pub alpha: u8,
}

impl ColourAlpha {
    /// Fully transparent black.
    pub fn transparent() -> (r: ColourAlpha)
        ensures
            r == (ColourAlpha { col: Colour { r: 0, g: 0, b: 0 }, alpha: 0 }),
    {
        ColourAlpha { col: Colour { r: 0, g: 0, b: 0 }, alpha: 0 }
    }
}

/// How a polygon's colour combines with its texture.
#[derive(Clone, Copy, PartialEq, Eq, Structural, Debug)]
pub enum PolygonMode {
    Modulation,
    Decal,
    ToonHighlight,
    Shadow,
}

/// Texture coordinates: 12.4 fixed-point values, held as their raw bits.
#[derive(Clone, Copy, PartialEq, Eq, Structural, Debug)]
pub struct TexCoords {
    pub s: i16,
    pub t: i16,
}

/// Texture size in texels: 8 shifted by the size field.
pub open spec fn tex_width(a: TextureAttrs) -> u32 {
    (8u32 << ((a.bits / 0x10_0000) % 8)) as u32
}

pub open spec fn tex_height(a: TextureAttrs) -> u32 {
    (8u32 << ((a.bits / 0x80_0000) % 8)) as u32
}

/// A coordinate in texels along one axis of `size` texels (a power of two
/// up to 1024): the whole part of `raw` (rounded down), then repeated
/// (and mirrored on every other repeat where `flip`), or clamped to the
/// texture.
pub open spec fn tex_axis(raw: i16, size: u32, repeat: bool, flip: bool) -> u32 {
    let base = (raw as int) / 16;
    if repeat {
        let p = base + 4096;
        let u = (p % (size as int)) as u32;
        if flip && (p / (size as int)) % 2 == 1 {
            (size - 1 - u) as u32
        } else {
            u
        }
    } else if base < 0 {
        0
    } else if base > size - 1 {
        (size - 1) as u32
    } else {
        base as u32
    }
}

/// The texel coordinates of a point of the texture.
pub open spec fn spec_tex_coords(c: TexCoords, a: TextureAttrs) -> (u32, u32) {
    (
        tex_axis(c.s, tex_width(a), (a.bits / 0x1_0000) % 2 == 1, (a.bits / 0x4_0000) % 2 == 1),
        tex_axis(c.t, tex_height(a), (a.bits / 0x2_0000) % 2 == 1, (a.bits / 0x8_0000) % 2 == 1),
    )
}

fn axis(raw: i16, size: u32, repeat: bool, flip: bool) -> (r: u32)
    requires
        8 <= size <= 1024,
        4096int % (size as int) == 0,
    ensures
        r == tex_axis(raw, size, repeat, flip),
        r < size,
{
    let shifted: u32 = ((raw as i32) + 0x8000) as u32;
    let base: i32 = (shifted / 16) as i32 - 0x800;
    assert(base == (raw as int) / 16) by {
        assert(0x8000int == 16 * 0x800);
    }
    if repeat {
        let p: u32 = (base + 4096) as u32;
        let u = p % size;
        if flip && (p / size) % 2 == 1 {
            size - 1 - u
        } else {
            u
        }
    } else if base < 0 {
        0
    } else if base > (size - 1) as i32 {
        size - 1
    } else {
        base as u32
    }
}

/// The size field gives 8 to 1024 texels, a divisor of 4096.
proof fn lemma_tex_size(f: u32)
    requires
        f < 8,
    ensures
        8 <= (8u32 << f) <= 1024,
        4096int % ((8u32 << f) as int) == 0,
{
    assert(f < 8 ==> (f == 0 ==> (8u32 << f) == 8) && (f == 1 ==> (8u32 << f) == 16) && (f == 2 ==> (8u32
        << f) == 32) && (f == 3 ==> (8u32 << f) == 64) && (f == 4 ==> (8u32 << f) == 128) && (f == 5 ==> (8u32
        << f) == 256) && (f == 6 ==> (8u32 << f) == 512) && (f == 7 ==> (8u32 << f) == 1024)) by (bit_vector);
}

/// The texel coordinates of a point of the texture, each inside the
/// texture.
pub fn get_tex_coords(c: TexCoords, a: TextureAttrs) -> (r: (u32, u32))
    ensures
        r == spec_tex_coords(c, a),
        r.0 < tex_width(a) && r.1 < tex_height(a),
{
    let fs = (a.bits / 0x10_0000) % 8;
    let ft = (a.bits / 0x80_0000) % 8;
    proof {
        lemma_tex_size(fs);
        lemma_tex_size(ft);
    }
    let width: u32 = 8u32 << fs;
    let height: u32 = 8u32 << ft;
    let s = axis(c.s, width, (a.bits / 0x1_0000) % 2 == 1, (a.bits / 0x4_0000) % 2 == 1);
    let t = axis(c.t, height, (a.bits / 0x2_0000) % 2 == 1, (a.bits / 0x8_0000) % 2 == 1);
    (s, t)
}

/// The average of two colours weighted `w0` and `w1` (summing to a power
/// of two `d`), channel by channel, rounded down.
pub open spec fn mix(c0: Colour, c1: Colour, w0: int, w1: int, d: int) -> Colour {
    Colour {
        r: ((c0.r * w0 + c1.r * w1) / d) as u8,
        g: ((c0.g * w0 + c1.g * w1) / d) as u8,
        b: ((c0.b * w0 + c1.b * w1) / d) as u8,
    }
}

fn mix_exec(c0: Colour, c1: Colour, w0: u16, w1: u16, d: u16) -> (r: Colour)
    requires
        w0 + w1 <= d,
        0 < d <= 32,
    ensures
        r == mix(c0, c1, w0 as int, w1 as int, d as int),
{
    proof {
        lemma_mix_bounds(c0.r as int, c1.r as int, w0 as int, w1 as int, d as int);
        lemma_mix_bounds(c0.g as int, c1.g as int, w0 as int, w1 as int, d as int);
        lemma_mix_bounds(c0.b as int, c1.b as int, w0 as int, w1 as int, d as int);
    }
    let r = ((c0.r as u16) * w0 + (c1.r as u16) * w1) / d;
    let g = ((c0.g as u16) * w0 + (c1.g as u16) * w1) / d;
    let b = ((c0.b as u16) * w0 + (c1.b as u16) * w1) / d;
    Colour { r: r as u8, g: g as u8, b: b as u8 }
}

/// A weighted sum of two channels fits, and so does its average.
proof fn lemma_mix_bounds(x: int, y: int, w0: int, w1: int, d: int)
    requires
        0 <= x <= 255,
        0 <= y <= 255,
        0 <= w0,
        0 <= w1,
        w0 + w1 <= d,
        0 < d <= 32,
    ensures
        0 <= x * w0 <= 255 * 32,
        0 <= y * w1 <= 255 * 32,
        (x * w0 + y * w1) / d <= 255,
{
    assert(0 <= x * w0 <= 255 * w0) by (nonlinear_arith)
        requires 0 <= x <= 255, 0 <= w0;
    assert(0 <= y * w1 <= 255 * w1) by (nonlinear_arith)
        requires 0 <= y <= 255, 0 <= w1;
    assert((x * w0 + y * w1) / d <= 255) by (nonlinear_arith)
        requires 0 <= x * w0 + y * w1 <= 255 * d, 0 < d;
}

/// Where a 4x4-compressed texel's block stands, and its palette word's
/// address.
pub open spec fn block_addr_4x4(s: u32, t: u32, a: TextureAttrs) -> u32 {
    ((a.bits % 0x1_0000) + (t / 4) * tex_width(a) + (s / 4) * 4) as u32
}

pub open spec fn block_palette_addr_4x4(block_addr: u32) -> u32 {
    (0x2_0000 + (((block_addr >> 2u32) & 0x1_0000) | (block_addr / 2))) as u32
}

impl TexPaletteCache {
    /// The colour of a texel of a 4x4-compressed texture: each 4x4 block
    /// has 2 bits per texel, and a palette word giving its palette offset,
    /// whether texel value 3 is transparent (bit 15 clear) and whether
    /// values 2 and 3 mix the first two colours (bit 14).
    pub open spec fn spec_4x4(&self, vram: Engine3DVRAM, c: TexCoords, a: TextureAttrs, palette: u16) -> ColourAlpha {
        let (s, t) = spec_tex_coords(c, a);
        let block_addr = block_addr_4x4(s, t, a);
        let data = (vram.tex_byte((block_addr + t % 4) as u32) >> (2 * (s % 4)) as u8) & 3u8;
        let pal_addr_word = block_palette_addr_4x4(block_addr);
        let pal_word = vram.tex_byte(pal_addr_word as u32) + vram.tex_byte((pal_addr_word + 1) as u32) * 0x100;
        let palette_addr = palette * 8 + (pal_word % 0x4000) * 2;
        let transparent_3 = pal_word / 0x8000 == 0;
        let c0 = self.tex_palette@[palette_addr];
        let c1 = self.tex_palette@[palette_addr + 1];
        let opaque = |col: Colour| ColourAlpha { col, alpha: 0x1F };
        if (pal_word / 0x4000) % 2 == 1 {
            if data == 0 {
                opaque(c0)
            } else if data == 1 {
                opaque(c1)
            } else if data == 2 && transparent_3 {
                opaque(mix(c0, c1, 1, 1, 2))
            } else if data == 2 {
                opaque(mix(c0, c1, 5, 3, 8))
            } else if transparent_3 {
                ColourAlpha { col: Colour { r: 0, g: 0, b: 0 }, alpha: 0 }
            } else {
                opaque(mix(c0, c1, 3, 5, 8))
            }
        } else if data == 3 && transparent_3 {
            ColourAlpha { col: Colour { r: 0, g: 0, b: 0 }, alpha: 0 }
        } else {
            opaque(self.tex_palette@[palette_addr + data as int])
        }
    }

    /// The palette colours a texel of a 4x4-compressed texture can use are
    /// in the cache.
    pub open spec fn fits_4x4(&self, vram: Engine3DVRAM, c: TexCoords, a: TextureAttrs, palette: u16) -> bool {
        let (s, t) = spec_tex_coords(c, a);
        let block_addr = block_addr_4x4(s, t, a);
        let pal_addr_word = block_palette_addr_4x4(block_addr);
        let pal_word = vram.tex_byte(pal_addr_word as u32) + vram.tex_byte((pal_addr_word + 1) as u32) * 0x100;
        palette * 8 + (pal_word % 0x4000) * 2 + 3 < self.tex_palette@.len()
    }

    /// Looks up a texel of a 4x4-compressed texture.
    pub fn lookup_4x4_tex(&self, tex_coords: TexCoords, tex_attrs: TextureAttrs, palette: u16, vram: &Engine3DVRAM) -> (r: ColourAlpha)
        requires
            self.fits_4x4(*vram, tex_coords, tex_attrs, palette),
        ensures
            r == self.spec_4x4(*vram, tex_coords, tex_attrs, palette),
    {
        let (s, t) = get_tex_coords(tex_coords, tex_attrs);
        proof {
            lemma_tex_size((tex_attrs.bits / 0x10_0000) % 8);
            lemma_tex_size((tex_attrs.bits / 0x80_0000) % 8);
        }
        let block_width: u32 = 8u32 << ((tex_attrs.bits / 0x10_0000) % 8);
        assert((t / 4) * block_width <= 256 * 1024) by (nonlinear_arith)
            requires
                t < 1024,
                block_width <= 1024,
        ;
        let block_addr: u32 = tex_attrs.addr() + (t / 4) * block_width + (s / 4) * 4;
        let shift: u8 = ((s % 4) * 2) as u8;
        let byte = vram.get_tex_byte(block_addr + t % 4);
        let data: u8 = (byte >> shift) & 3u8;
        assert(data <= 3) by (bit_vector)
            requires
                data == (byte >> shift) & 3u8,
        ;
        let block_data: u32 = data as u32;
        assert(block_addr < 0x8_0000);
        assert(block_addr < 0x8_0000 ==> ((block_addr >> 2u32) & 0x1_0000) | (block_addr / 2) < 0x5_0000) by (bit_vector);
        let pal_addr_word: u32 = 0x2_0000 + (((block_addr >> 2u32) & 0x1_0000) | (block_addr / 2));
        let pal_word: u16 = vram.get_tex_halfword(pal_addr_word);
        let palette_addr: u32 = (palette as u32) * 8 + ((pal_word % 0x4000) as u32) * 2;
        let transparent_3 = pal_word / 0x8000 == 0;
        if (pal_word / 0x4000) % 2 == 1 {
            let c0 = self.get_tex_colour(palette_addr);
            let c1 = self.get_tex_colour(palette_addr + 1);
            if block_data == 0 {
                ColourAlpha { col: c0, alpha: 0x1F }
            } else if block_data == 1 {
                ColourAlpha { col: c1, alpha: 0x1F }
            } else if block_data == 2 && transparent_3 {
                ColourAlpha { col: mix_exec(c0, c1, 1, 1, 2), alpha: 0x1F }
            } else if block_data == 2 {
                ColourAlpha { col: mix_exec(c0, c1, 5, 3, 8), alpha: 0x1F }
            } else if transparent_3 {
                ColourAlpha::transparent()
            } else {
                ColourAlpha { col: mix_exec(c0, c1, 3, 5, 8), alpha: 0x1F }
            }
        } else if block_data == 3 && transparent_3 {
            ColourAlpha::transparent()
        } else {
            ColourAlpha { col: self.get_tex_colour(palette_addr + block_data), alpha: 0x1F }
        }
    }
}


/// The texels of a 4x4-compressed texture. Each texel has a 2-bit value `v`
/// in its block, and the block a palette word `w` that picks the block's
/// colours `c0`, `c1`, ... from the palette. Where `w` has bit 14 set the
/// block interpolates: 0 and 1 give `c0` and `c1`; with bit 15 set too, 2
/// gives `(5 * c0 + 3 * c1) / 8` and 3 gives `(3 * c0 + 5 * c1) / 8` in
/// each channel, and with bit 15 clear, 2 gives the mean of `c0` and `c1`
/// and 3 is transparent. Where bit 14 is clear, `v` picks colour `v` of the
/// block, but 3 is transparent while bit 15 is clear. Every colour is
/// opaque.
pub proof fn lemma_4x4_texels(cache: TexPaletteCache, vram: Engine3DVRAM, c: TexCoords, a: TextureAttrs, palette: u16)
    ensures
        ({
            let (s, t) = spec_tex_coords(c, a);
            let block = block_addr_4x4(s, t, a);
            let v = (vram.tex_byte((block + t % 4) as u32) >> (2 * (s % 4)) as u8) & 3u8;
            let w_addr = block_palette_addr_4x4(block);
            let w = vram.tex_byte(w_addr) + vram.tex_byte((w_addr + 1) as u32) * 0x100;
            let base = palette * 8 + (w % 0x4000) * 2;
            let c0 = cache.tex_palette@[base];
            let c1 = cache.tex_palette@[base + 1];
            let out = cache.spec_4x4(vram, c, a, palette);
            let interpolating = (w / 0x4000) % 2 == 1;
            let opaque_3 = w / 0x8000 != 0;
            &&& interpolating && v == 0 ==> out == ColourAlpha { col: c0, alpha: 0x1F }
            &&& interpolating && v == 1 ==> out == ColourAlpha { col: c1, alpha: 0x1F }
            &&& interpolating && opaque_3 && v == 2 ==> out == ColourAlpha {
                col: Colour {
                    r: ((5 * c0.r + 3 * c1.r) / 8) as u8,
                    g: ((5 * c0.g + 3 * c1.g) / 8) as u8,
                    b: ((5 * c0.b + 3 * c1.b) / 8) as u8,
                },
                alpha: 0x1F,
            }
            &&& interpolating && opaque_3 && v == 3 ==> out == ColourAlpha {
                col: Colour {
                    r: ((3 * c0.r + 5 * c1.r) / 8) as u8,
                    g: ((3 * c0.g + 5 * c1.g) / 8) as u8,
                    b: ((3 * c0.b + 5 * c1.b) / 8) as u8,
                },
                alpha: 0x1F,
            }
            &&& interpolating && !opaque_3 && v == 2 ==> out == ColourAlpha {
                col: Colour {
                    r: ((c0.r + c1.r) / 2) as u8,
                    g: ((c0.g + c1.g) / 2) as u8,
                    b: ((c0.b + c1.b) / 2) as u8,
                },
                alpha: 0x1F,
            }
            &&& !opaque_3 && v == 3 ==> out.alpha == 0
            &&& !interpolating && (opaque_3 || v != 3) ==> out == ColourAlpha {
                col: cache.tex_palette@[base + v as int],
                alpha: 0x1F,
            }
        }),
{
}

/// The texture format field: 0 none, 1 A3I5, 2 2bpp, 3 4bpp, 4 8bpp,
/// 5 4x4-compressed, 6 A5I3, 7 direct colour.
pub open spec fn tex_format(a: TextureAttrs) -> u32 {
    (a.bits / 0x400_0000) % 8
}

/// A texel's index in the texture, row by row.
pub open spec fn texel_pos(c: TexCoords, a: TextureAttrs) -> int {
    let (s, t) = spec_tex_coords(c, a);
    tex_width(a) * t + s
}

/// The byte at `offset` into the texture.
pub open spec fn texel_byte(vram: Engine3DVRAM, a: TextureAttrs, offset: int) -> u8 {
    vram.tex_byte(((a.bits % 0x1_0000) + offset) as u32)
}

/// Value 0 of a paletted texel is transparent.
pub open spec fn transparent_0(a: TextureAttrs) -> bool {
    (a.bits / 0x2000_0000) % 2 == 1
}

pub open spec fn transparent_black() -> ColourAlpha {
    ColourAlpha { col: Colour { r: 0, g: 0, b: 0 }, alpha: 0 }
}

/// The palette index of a paletted texel, and its raw value where it is
/// an index-only format.
pub open spec fn palette_index(vram: Engine3DVRAM, c: TexCoords, a: TextureAttrs, palette: u16) -> (int, int) {
    let pos = texel_pos(c, a);
    let f = tex_format(a);
    if f == 2 {
        let data = (texel_byte(vram, a, pos / 4) >> (2 * (pos % 4)) as u8) & 3u8;
        (palette * 4 + data, data as int)
    } else if f == 3 {
        let data = (texel_byte(vram, a, pos / 2) >> (4 * (pos % 2)) as u8) & 0xFu8;
        (palette * 8 + data, data as int)
    } else if f == 1 {
        (palette * 8 + texel_byte(vram, a, pos) % 32, 1)
    } else if f == 6 {
        (palette * 8 + texel_byte(vram, a, pos) % 8, 1)
    } else {
        let data = texel_byte(vram, a, pos);
        (palette * 8 + data, data as int)
    }
}

impl TexPaletteCache {
    /// The colour of a texel, by the texture's format; none where the
    /// polygon has no texture.
    pub open spec fn spec_lookup(&self, vram: Engine3DVRAM, c: TexCoords, a: TextureAttrs, palette: u16) -> Option<ColourAlpha> {
        let f = tex_format(a);
        let pos = texel_pos(c, a);
        let (index, data) = palette_index(vram, c, a, palette);
        if f == 0 {
            None
        } else if f == 5 {
            Some(self.spec_4x4(vram, c, a, palette))
        } else if f == 7 {
            let h = texel_byte(vram, a, pos * 2) + texel_byte(vram, a, pos * 2 + 1) * 0x100;
            Some(ColourAlpha { col: Colour::spec_from_555(h as u16), alpha: ((h / 0x8000) * 0x1F) as u8 })
        } else if f == 1 {
            let ad = texel_byte(vram, a, pos) / 32;
            Some(ColourAlpha { col: self.tex_palette@[index], alpha: (ad * 4 + ad / 2) as u8 })
        } else if f == 6 {
            Some(ColourAlpha { col: self.tex_palette@[index], alpha: texel_byte(vram, a, pos) / 8 })
        } else if data == 0 && transparent_0(a) {
            Some(transparent_black())
        } else {
            Some(ColourAlpha { col: self.tex_palette@[index], alpha: 0x1F })
        }
    }

    /// The palette colours the texel can use are in the cache.
    pub open spec fn lookup_fits(&self, vram: Engine3DVRAM, c: TexCoords, a: TextureAttrs, palette: u16) -> bool {
        let f = tex_format(a);
        if f == 5 {
            self.fits_4x4(vram, c, a, palette)
        } else if f == 0 || f == 7 {
            true
        } else {
            palette_index(vram, c, a, palette).0 < self.tex_palette@.len()
        }
    }

    /// Looks up the colour of a texel.
    pub fn lookup_tex_colour(&self, tex_coords: TexCoords, tex_attrs: TextureAttrs, palette: u16, vram: &Engine3DVRAM) -> (r: Option<ColourAlpha>)
        requires
            self.lookup_fits(*vram, tex_coords, tex_attrs, palette),
        ensures
            r == self.spec_lookup(*vram, tex_coords, tex_attrs, palette),
            r matches Some(c) ==> c.alpha <= 0x1F,
    {
        let format = (tex_attrs.bits / 0x400_0000) % 8;
        if format == 0 {
            return None;
        }
        if format == 5 {
            return Some(self.lookup_4x4_tex(tex_coords, tex_attrs, palette, vram));
        }
        let (s, t) = get_tex_coords(tex_coords, tex_attrs);
        proof {
            lemma_tex_size((tex_attrs.bits / 0x10_0000) % 8);
            lemma_tex_size((tex_attrs.bits / 0x80_0000) % 8);
        }
        let width: u32 = 8u32 << ((tex_attrs.bits / 0x10_0000) % 8);
        assert(width * t <= 1024 * 1024) by (nonlinear_arith)
            requires
                t < 1024,
                width <= 1024,
        ;
        let pos: u32 = width * t + s;
        let addr: u32 = tex_attrs.bits % 0x1_0000;
        if format == 7 {
            let h = vram.get_tex_halfword(addr + pos * 2);
            return Some(ColourAlpha { col: Colour::from_555(h), alpha: ((h / 0x8000) as u8) * 0x1F });
        }
        let pal8: u32 = (palette as u32) * 8;
        if format == 1 {
            let data = vram.get_tex_byte(addr + pos);
            let ad: u8 = data / 32;
            let col = self.get_tex_colour(pal8 + (data % 32) as u32);
            Some(ColourAlpha { col, alpha: ad * 4 + ad / 2 })
        } else if format == 6 {
            let data = vram.get_tex_byte(addr + pos);
            let col = self.get_tex_colour(pal8 + (data % 8) as u32);
            Some(ColourAlpha { col, alpha: data / 8 })
        } else {
            let (index, data): (u32, u8) = if format == 2 {
                let byte = vram.get_tex_byte(addr + pos / 4);
                let d: u8 = (byte >> ((2 * (pos % 4)) as u8)) & 3u8;
                assert(d <= 3) by (bit_vector)
                    requires
                        d == (byte >> ((2 * (pos % 4)) as u8)) & 3u8,
                ;
                ((palette as u32) * 4 + d as u32, d)
            } else if format == 3 {
                let byte = vram.get_tex_byte(addr + pos / 2);
                let d: u8 = (byte >> ((4 * (pos % 2)) as u8)) & 0xFu8;
                assert(d <= 15) by (bit_vector)
                    requires
                        d == (byte >> ((4 * (pos % 2)) as u8)) & 0xFu8,
                ;
                (pal8 + d as u32, d)
            } else {
                let d = vram.get_tex_byte(addr + pos);
                (pal8 + d as u32, d)
            };
            if data == 0 && (tex_attrs.bits / 0x2000_0000) % 2 == 1 {
                Some(ColourAlpha::transparent())
            } else {
                Some(ColourAlpha { col: self.get_tex_colour(index), alpha: 0x1F })
            }
        }
    }
}

/// The texel formats. No texture gives no colour. A3I5 texels pick one of
/// 32 colours of the palette with their low five bits, and scale their
/// three alpha bits to five: 0 stays transparent, 7 becomes fully opaque,
/// and a larger value is never less opaque. A5I3 texels pick one of eight
/// colours with their low three bits and take their top five bits as
/// alpha. The 2, 4 and 8 bit formats pick the colour their value numbers,
/// in palettes of 4, 16 and 256 colours (the 2-bit palette at 4 colours a
/// step, the others at 8), opaque, except that value 0 is transparent where
/// the texture says so. Direct-colour texels are opaque with bit 15 set
/// and transparent without.
pub proof fn lemma_texel_formats(cache: TexPaletteCache, vram: Engine3DVRAM, c: TexCoords, a: TextureAttrs, palette: u16)
    ensures
        ({
            let f = tex_format(a);
            let pos = texel_pos(c, a);
            let out = cache.spec_lookup(vram, c, a, palette);
            let byte = texel_byte(vram, a, pos);
            let pal = cache.tex_palette@;
            &&& f == 0 <==> out is None
            &&& f == 1 ==> {
                let ad = byte / 32;
                &&& out->0.col == pal[palette * 8 + byte % 32]
                &&& out->0.alpha <= 0x1F
                &&& (out->0.alpha == 0 <==> ad == 0)
                &&& (out->0.alpha == 0x1F <==> ad == 7)
                &&& forall|k: u8| k < ad ==> #[trigger] a3_alpha(k) < out->0.alpha
            }
            &&& f == 6 ==> out->0.col == pal[palette * 8 + byte % 8] && out->0.alpha == byte / 8
            &&& f == 2 ==> {
                let v = (texel_byte(vram, a, pos / 4) >> (2 * (pos % 4)) as u8) & 3u8;
                if v == 0 && transparent_0(a) {
                    out->0.alpha == 0
                } else {
                    out->0 == ColourAlpha { col: pal[palette * 4 + v], alpha: 0x1F }
                }
            }
            &&& f == 3 ==> {
                let v = (texel_byte(vram, a, pos / 2) >> (4 * (pos % 2)) as u8) & 0xFu8;
                if v == 0 && transparent_0(a) {
                    out->0.alpha == 0
                } else {
                    out->0 == ColourAlpha { col: pal[palette * 8 + v], alpha: 0x1F }
                }
            }
            &&& f == 4 ==> if byte == 0 && transparent_0(a) {
                out->0.alpha == 0
            } else {
                out->0 == ColourAlpha { col: pal[palette * 8 + byte], alpha: 0x1F }
            }
            &&& f == 7 ==> {
                let hi = texel_byte(vram, a, pos * 2 + 1);
                &&& (hi >= 0x80 ==> out->0.alpha == 0x1F)
                &&& (hi < 0x80 ==> out->0.alpha == 0)
            }
        }),
{
    let ad = texel_byte(vram, a, texel_pos(c, a)) / 32;
    assert forall|k: u8| k < ad implies #[trigger] a3_alpha(k) < a3_alpha(ad) by {}
}

/// The five-bit alpha of a three-bit A3I5 alpha value.
pub open spec fn a3_alpha(ad: u8) -> u8 {
    (ad * 4 + ad / 2) as u8
}

/// The product of two channels, each taken as (value + 1) / 256, back in
/// 8 bits: the high byte of (a + 1)(b + 1) - 1.
pub open spec fn modulate(a: u8, b: u8) -> u8 {
    (((a + 1) * (b + 1) - 1) / 256) as u8
}

/// A sum that stops at 255.
pub open spec fn sat_add(a: u8, b: u8) -> u8 {
    if a + b > 255 { 255 } else { (a + b) as u8 }
}

/// A fragment's colour from its vertex colour and its texel: modulated,
/// the texel laid over by its alpha (decal), or through the toon table
/// (with the table added where `highlight` shading is on); shadow polygons
/// keep the vertex colour.
pub open spec fn spec_blend_tex(toon: Seq<Colour>, highlight: bool, mode: PolygonMode, v: ColourAlpha, t: ColourAlpha) -> ColourAlpha {
    match mode {
        PolygonMode::Modulation => ColourAlpha {
            col: Colour { r: modulate(v.col.r, t.col.r), g: modulate(v.col.g, t.col.g), b: modulate(v.col.b, t.col.b) },
            alpha: ((((v.alpha + 1) * (t.alpha + 1) - 1) / 32) as u16) as u8,
        },
        PolygonMode::Decal => if t.alpha == 0 {
            v
        } else if t.alpha == 0x1F {
            ColourAlpha { col: t.col, alpha: v.alpha }
        } else {
            ColourAlpha { col: mix(v.col, t.col, 0x1F - t.alpha, t.alpha as int, 32), alpha: v.alpha }
        },
        PolygonMode::ToonHighlight => {
            let table = toon[(v.col.r / 8) as int];
            if highlight {
                ColourAlpha {
                    col: Colour {
                        r: sat_add(modulate(v.col.r, t.col.r), table.r),
                        g: sat_add(modulate(v.col.g, t.col.g), table.g),
                        b: sat_add(modulate(v.col.b, t.col.b), table.b),
                    },
                    alpha: ((v.alpha * t.alpha / 32) as u16) as u8,
                }
            } else {
                ColourAlpha {
                    col: Colour { r: modulate(table.r, t.col.r), g: modulate(table.g, t.col.g), b: modulate(table.b, t.col.b) },
                    alpha: ((v.alpha * t.alpha / 32) as u16) as u8,
                }
            }
        },
        PolygonMode::Shadow => v,
    }
}

/// A fragment's colour without a texture: the vertex colour, or through
/// the toon table for toon and highlight polygons.
pub open spec fn spec_blend_fragment(toon: Seq<Colour>, highlight: bool, mode: PolygonMode, v: ColourAlpha) -> ColourAlpha {
    match mode {
        PolygonMode::ToonHighlight => {
            let table = toon[(v.col.r / 8) as int];
            if highlight {
                ColourAlpha {
                    col: Colour { r: sat_add(v.col.r, table.r), g: sat_add(v.col.g, table.g), b: sat_add(v.col.b, table.b) },
                    alpha: v.alpha,
                }
            } else {
                ColourAlpha { col: table, alpha: v.alpha }
            }
        },
        _ => v,
    }
}

fn modulate_exec(a: u8, b: u8) -> (r: u8)
    ensures
        r == modulate(a, b),
{
    assert((a + 1) * (b + 1) <= 256 * 256 && (a + 1) * (b + 1) >= 1) by (nonlinear_arith)
        requires a <= 255, b <= 255;
    let p: u32 = ((a as u32) + 1) * ((b as u32) + 1) - 1;
    (p / 256) as u8
}

fn sat_add_exec(a: u8, b: u8) -> (r: u8)
    ensures
        r == sat_add(a, b),
{
    a.saturating_add(b)
}

/// Blends a fragment's vertex colour with its texel by the polygon's mode.
pub fn blend_frag_tex_colour(toon_table: &[Colour; 32], highlight: bool, mode: PolygonMode, vtx_colour: ColourAlpha, tex_colour: ColourAlpha) -> (r: ColourAlpha)
    requires
        mode == PolygonMode::Decal ==> tex_colour.alpha <= 0x1F,
    ensures
        r == spec_blend_tex(toon_table@, highlight, mode, vtx_colour, tex_colour),
{
    match mode {
        PolygonMode::Modulation => {
            let va = vtx_colour.alpha as u32;
            let ta = tex_colour.alpha as u32;
            assert((va + 1) * (ta + 1) <= 256 * 256 && (va + 1) * (ta + 1) >= 1) by (nonlinear_arith)
                requires va <= 255, ta <= 255;
            let a: u32 = (va + 1) * (ta + 1) - 1;
            ColourAlpha {
                col: Colour {
                    r: modulate_exec(vtx_colour.col.r, tex_colour.col.r),
                    g: modulate_exec(vtx_colour.col.g, tex_colour.col.g),
                    b: modulate_exec(vtx_colour.col.b, tex_colour.col.b),
                },
                alpha: ((a / 32) as u16) as u8,
            }
        },
        PolygonMode::Decal => {
            if tex_colour.alpha == 0 {
                vtx_colour
            } else if tex_colour.alpha == 0x1F {
                ColourAlpha { col: tex_colour.col, alpha: vtx_colour.alpha }
            } else {
                let ta = tex_colour.alpha as u16;
                ColourAlpha { col: mix_exec(vtx_colour.col, tex_colour.col, 0x1F - ta, ta, 32), alpha: vtx_colour.alpha }
            }
        },
        PolygonMode::ToonHighlight => {
            let index = (vtx_colour.col.r / 8) as usize;
            let table = toon_table[index];
            let va = vtx_colour.alpha as u32;
            let ta = tex_colour.alpha as u32;
            assert(va * ta <= 255 * 255) by (nonlinear_arith)
                requires va <= 255, ta <= 255;
            let a: u32 = va * ta;
            if highlight {
                ColourAlpha {
                    col: Colour {
                        r: sat_add_exec(modulate_exec(vtx_colour.col.r, tex_colour.col.r), table.r),
                        g: sat_add_exec(modulate_exec(vtx_colour.col.g, tex_colour.col.g), table.g),
                        b: sat_add_exec(modulate_exec(vtx_colour.col.b, tex_colour.col.b), table.b),
                    },
                    alpha: ((a / 32) as u16) as u8,
                }
            } else {
                ColourAlpha {
                    col: Colour {
                        r: modulate_exec(table.r, tex_colour.col.r),
                        g: modulate_exec(table.g, tex_colour.col.g),
                        b: modulate_exec(table.b, tex_colour.col.b),
                    },
                    alpha: ((a / 32) as u16) as u8,
                }
            }
        },
        PolygonMode::Shadow => vtx_colour,
    }
}

/// The colour of a fragment without a texture.
pub fn blend_fragment_colour(toon_table: &[Colour; 32], highlight: bool, mode: PolygonMode, vtx_colour: ColourAlpha) -> (r: ColourAlpha)
    ensures
        r == spec_blend_fragment(toon_table@, highlight, mode, vtx_colour),
{
    match mode {
        PolygonMode::ToonHighlight => {
            let table = toon_table[(vtx_colour.col.r / 8) as usize];
            if highlight {
                ColourAlpha {
                    col: Colour {
                        r: sat_add_exec(vtx_colour.col.r, table.r),
                        g: sat_add_exec(vtx_colour.col.g, table.g),
                        b: sat_add_exec(vtx_colour.col.b, table.b),
                    },
                    alpha: vtx_colour.alpha,
                }
            } else {
                ColourAlpha { col: table, alpha: vtx_colour.alpha }
            }
        },
        _ => vtx_colour,
    }
}

/// How a fragment's colour meets its texel. Modulation multiplies the two
/// as fractions of full intensity: in either order, an opaque white texel
/// leaves a fragment of 5-bit alpha as it is, and a black texel gives black.
/// Decal lays the texel over the fragment by the texel's alpha, keeping the
/// fragment's alpha: alpha 0 shows the fragment, alpha 31 the texel, and in
/// between each channel (weighted by 31 - alpha and alpha, over 32) is no
/// more than the larger of the two, and no less than 31/32 of the smaller. Shadow polygons ignore the
/// texel, and toon shading without highlight takes the colour from the toon
/// table entry of the fragment's red channel.
pub proof fn lemma_blend_laws(toon: Seq<Colour>, highlight: bool, v: ColourAlpha, t: ColourAlpha)
    ensures
        spec_blend_tex(toon, highlight, PolygonMode::Modulation, v, t).col == spec_blend_tex(
            toon,
            highlight,
            PolygonMode::Modulation,
            t,
            v,
        ).col,
        v.alpha <= 0x1F ==> spec_blend_tex(
            toon,
            highlight,
            PolygonMode::Modulation,
            v,
            ColourAlpha { col: Colour { r: 255, g: 255, b: 255 }, alpha: 0x1F },
        ) == v,
        spec_blend_tex(toon, highlight, PolygonMode::Modulation, v, ColourAlpha { col: Colour { r: 0, g: 0, b: 0 }, alpha: t.alpha }).col
            == (Colour { r: 0, g: 0, b: 0 }),
        t.alpha == 0 ==> spec_blend_tex(toon, highlight, PolygonMode::Decal, v, t) == v,
        t.alpha == 0x1F ==> spec_blend_tex(toon, highlight, PolygonMode::Decal, v, t) == (ColourAlpha { col: t.col, alpha: v.alpha }),
        t.alpha <= 0x1F ==> ({
            let d = spec_blend_tex(toon, highlight, PolygonMode::Decal, v, t);
            &&& d.alpha == v.alpha
            &&& between(d.col.r, v.col.r, t.col.r)
            &&& between(d.col.g, v.col.g, t.col.g)
            &&& between(d.col.b, v.col.b, t.col.b)
        }),
        spec_blend_tex(toon, highlight, PolygonMode::Shadow, v, t) == v,
        !highlight ==> spec_blend_tex(toon, highlight, PolygonMode::ToonHighlight, v, t).col == (Colour {
            r: modulate(toon[(v.col.r / 8) as int].r, t.col.r),
            g: modulate(toon[(v.col.r / 8) as int].g, t.col.g),
            b: modulate(toon[(v.col.r / 8) as int].b, t.col.b),
        }),
{
    lemma_modulate_laws(v.col.r, t.col.r);
    lemma_modulate_laws(v.col.g, t.col.g);
    lemma_modulate_laws(v.col.b, t.col.b);
    if t.alpha <= 0x1F {
        lemma_mix_between(v.col.r, t.col.r, t.alpha as int);
        lemma_mix_between(v.col.g, t.col.g, t.alpha as int);
        lemma_mix_between(v.col.b, t.col.b, t.alpha as int);
    }
    if v.alpha <= 0x1F {
        let va = v.alpha as int;
        assert(((va + 1) * 32 - 1) / 32 == va);
    }
}

/// `x` is no more than the larger of `a` and `b`, and no less than 31/32
/// of the smaller, rounded down.
pub open spec fn between(x: u8, a: u8, b: u8) -> bool {
    let lo = if a <= b { a } else { b };
    let hi = if a <= b { b } else { a };
    (lo as int * 31) / 32 <= x <= hi
}

proof fn lemma_modulate_laws(a: u8, b: u8)
    ensures
        modulate(a, b) == modulate(b, a),
        modulate(a, 255) == a,
        modulate(a, 0) == 0,
{
    assert((a + 1) * (b + 1) == (b + 1) * (a + 1)) by (nonlinear_arith);
    assert(((a + 1) * 256 - 1) / 256 == a);
    assert(((a + 1) * 1 - 1) / 256 == 0);
}

proof fn lemma_mix_between(x: u8, y: u8, ta: int)
    requires
        0 <= ta <= 0x1F,
    ensures
        between(((x * (0x1F - ta) + y * ta) / 32) as u8, x, y),
        between(x, x, y),
        between(y, x, y),
{
    let s = x * (0x1F - ta) + y * ta;
    if x <= y {
        assert(x * 0x1F <= s <= y * 0x1F) by (nonlinear_arith)
            requires s == x * (0x1F - ta) + y * ta, x <= y, 0 <= ta <= 0x1F, 0 <= x;
    } else {
        assert(y * 0x1F <= s <= x * 0x1F) by (nonlinear_arith)
            requires s == x * (0x1F - ta) + y * ta, y < x, 0 <= ta <= 0x1F, 0 <= y;
    }
    assert(s / 32 <= 255);
}

} // verus!
