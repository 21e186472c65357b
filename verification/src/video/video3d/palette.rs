//! The texture palette cache.
use vstd::prelude::*;

verus! {

/// Number of colours the cache holds: six 16K palette banks of 8K colours.
pub const TEX_PALETTE_COLOURS: usize = 48 * 1024;
/// Colours per palette bank.
pub const PALETTE_BANK_COLOURS: usize = 8 * 1024;

/// An RGB colour with 8 bits per channel.
#[derive(Clone, Copy, PartialEq, Eq, Structural, Debug)]
pub struct Colour {
    pub r: u8,
    pub g: u8,
    pub b: u8,
}

impl Colour {
    /// A colour from 15-bit BGR (5 bits per channel, red lowest), each
    /// channel scaled up by 8.
    pub open spec fn spec_from_555(c: u16) -> Colour {
        Colour { r: ((c % 32) * 8) as u8, g: (((c / 32) % 32) * 8) as u8, b: (((c / 1024) % 32) * 8) as u8 }
    }

    pub fn from_555(c: u16) -> (r: Colour)
        ensures
            r == Self::spec_from_555(c),
    {
        Colour { r: ((c % 32) * 8) as u8, g: (((c / 32) % 32) * 8) as u8, b: (((c / 1024) % 32) * 8) as u8 }
    }

    pub fn black() -> (r: Colour)
        ensures
            r == (Colour { r: 0, g: 0, b: 0 }),
    {
        Colour { r: 0, g: 0, b: 0 }
    }
}

/// The colour at `k` after the palette banks are copied in: where bank
/// `k / 8K` is given and holds colour `k % 8K`, that colour; otherwise as
/// before.
pub open spec fn updated_colour(old_colour: Colour, banks: Seq<Option<&[u8]>>, k: int) -> Colour {
    let s = k / PALETTE_BANK_COLOURS as int;
    let j = k % PALETTE_BANK_COLOURS as int;
    if s < banks.len() && banks[s] is Some && 2 * j + 2 <= banks[s].unwrap()@.len() {
        let bytes = banks[s].unwrap()@;
        Colour::spec_from_555((bytes[2 * j] + bytes[2 * j + 1] * 0x100) as u16)
    } else {
        old_colour
    }
}

/// The current texture palettes, as colours.
pub struct TexPaletteCache {
    pub tex_palette: Vec<Colour>,
}

impl TexPaletteCache {
    pub fn new() -> (r: Self)
        ensures
            r.tex_palette@ == Seq::new(TEX_PALETTE_COLOURS as nat, |i: int| Colour { r: 0, g: 0, b: 0 }),
    {
        let mut tex_palette: Vec<Colour> = Vec::new();
        let mut i: usize = 0;
        while i < TEX_PALETTE_COLOURS
            invariant
                i <= TEX_PALETTE_COLOURS,
                tex_palette@ == Seq::new(i as nat, |k: int| Colour { r: 0, g: 0, b: 0 }),
            decreases TEX_PALETTE_COLOURS - i,
        {
            tex_palette.push(Colour::black());
            i = i + 1;
        }
        TexPaletteCache { tex_palette }
    }

    /// Copies in the texture palette banks that are mapped.
    pub fn update_tex(&mut self, tex_palette_ram: &[Option<&[u8]>])
        requires
            old(self).tex_palette@.len() == TEX_PALETTE_COLOURS,
        ensures
            final(self).tex_palette@.len() == TEX_PALETTE_COLOURS,
            forall|k: int|
                0 <= k < TEX_PALETTE_COLOURS ==> #[trigger] final(self).tex_palette@[k] == updated_colour(
                    old(self).tex_palette@[k],
                    tex_palette_ram@,
                    k,
                ),
    {
        let ghost old_pal = self.tex_palette@;
        let mut s: usize = 0;
        while s < 6
            invariant
                s <= 6,
                self.tex_palette@.len() == TEX_PALETTE_COLOURS,
                old_pal.len() == TEX_PALETTE_COLOURS,
                forall|k: int|
                    0 <= k < TEX_PALETTE_COLOURS ==> #[trigger] self.tex_palette@[k] == if k
                        < s * PALETTE_BANK_COLOURS {
                        updated_colour(old_pal[k], tex_palette_ram@, k)
                    } else {
                        old_pal[k]
                    },
            decreases 6 - s,
        {
            if s < tex_palette_ram.len() {
                match tex_palette_ram[s] {
                    Some(ram) => {
                        let mut n: usize = ram.len() / 2;
                        if n > PALETTE_BANK_COLOURS {
                            n = PALETTE_BANK_COLOURS;
                        }
                        let mut j: usize = 0;
                        while j < n
                            invariant
                                s < 6,
                                s < tex_palette_ram@.len(),
                                tex_palette_ram@[s as int] == Some(ram),
                                n <= PALETTE_BANK_COLOURS,
                                2 * n <= ram@.len(),
                                j <= n,
                                self.tex_palette@.len() == TEX_PALETTE_COLOURS,
                                old_pal.len() == TEX_PALETTE_COLOURS,
                                forall|k: int|
                                    0 <= k < TEX_PALETTE_COLOURS ==> #[trigger] self.tex_palette@[k] == if k
                                        < s * PALETTE_BANK_COLOURS + j {
                                        updated_colour(old_pal[k], tex_palette_ram@, k)
                                    } else {
                                        old_pal[k]
                                    },
                            decreases n - j,
                        {
                            let c = (ram[2 * j] as u16) + (ram[2 * j + 1] as u16) * 0x100;
                            let k = s * PALETTE_BANK_COLOURS + j;
                            self.tex_palette.set(k, Colour::from_555(c));
                            j = j + 1;
                        }
                        proof {
                            assert forall|k: int|
                                s * PALETTE_BANK_COLOURS + n <= k < (s + 1) * PALETTE_BANK_COLOURS implies
                                updated_colour(old_pal[k], tex_palette_ram@, k) == old_pal[k] by {
                                assert(k / PALETTE_BANK_COLOURS as int == s);
                                assert(k % PALETTE_BANK_COLOURS as int == k - s * PALETTE_BANK_COLOURS);
                            }
                        }
                    },
                    None => {},
                }
            }
            s = s + 1;
        }
    }

    /// The colour at `index`.
    pub fn get_tex_colour(&self, index: u32) -> (r: Colour)
        requires
            index < self.tex_palette@.len(),
        ensures
            r == self.tex_palette@[index as int],
    {
        self.tex_palette[index as usize]
    }
}

} // verus!
