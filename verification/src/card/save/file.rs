//! The save image and the header that names its chip in a save file.
use vstd::prelude::*;

verus! {

/// Bytes of header in front of the image in a save file.
pub const HEADER_SIZE: usize = 8;
/// Header code of a 9-bit EEPROM.
pub const SMALL_EEPROM_CODE: u8 = 0x53;
/// Header code of a larger EEPROM.
pub const EEPROM_CODE: u8 = 0x45;
/// Header code of a FLASH chip.
pub const FLASH_CODE: u8 = 0x46;

/// Save type extracted from a save file, or detected from what the game does.
#[derive(Clone, Copy, PartialEq, Eq, Structural)]
pub enum SaveType {
    SmallEEPROM(usize),
    EEPROM(usize),
    FLASH(usize),
}

/// The ASCII decimal digits of `n`, most significant first, with no padding.
pub open spec fn decimal(n: nat) -> Seq<u8>
    decreases n,
{
    if n < 10 {
        seq![(48 + n) as u8]
    } else {
        decimal(n / 10).push((48 + n % 10) as u8)
    }
}

/// `n` in decimal, padded with leading zeros to at least `width` digits.
pub open spec fn zero_padded(n: nat, width: nat) -> Seq<u8> {
    let d = decimal(n);
    if d.len() >= width {
        d
    } else {
        Seq::new((width - d.len()) as nat, |i: int| 48u8) + d
    }
}

/// An ASCII decimal digit.
pub open spec fn is_digit(b: u8) -> bool {
    48 <= b <= 57
}

/// The value of a run of ASCII decimal digits.
pub open spec fn digits_value(s: Seq<u8>) -> nat
    decreases s.len(),
{
    if s.len() == 0 {
        0
    } else {
        digits_value(s.drop_last()) * 10 + (s.last() - 48) as nat
    }
}

/// Seven characters that read as an unsigned number: seven digits, or a plus
/// sign and six digits.
pub open spec fn number_field_ok(s: Seq<u8>) -> bool {
    &&& s.len() == 7
    &&& (s[0] == 43u8 || is_digit(s[0]))
    &&& forall|i: int| 1 <= i < 7 ==> is_digit(#[trigger] s[i])
}

/// The number a field of `number_field_ok` reads as.
pub open spec fn number_field_value(s: Seq<u8>) -> nat {
    if s[0] == 43u8 { digits_value(s.subrange(1, 7)) } else { digits_value(s) }
}

impl SaveType {
    /// The size that is written in the header: bytes for a small EEPROM,
    /// kilobytes for the others.
    pub open spec fn header_number(self) -> nat {
        match self {
            SaveType::SmallEEPROM(n) => n as nat,
            SaveType::EEPROM(n) => (n / 1024) as nat,
            SaveType::FLASH(n) => (n / 1024) as nat,
        }
    }

    pub open spec fn header_code(self) -> u8 {
        match self {
            SaveType::SmallEEPROM(_) => SMALL_EEPROM_CODE,
            SaveType::EEPROM(_) => EEPROM_CODE,
            SaveType::FLASH(_) => FLASH_CODE,
        }
    }

    /// The header of a save file: the type's code and its size in at least
    /// seven decimal digits.
    pub open spec fn header(self) -> Seq<u8> {
        seq![self.header_code()] + zero_padded(self.header_number(), 7)
    }

    /// The header of a save file of this type.
    pub fn to_buffer(&self) -> (r: Vec<u8>)
        ensures
            r@ == self.header(),
    {
        let (code, number) = match self {
            SaveType::SmallEEPROM(n) => (SMALL_EEPROM_CODE, *n),
            SaveType::EEPROM(n) => (EEPROM_CODE, *n / 1024),
            SaveType::FLASH(n) => (FLASH_CODE, *n / 1024),
        };
        let mut digits: Vec<u8> = Vec::new();
        push_decimal(number, &mut digits);
        assert(digits@ == decimal(number as nat));
        let mut out: Vec<u8> = Vec::new();
        out.push(code);
        let mut pad: usize = 0;
        let n_digits = digits.len();
        while pad + n_digits < 7
            invariant
                n_digits == digits@.len(),
                out@.len() == 1 + pad,
                out@[0] == code,
                forall|i: int| 1 <= i < out@.len() ==> out@[i] == 48u8,
                pad + n_digits <= 7 || pad == 0,
            decreases 7 - pad - n_digits,
        {
            out.push(48u8);
            pad = pad + 1;
        }
        let mut i: usize = 0;
        let ghost prefix = out@;
        while i < digits.len()
            invariant
                i <= digits@.len(),
                out@ == prefix + digits@.subrange(0, i as int),
            decreases digits@.len() - i,
        {
            out.push(digits[i]);
            i = i + 1;
        }
        proof {
            assert(digits@.subrange(0, digits@.len() as int) == digits@);
            let d = decimal(number as nat);
            if d.len() >= 7 {
                assert(prefix == seq![code]);
            } else {
                assert(prefix == seq![code] + Seq::new((7 - d.len()) as nat, |i: int| 48u8));
            }
        }
        out
    }
}


/// The save type that a save file's header names, if the header is one:
/// a code byte, then the size as a seven-character unsigned number (bytes
/// for a small EEPROM, kilobytes for the others). A small EEPROM's header
/// reads back as an EEPROM of that many bytes.
pub open spec fn header_type(h: Seq<u8>) -> Option<SaveType> {
    if h.len() < HEADER_SIZE || !number_field_ok(h.subrange(1, 8)) {
        None
    } else {
        let v = number_field_value(h.subrange(1, 8));
        if h[0] == SMALL_EEPROM_CODE {
            Some(SaveType::EEPROM(v as usize))
        } else if h[0] == EEPROM_CODE && v * 1024 <= usize::MAX {
            Some(SaveType::EEPROM((v * 1024) as usize))
        } else if h[0] == FLASH_CODE && v * 1024 <= usize::MAX {
            Some(SaveType::FLASH((v * 1024) as usize))
        } else {
            None
        }
    }
}

/// Reads the save type from the first bytes of a save file; `None` where
/// they are no header.
pub fn type_from_header(h: &[u8]) -> (r: Option<SaveType>)
    ensures
        r == header_type(h@),
{
    if h.len() < HEADER_SIZE {
        return None;
    }
    let start: usize = if h[1] == 43u8 { 2 } else { 1 };
    let mut v: u32 = 0;
    let mut i: usize = start;
    let ghost field = h@.subrange(1, 8);
    let ghost digits = if h[1] == 43u8 { field.subrange(1, 7) } else { field };
    while i < 8
        invariant
            h@.len() >= 8,
            start == (if h@[1] == 43u8 { 2usize } else { 1usize }),
            start <= i <= 8,
            field == h@.subrange(1, 8),
            digits == h@.subrange(start as int, 8),
            forall|k: int| start <= k < i ==> is_digit(#[trigger] h@[k]),
            v == digits_value(h@.subrange(start as int, i as int)),
            v < pow10((i - start) as nat),
        decreases 8 - i,
    {
        if !(48u8 <= h[i] && h[i] <= 57u8) {
            proof {
                if number_field_ok(field) {
                    assert(is_digit(field[i - 1]));
                }
            }
            return None;
        }
        proof {
            let s = h@.subrange(start as int, i as int + 1);
            assert(s.drop_last() == h@.subrange(start as int, i as int));
            assert(pow10((i + 1 - start) as nat) == pow10((i - start) as nat) * 10);
            lemma_pow10_bound((i - start) as nat);
        }
        v = v * 10 + (h[i] - 48u8) as u32;
        i = i + 1;
    }
    proof {
        assert(number_field_ok(field));
        if h@[1] == 43u8 {
            assert(field.subrange(1, 7) == h@.subrange(2, 8));
        } else {
            assert(field == h@.subrange(1, 8));
        }
    }
    if h[0] == SMALL_EEPROM_CODE {
        Some(SaveType::EEPROM(v as usize))
    } else if h[0] == EEPROM_CODE {
        match (v as usize).checked_mul(1024) {
            Some(n) => Some(SaveType::EEPROM(n)),
            None => None,
        }
    } else if h[0] == FLASH_CODE {
        match (v as usize).checked_mul(1024) {
            Some(n) => Some(SaveType::FLASH(n)),
            None => None,
        }
    } else {
        None
    }
}

proof fn lemma_pow10_bound(k: nat)
    requires
        k <= 7,
    ensures
        pow10(k) <= 10000000,
{
    reveal_with_fuel(pow10, 8);
}

/// Ten to the power `n`.
pub open spec fn pow10(n: nat) -> nat
    decreases n,
{
    if n == 0 { 1 } else { 10 * pow10((n - 1) as nat) }
}


impl SaveType {
    /// The size of the save memory of this type, in bytes.
    pub open spec fn size(self) -> usize {
        match self {
            SaveType::SmallEEPROM(n) => n,
            SaveType::EEPROM(n) => n,
            SaveType::FLASH(n) => n,
        }
    }
}

/// Save memory, with a mark for whether it changed since it was last
/// handed out to be stored.
pub struct SaveFile {
    pub buffer: Vec<u8>,
    pub dirty: bool,
}

impl SaveFile {
    /// Save memory holding the image read from a save file.
    pub fn from_file(buffer: Vec<u8>) -> (r: Self)
        ensures
            r.buffer@ == buffer@,
            !r.dirty,
    {
        SaveFile { buffer, dirty: false }
    }

    /// Blank save memory of the given type.
    pub fn from_type(save_type: SaveType) -> (r: Self)
        ensures
            r.buffer@ == Seq::new(save_type.size() as nat, |i: int| 0u8),
            !r.dirty,
    {
        let size = match save_type {
            SaveType::SmallEEPROM(n) => n,
            SaveType::EEPROM(n) => n,
            SaveType::FLASH(n) => n,
        };
        let buffer = vec![0u8; size];
        assert(buffer@ == Seq::new(size as nat, |i: int| 0u8));
        SaveFile { buffer, dirty: false }
    }

    pub fn read_byte(&self, addr: u32) -> (r: u8)
        requires
            addr < self.buffer@.len(),
        ensures
            r == self.buffer@[addr as int],
    {
        self.buffer[addr as usize]
    }

    pub fn write_byte(&mut self, addr: u32, data: u8)
        requires
            addr < old(self).buffer@.len(),
        ensures
            final(self).buffer@ == old(self).buffer@.update(addr as int, data),
            final(self).dirty,
    {
        self.buffer.set(addr as usize, data);
        self.dirty = true;
    }

    /// The image to store, if it changed since it was last handed out; it
    /// counts as stored afterwards.
    pub fn flush(&mut self) -> (r: Option<Vec<u8>>)
        ensures
            final(self).buffer@ == old(self).buffer@,
            !final(self).dirty,
            match r {
                Some(v) => old(self).dirty && v@ == old(self).buffer@,
                None => !old(self).dirty,
            },
    {
        if self.dirty {
            self.dirty = false;
            Some(self.buffer.clone())
        } else {
            None
        }
    }
}

/// Appends the decimal digits of `n` to `out`.
fn push_decimal(n: usize, out: &mut Vec<u8>)
    ensures
        final(out)@ == old(out)@ + decimal(n as nat),
    decreases n,
{
    if n < 10 {
        out.push(48u8 + n as u8);
    } else {
        push_decimal(n / 10, out);
        out.push(48u8 + (n % 10) as u8);
    }
}


/// The decimal digits of `n` are digits, one more than those of `n / 10`,
/// and read back as `n`.
proof fn lemma_decimal(n: nat)
    ensures
        forall|i: int| 0 <= i < decimal(n).len() ==> is_digit(#[trigger] decimal(n)[i]),
        digits_value(decimal(n)) == n,
        decimal(n).len() >= 1,
        n < 10 ==> decimal(n).len() == 1,
        n >= 10 ==> decimal(n).len() == decimal(n / 10).len() + 1,
    decreases n,
{
    let d = decimal(n);
    if n >= 10 {
        lemma_decimal(n / 10);
        assert(d.drop_last() == decimal(n / 10));
        assert(d.last() == (48 + n % 10) as u8);
        assert(digits_value(d) == digits_value(decimal(n / 10)) * 10 + (d.last() - 48) as nat);
        assert((n / 10) * 10 + n % 10 == n);
    } else {
        assert(d.drop_last() =~= Seq::<u8>::empty());
        assert(digits_value(d) == digits_value(d.drop_last()) * 10 + (d.last() - 48) as nat);
    }
}

/// Below ten to the power `k`, a number has at most `k` digits.
proof fn lemma_decimal_len(n: nat, k: nat)
    requires
        k >= 1,
        n < pow10(k),
    ensures
        decimal(n).len() <= k,
    decreases k,
{
    lemma_decimal(n);
    if n >= 10 {
        if k == 1 {
            assert(pow10(1) == 10) by {
                reveal_with_fuel(pow10, 2);
            }
        } else {
            lemma_decimal_len(n / 10, (k - 1) as nat);
        }
    }
}

/// Leading zeros do not change the value of digits.
proof fn lemma_zeros_value(z: nat, s: Seq<u8>)
    ensures
        digits_value(Seq::new(z, |i: int| 48u8) + s) == digits_value(s),
    decreases s.len(), z,
{
    let zs = Seq::new(z, |i: int| 48u8);
    if s.len() == 0 {
        assert(zs + s =~= zs);
        if z > 0 {
            assert(zs.drop_last() =~= Seq::new((z - 1) as nat, |i: int| 48u8));
            lemma_zeros_value((z - 1) as nat, s);
            assert(Seq::new((z - 1) as nat, |i: int| 48u8) + s =~= Seq::new((z - 1) as nat, |i: int| 48u8));
        }
    } else {
        assert((zs + s).drop_last() =~= zs + s.drop_last());
        lemma_zeros_value(z, s.drop_last());
    }
}

/// The header written for an EEPROM or FLASH save reads back as the same
/// type, for a size that is whole kilobytes and fits the seven digits.
pub proof fn lemma_header_roundtrip(t: SaveType)
    requires
        !(t is SmallEEPROM),
        t.size() % 1024 == 0,
        t.size() / 1024 < 10_000_000,
    ensures
        header_type(t.header()) == Some(t),
{
    let n = t.header_number();
    let d = decimal(n);
    lemma_decimal(n);
    assert(pow10(7) == 10_000_000) by {
        reveal_with_fuel(pow10, 8);
    }
    lemma_decimal_len(n, 7);
    let z = (7 - d.len()) as nat;
    let padded = zero_padded(n, 7);
    if d.len() >= 7 {
        assert(padded == d);
    } else {
        assert(padded == Seq::new(z, |i: int| 48u8) + d);
        lemma_zeros_value(z, d);
    }
    let h = t.header();
    assert(h.subrange(1, 8) =~= padded);
    assert(padded.len() == 7);
    assert forall|i: int| 0 <= i < 7 implies is_digit(#[trigger] padded[i]) by {
        if d.len() < 7 && i < z {
        } else if d.len() < 7 {
            assert(padded[i] == d[i - z]);
        }
    }
    assert(number_field_ok(h.subrange(1, 8)));
    assert(number_field_value(h.subrange(1, 8)) == n);
}

} // verus!
