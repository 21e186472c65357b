//! KEY1 (Blowfish) and KEY2 (stream) encryption of the card bus.
use vstd::prelude::*;
use crate::bits::{spec_hi32, spec_lo32, spec_make64, hi32, lo32, make64};
use crate::ram::spec_le32;

verus! {

/// Words in a KEY1 buffer: 18 subkeys and four S-boxes of 256 words.
pub const KEY1_BUF_LEN: usize = 0x412;

/// Sum of two words, wrapping.
pub open spec fn wrapping_add32(a: u32, b: u32) -> u32 {
    if a + b > u32::MAX {
        (a + b - 0x1_0000_0000) as u32
    } else {
        (a + b) as u32
    }
}

/// The Blowfish round function: the four S-boxes indexed by the bytes of `z`,
/// most significant first, combined by add, xor, add.
pub open spec fn key1_f(key: Seq<u32>, z: u32) -> u32 {
    let a = key[0x12 + z / 0x100_0000];
    let b = key[0x112 + (z / 0x1_0000) % 0x100];
    let c = key[0x212 + (z / 0x100) % 0x100];
    let d = key[0x312 + z % 0x100];
    wrapping_add32(d, c ^ wrapping_add32(b, a))
}

/// One round with subkey `i` on the halves `(x, y)`.
pub open spec fn key1_round(key: Seq<u32>, i: int, x: u32, y: u32) -> (u32, u32) {
    let z = key[i] ^ x;
    (y ^ key1_f(key, z), z)
}

/// The first `n` encryption rounds, with subkeys 0, 1, ...
pub open spec fn key1_encrypt_rounds(key: Seq<u32>, n: nat, x: u32, y: u32) -> (u32, u32)
    decreases n,
{
    if n == 0 {
        (x, y)
    } else {
        let p = key1_encrypt_rounds(key, (n - 1) as nat, x, y);
        key1_round(key, n - 1, p.0, p.1)
    }
}

/// The first `n` decryption rounds, with subkeys 0x11, 0x10, ...
pub open spec fn key1_decrypt_rounds(key: Seq<u32>, n: nat, x: u32, y: u32) -> (u32, u32)
    decreases n,
{
    if n == 0 {
        (x, y)
    } else {
        let p = key1_decrypt_rounds(key, (n - 1) as nat, x, y);
        key1_round(key, 0x12 - n, p.0, p.1)
    }
}

/// A block encrypted with KEY1: sixteen rounds on (high, low), then the
/// last two subkeys.
pub open spec fn key1_encrypt(key: Seq<u32>, block: u64) -> u64 {
    let p = key1_encrypt_rounds(key, 16, spec_hi32(block), spec_lo32(block));
    spec_make64(p.1 ^ key[0x11], p.0 ^ key[0x10])
}

/// A block decrypted with KEY1: sixteen rounds with the subkeys in reverse,
/// then the first two subkeys.
pub open spec fn key1_decrypt(key: Seq<u32>, block: u64) -> u64 {
    let p = key1_decrypt_rounds(key, 16, spec_hi32(block), spec_lo32(block));
    spec_make64(p.1 ^ key[0], p.0 ^ key[1])
}

fn key1_f_exec(key_buf: &[u32], z: u32) -> (r: u32)
    requires
        key_buf@.len() >= KEY1_BUF_LEN,
    ensures
        r == key1_f(key_buf@, z),
{
    let a = key_buf[0x12 + (z / 0x100_0000) as usize];
    let b = key_buf[0x112 + ((z / 0x1_0000) % 0x100) as usize];
    let c = key_buf[0x212 + ((z / 0x100) % 0x100) as usize];
    let d = key_buf[0x312 + (z % 0x100) as usize];
    d.wrapping_add(c ^ b.wrapping_add(a))
}

/// Decrypts a KEY1-encoded block.
pub fn key_1_decrypt(block: u64, key_buf: &[u32]) -> (r: u64)
    requires
        key_buf@.len() >= KEY1_BUF_LEN,
    ensures
        r == key1_decrypt(key_buf@, block),
{
    let mut y = lo32(block);
    let mut x = hi32(block);
    let mut n: usize = 0;
    while n < 16
        invariant
            n <= 16,
            key_buf@.len() >= KEY1_BUF_LEN,
            (x, y) == key1_decrypt_rounds(key_buf@, n as nat, spec_hi32(block), spec_lo32(block)),
        decreases 16 - n,
    {
        let z = key_buf[0x11 - n] ^ x;
        x = y ^ key1_f_exec(key_buf, z);
        y = z;
        n = n + 1;
    }
    x = x ^ key_buf[1];
    y = y ^ key_buf[0];
    make64(y, x)
}

/// Encrypts a block with KEY1.
pub fn key_1_encrypt(block: u64, key_buf: &[u32]) -> (r: u64)
    requires
        key_buf@.len() >= KEY1_BUF_LEN,
    ensures
        r == key1_encrypt(key_buf@, block),
{
    let mut y = lo32(block);
    let mut x = hi32(block);
    let mut i: usize = 0;
    while i < 16
        invariant
            i <= 16,
            key_buf@.len() >= KEY1_BUF_LEN,
            (x, y) == key1_encrypt_rounds(key_buf@, i as nat, spec_hi32(block), spec_lo32(block)),
        decreases 16 - i,
    {
        let z = key_buf[i] ^ x;
        x = y ^ key1_f_exec(key_buf, z);
        y = z;
        i = i + 1;
    }
    x = x ^ key_buf[0x10];
    y = y ^ key_buf[0x11];
    make64(y, x)
}


/// A word with its bytes in reverse order.
pub open spec fn bswap32(x: u32) -> u32 {
    ((x % 0x100) * 0x100_0000 + ((x / 0x100) % 0x100) * 0x1_0000 + ((x / 0x1_0000) % 0x100) * 0x100
        + x / 0x100_0000) as u32
}

fn swap_bytes32(x: u32) -> (r: u32)
    ensures
        r == bswap32(x),
{
    (x % 0x100) * 0x100_0000 + ((x / 0x100) % 0x100) * 0x1_0000 + ((x / 0x1_0000) % 0x100) * 0x100 + x
        / 0x100_0000
}

/// The key code after it is applied once: its two halves encrypted in turn.
pub open spec fn key1_code_step(key: Seq<u32>, code: Seq<u32>) -> Seq<u32> {
    let hi = key1_encrypt(key, spec_make64(code[2], code[1]));
    let lo = key1_encrypt(key, spec_make64(spec_lo32(hi), code[0]));
    seq![spec_lo32(lo), spec_hi32(lo), spec_hi32(hi)]
}

/// The key buffer with the first eighteen words mixed with the key code,
/// byte-swapped, alternating between its first two words.
pub open spec fn key1_mix(key: Seq<u32>, code: Seq<u32>) -> Seq<u32> {
    Seq::new(key.len(), |j: int| if j < 0x12 { key[j] ^ bswap32(code[j % 2]) } else { key[j] })
}

/// The buffer and the running block after `n` steps of re-encrypting the
/// buffer in place, two words per step, from a zero block.
pub open spec fn key1_waterfall(key: Seq<u32>, n: nat) -> (Seq<u32>, u64)
    decreases n,
{
    if n == 0 {
        (key, 0)
    } else {
        let p = key1_waterfall(key, (n - 1) as nat);
        let s = key1_encrypt(p.0, p.1);
        (p.0.update(2 * (n - 1), spec_hi32(s)).update(2 * (n - 1) + 1, spec_lo32(s)), s)
    }
}

/// The key buffer after a key code is applied to it.
pub open spec fn key1_applied(key: Seq<u32>, code: Seq<u32>) -> Seq<u32> {
    key1_waterfall(key1_mix(key, key1_code_step(key, code)), 0x209).0
}

/// Applies the key code to a key buffer, advancing the code: the buffer
/// this gives is unique to the game.
fn key_1_apply(key_code: &mut [u32; 3], key_buf: &[u32]) -> (r: Vec<u32>)
    requires
        key_buf@.len() >= KEY1_BUF_LEN,
    ensures
        final(key_code)@ == key1_code_step(key_buf@, old(key_code)@),
        r@ == key1_applied(key_buf@, old(key_code)@),
        r@.len() == key_buf@.len(),
{
    let ghost code0 = key_code@;
    let key_code_hi = key_1_encrypt(make64(key_code[2], key_code[1]), key_buf);
    let key_code_lo = key_1_encrypt(make64(lo32(key_code_hi), key_code[0]), key_buf);
    key_code.set(2, hi32(key_code_hi));
    key_code.set(1, hi32(key_code_lo));
    key_code.set(0, lo32(key_code_lo));
    assert(key_code@ == key1_code_step(key_buf@, code0));
    let mut key_out: Vec<u32> = Vec::new();
    let mut i: usize = 0;
    while i < key_buf.len()
        invariant
            i <= key_buf@.len(),
            key_out@.len() == i,
            key_code@ == key1_code_step(key_buf@, code0),
            forall|j: int| 0 <= j < i ==> key_out@[j] == key1_mix(key_buf@, key_code@)[j],
        decreases key_buf@.len() - i,
    {
        let word = if i < 0x12 {
            key_buf[i] ^ swap_bytes32(key_code[i % 2])
        } else {
            key_buf[i]
        };
        key_out.push(word);
        i = i + 1;
    }
    assert(key_out@ == key1_mix(key_buf@, key_code@));
    let ghost mixed = key_out@;
    let mut scratch: u64 = 0;
    let mut n: usize = 0;
    while n < 0x209
        invariant
            n <= 0x209,
            mixed.len() >= KEY1_BUF_LEN,
            (key_out@, scratch) == key1_waterfall(mixed, n as nat),
            key_out@.len() == mixed.len(),
        decreases 0x209 - n,
    {
        scratch = key_1_encrypt(scratch, key_out.as_slice());
        key_out.set(n * 2, hi32(scratch));
        key_out.set(n * 2 + 1, lo32(scratch));
        n = n + 1;
    }
    key_out
}

/// The key buffer that decodes commands at level two: the key code made
/// from the game's id, applied twice.
pub open spec fn key1_level2(id_code: u32, key: Seq<u32>) -> Seq<u32> {
    let code = seq![id_code, id_code / 2, ((id_code * 2) % 0x1_0000_0000) as u32];
    key1_applied(key1_applied(key, code), key1_code_step(key, code))
}

/// Encrypts KEY1 to level two, to decode incoming commands.
pub fn key_1_init(id_code: u32, key_buf: &[u32]) -> (r: Vec<u32>)
    requires
        key_buf@.len() >= KEY1_BUF_LEN,
    ensures
        r@ == key1_level2(id_code, key_buf@),
{
    let mut key_code: [u32; 3] = [id_code, id_code / 2, (((id_code as u64) * 2) % 0x1_0000_0000) as u32];
    let ghost code0 = key_code@;
    assert(code0 == seq![id_code, id_code / 2, ((id_code * 2) % 0x1_0000_0000) as u32]);
    let level_1_key = key_1_apply(&mut key_code, key_buf);
    key_1_apply(&mut key_code, level_1_key.as_slice())
}


/// Where the KEY1 table starts in the ARM7 BIOS.
pub const KEY1_BIOS_OFFSET: usize = 0x30;

/// The KEY1 table kept in the ARM7 BIOS: `KEY1_BUF_LEN` little-endian words
/// from `KEY1_BIOS_OFFSET` on.
pub fn key1_from_bios(bios: &[u8]) -> (r: Vec<u32>)
    requires
        bios@.len() >= KEY1_BIOS_OFFSET + 4 * KEY1_BUF_LEN,
    ensures
        r@.len() == KEY1_BUF_LEN,
        forall|i: int| 0 <= i < KEY1_BUF_LEN ==> #[trigger] r@[i] == spec_le32(bios@, KEY1_BIOS_OFFSET + 4 * i),
{
    let mut key: Vec<u32> = Vec::new();
    let mut i: usize = 0;
    while i < KEY1_BUF_LEN
        invariant
            i <= KEY1_BUF_LEN,
            bios@.len() >= KEY1_BIOS_OFFSET + 4 * KEY1_BUF_LEN,
            key@.len() == i,
            forall|j: int| 0 <= j < i ==> #[trigger] key@[j] == spec_le32(bios@, KEY1_BIOS_OFFSET + 4 * j),
        decreases KEY1_BUF_LEN - i,
    {
        let a = KEY1_BIOS_OFFSET + 4 * i;
        let w = (bios[a] as u32) + (bios[a + 1] as u32) * 0x100 + (bios[a + 2] as u32) * 0x1_0000
            + (bios[a + 3] as u32) * 0x100_0000;
        key.push(w);
        i = i + 1;
    }
    key
}

/// The byte that the KEY2 register `x` shifts in next (taps 5, 17, 18, 31).
pub open spec fn key2_x_tap(x: u64) -> u64 {
    ((x >> 5u64) ^ (x >> 17u64) ^ (x >> 18u64) ^ (x >> 31u64)) & 0xFF
}

/// The byte that the KEY2 register `y` shifts in next (taps 5, 23, 18, 31).
pub open spec fn key2_y_tap(y: u64) -> u64 {
    ((y >> 5u64) ^ (y >> 23u64) ^ (y >> 18u64) ^ (y >> 31u64)) & 0xFF
}

/// A 39-bit KEY2 register after it shifts in a byte.
pub open spec fn key2_shift(r: u64, b: u64) -> u64 {
    ((r << 8u64) | b) & 0x7F_FFFF_FFFF
}

/// A byte after KEY2 with registers `x` and `y`.
pub open spec fn key2_data(data: u8, x: u64, y: u64) -> u8 {
    data ^ (key2_x_tap(x) as u8) ^ (key2_y_tap(y) as u8)
}

/// Encrypts or decrypts a byte with KEY2, and steps both registers.
pub fn key_2_encrypt(data: u8, x: u64, y: u64) -> (r: (u8, u64, u64))
    ensures
        r == (key2_data(data, x, y), key2_shift(x, key2_x_tap(x)), key2_shift(y, key2_y_tap(y))),
{
    let x_out_lo = ((x >> 5u64) ^ (x >> 17u64) ^ (x >> 18u64) ^ (x >> 31u64)) & 0xFF;
    let x_out = ((x << 8u64) | x_out_lo) & 0x7F_FFFF_FFFF;
    let y_out_lo = ((y >> 5u64) ^ (y >> 23u64) ^ (y >> 18u64) ^ (y >> 31u64)) & 0xFF;
    let y_out = ((y << 8u64) | y_out_lo) & 0x7F_FFFF_FFFF;
    let data_out = data ^ (x_out_lo as u8) ^ (y_out_lo as u8);
    (data_out, x_out, y_out)
}

/// KEY2 is its own inverse: with the same registers, a byte that was
/// encrypted decrypts to itself.
pub proof fn lemma_key_2_inverse(data: u8, x: u64, y: u64)
    ensures
        key2_data(key2_data(data, x, y), x, y) == data,
{
    let a = key2_x_tap(x) as u8;
    let b = key2_y_tap(y) as u8;
    assert(((data ^ a ^ b) ^ a) ^ b == data) by (bit_vector);
}

proof fn lemma_xor(a: u32, b: u32, c: u32)
    by (bit_vector)
    ensures
        (a ^ b) ^ b == a,
        b ^ (a ^ b) == a,
        ((a ^ b) ^ c) ^ b == a ^ c,
        a ^ b == b ^ a,
{
}

proof fn lemma_decrypt_rounds(key: Seq<u32>, x0: u32, y0: u32, t: nat)
    requires
        t <= 16,
        key.len() >= KEY1_BUF_LEN,
    ensures
        ({
            let c = key1_encrypt_rounds(key, 16, x0, y0);
            let e = key1_encrypt_rounds(key, (16 - t) as nat, x0, y0);
            key1_decrypt_rounds(key, t, c.1 ^ key[0x11], c.0 ^ key[0x10]) == (e.1 ^ key[17 - t], e.0
                ^ key[16 - t])
        }),
    decreases t,
{
    if t > 0 {
        lemma_decrypt_rounds(key, x0, y0, (t - 1) as nat);
        let c = key1_encrypt_rounds(key, 16, x0, y0);
        let e1 = key1_encrypt_rounds(key, (16 - t) as nat, x0, y0);
        let e0 = key1_encrypt_rounds(key, (17 - t) as nat, x0, y0);
        let z1 = key[16 - t] ^ e1.0;
        assert(e0 == key1_round(key, 16 - t, e1.0, e1.1));
        let f = key1_f(key, z1);
        lemma_xor(z1, key[18 - t], 0);
        lemma_xor(e1.1, f, key[17 - t]);
        lemma_xor(key[16 - t], e1.0, 0);
    }
}

/// Decrypting with KEY1 undoes encrypting with the same key buffer.
pub proof fn lemma_key_1_decrypt_encrypt(key: Seq<u32>, block: u64)
    requires
        key.len() >= KEY1_BUF_LEN,
    ensures
        key1_decrypt(key, key1_encrypt(key, block)) == block,
{
    let x0 = spec_hi32(block);
    let y0 = spec_lo32(block);
    let c = key1_encrypt_rounds(key, 16, x0, y0);
    let enc = key1_encrypt(key, block);
    assert(spec_hi32(enc) == c.1 ^ key[0x11] && spec_lo32(enc) == c.0 ^ key[0x10]);
    lemma_decrypt_rounds(key, x0, y0, 16);
    lemma_xor(y0, key[1], 0);
    lemma_xor(x0, key[0], 0);
    assert(spec_make64(x0, y0) == block);
}


proof fn lemma_encrypt_rounds(key: Seq<u32>, x0: u32, y0: u32, t: nat)
    requires
        t <= 16,
        key.len() >= KEY1_BUF_LEN,
    ensures
        ({
            let d = key1_decrypt_rounds(key, 16, x0, y0);
            let e = key1_decrypt_rounds(key, (16 - t) as nat, x0, y0);
            key1_encrypt_rounds(key, t, d.1 ^ key[0], d.0 ^ key[1]) == (e.1 ^ key[t as int], e.0 ^ key[t as int + 1])
        }),
    decreases t,
{
    if t > 0 {
        lemma_encrypt_rounds(key, x0, y0, (t - 1) as nat);
        let e1 = key1_decrypt_rounds(key, (16 - t) as nat, x0, y0);
        let e0 = key1_decrypt_rounds(key, (17 - t) as nat, x0, y0);
        let z1 = key[t as int + 1] ^ e1.0;
        assert(e0 == key1_round(key, t as int + 1, e1.0, e1.1));
        let f = key1_f(key, z1);
        lemma_xor(z1, key[t - 1], 0);
        lemma_xor(e1.1, f, key[t as int]);
        lemma_xor(key[t as int + 1], e1.0, 0);
    }
}

/// Encrypting with KEY1 undoes decrypting with the same key buffer.
pub proof fn lemma_key_1_encrypt_decrypt(key: Seq<u32>, block: u64)
    requires
        key.len() >= KEY1_BUF_LEN,
    ensures
        key1_encrypt(key, key1_decrypt(key, block)) == block,
{
    let x0 = spec_hi32(block);
    let y0 = spec_lo32(block);
    let d = key1_decrypt_rounds(key, 16, x0, y0);
    let dec = key1_decrypt(key, block);
    assert(spec_hi32(dec) == d.1 ^ key[0] && spec_lo32(dec) == d.0 ^ key[1]);
    lemma_encrypt_rounds(key, x0, y0, 16);
    lemma_xor(x0, key[0x11], 0);
    lemma_xor(y0, key[0x10], 0);
    assert(spec_make64(x0, y0) == block);
}

} // verus!
