//! Division and square-root accelerators.
use vstd::prelude::*;
use crate::bits::{spec_lo32, spec_hi32, spec_make64, lo32, hi32, set_lo32, set_hi32};
use vstd::arithmetic::power2::pow2;

verus! {

pub const DIV_BUSY: u32 = 1 << 15;
pub const DIV_BY_ZERO: u32 = 1 << 14;
pub const DIV_MODE: u32 = 0x3;
pub const SQRT_BUSY: u32 = 1 << 15;
pub const SQRT_MODE: u32 = 1;

/// Quotient rounded toward zero.
pub open spec fn trunc_div(x: int, d: int) -> int {
    if x == 0 {
        0
    } else if x > 0 && d > 0 {
        x / d
    } else if x < 0 && d < 0 {
        (x * -1) / (d * -1)
    } else if x < 0 {
        ((x * -1) / d) * -1
    } else {
        (x / (d * -1)) * -1
    }
}

/// Remainder with the sign of the dividend.
pub open spec fn trunc_rem(x: int, d: int) -> int {
    if x == 0 {
        0
    } else if x > 0 && d > 0 {
        x % d
    } else if x < 0 && d < 0 {
        ((x * -1) % (d * -1)) * -1
    } else if x < 0 {
        ((x * -1) % d) * -1
    } else {
        x % (d * -1)
    }
}

/// A truncating quotient stays in the signed range unless it is the
/// one overflowing case.
pub proof fn lemma_trunc_div_in_range(x: int, d: int, hi: int)
    requires
        hi > 0,
        -hi - 1 <= x <= hi,
        d != 0,
        !(x == -hi - 1 && d == -1),
    ensures
        -hi - 1 <= trunc_div(x, d) <= hi,
{
    if x == 0 {
    } else if x > 0 && d > 0 {
        assert(0 <= x / d <= x) by (nonlinear_arith)
            requires x > 0, d > 0;
    } else if x < 0 && d < 0 {
        if d == -1 {
            assert((x * -1) / (d * -1) == -x) by (nonlinear_arith)
                requires d == -1;
        } else {
            assert(0 <= (x * -1) / (d * -1) <= (x * -1) / 2) by (nonlinear_arith)
                requires x < 0, d < -1;
            assert((x * -1) / 2 <= hi) by (nonlinear_arith)
                requires -hi - 1 <= x, x < 0, hi > 0;
        }
    } else if x < 0 {
        assert(0 <= (x * -1) / d <= x * -1) by (nonlinear_arith)
            requires x < 0, d > 0;
    } else {
        assert(0 <= x / (d * -1) <= x) by (nonlinear_arith)
            requires x > 0, d < 0;
    }
}

/// Low word of a register, read as a signed 32-bit value.
pub open spec fn low_i32(x: i64) -> i32 {
    (x & 0xFFFF_FFFF) as i32
}

/// The quotient register after dividing `n` by zero: the sign of `n` turned
/// into 0 or -1, with the high word inverted.
pub open spec fn div_by_zero_quotient(n: i64) -> i64 {
    if n < 0 {
        0xFFFF_FFFF
    } else {
        -0x1_0000_0000i64
    }
}

/// Whether the division that `control` selects would overflow (the only
/// division the hardware defines and the host cannot compute).
pub open spec fn div_overflows(control: u32, num: i64, den: i64) -> bool {
    let mode = control & DIV_MODE;
    if mode == 0 {
        low_i32(num) == i32::MIN && low_i32(den) == -1
    } else if mode == 1 {
        num == i64::MIN && low_i32(den) == -1
    } else {
        num == i64::MIN && den == -1
    }
}

/// Integer square root: the largest `r` with `r * r <= x`.
pub open spec fn is_isqrt(x: int, r: int) -> bool {
    0 <= r && r * r <= x && x < (r + 1) * (r + 1)
}

/// Division and square-root unit.
pub struct Accelerators {
    pub div_control: u32,
    pub div_numerator: i64,
    pub div_denominator: i64,
    pub div_result: i64,
    pub mod_result: i64,
    pub sqrt_control: u32,
    pub sqrt_param: u64,
    pub sqrt_result: u32,
    pub div_cycle_countdown: usize,
    pub sqrt_cycle_countdown: usize,
    pub div_latch: bool,
    pub sqrt_latch: bool,
}

/// What `start_div` leaves in the result registers, the countdown and the
/// busy flag, given the control and operand registers.
pub open spec fn div_outcome(control: u32, num: i64, den: i64) -> Option<(i64, i64, usize)> {
    let mode = control & DIV_MODE;
    if mode == 0 {
        let n = low_i32(num);
        let d = low_i32(den);
        if d == 0 {
            None
        } else {
            Some((trunc_div(n as int, d as int) as i64, trunc_rem(n as int, d as int) as i64, 18))
        }
    } else if mode == 1 {
        let d = low_i32(den) as i64;
        if d == 0 {
            None
        } else {
            Some((trunc_div(num as int, d as int) as i64, trunc_rem(num as int, d as int) as i64, 34))
        }
    } else {
        if den == 0 {
            None
        } else {
            Some((trunc_div(num as int, den as int) as i64, trunc_rem(num as int, den as int) as i64, 34))
        }
    }
}

/// The dividend used when the divisor is zero.
pub open spec fn div_zero_dividend(control: u32, num: i64) -> i64 {
    if control & DIV_MODE == 0 {
        low_i32(num) as i64
    } else {
        num
    }
}

impl Accelerators {
    pub fn new() -> (r: Self)
        ensures
            r.div_control == 0 && r.div_numerator == 0 && r.div_denominator == 0,
            r.div_result == 0 && r.mod_result == 0,
            r.sqrt_control == 0 && r.sqrt_param == 0 && r.sqrt_result == 0,
            r.div_cycle_countdown == 0 && r.sqrt_cycle_countdown == 0,
            !r.div_latch && !r.sqrt_latch,
    {
        Accelerators {
            div_control: 0,
            div_numerator: 0,
            div_denominator: 0,
            div_result: 0,
            mod_result: 0,
            sqrt_control: 0,
            sqrt_param: 0,
            sqrt_result: 0,
            div_cycle_countdown: 0,
            sqrt_cycle_countdown: 0,
            div_latch: false,
            sqrt_latch: false,
        }
    }

    /// Count down the busy periods, clearing the busy flags when they end.
    pub fn clock(&mut self, cycles: usize)
        ensures
            old(self).div_cycle_countdown == 0 ==> final(self).div_cycle_countdown == 0
                && final(self).div_control == old(self).div_control,
            0 < old(self).div_cycle_countdown <= cycles ==> final(self).div_cycle_countdown == 0
                && final(self).div_control == ((if old(self).div_denominator == 0 {
                old(self).div_control | DIV_BY_ZERO
            } else {
                old(self).div_control & !DIV_BY_ZERO
            }) & !DIV_BUSY),
            old(self).div_cycle_countdown > cycles ==> final(self).div_cycle_countdown
                == old(self).div_cycle_countdown - cycles && final(self).div_control == old(
                self,
            ).div_control,
            old(self).sqrt_cycle_countdown == 0 ==> final(self).sqrt_cycle_countdown == 0
                && final(self).sqrt_control == old(self).sqrt_control,
            0 < old(self).sqrt_cycle_countdown <= cycles ==> final(self).sqrt_cycle_countdown
                == 0 && final(self).sqrt_control == old(self).sqrt_control & !SQRT_BUSY,
            old(self).sqrt_cycle_countdown > cycles ==> final(self).sqrt_cycle_countdown
                == old(self).sqrt_cycle_countdown - cycles && final(self).sqrt_control == old(
                self,
            ).sqrt_control,
            final(self).div_numerator == old(self).div_numerator,
            final(self).div_denominator == old(self).div_denominator,
            final(self).div_result == old(self).div_result,
            final(self).mod_result == old(self).mod_result,
            final(self).sqrt_param == old(self).sqrt_param,
            final(self).sqrt_result == old(self).sqrt_result,
            final(self).div_latch == old(self).div_latch,
            final(self).sqrt_latch == old(self).sqrt_latch,
    {
        if self.div_cycle_countdown > 0 {
            if self.div_cycle_countdown <= cycles {
                self.div_cycle_countdown = 0;
                if self.div_denominator == 0 {
                    self.div_control = self.div_control | DIV_BY_ZERO;
                } else {
                    self.div_control = self.div_control & !DIV_BY_ZERO;
                }
                self.div_control = self.div_control & !DIV_BUSY;
            } else {
                self.div_cycle_countdown = self.div_cycle_countdown - cycles;
            }
        }
        if self.sqrt_cycle_countdown > 0 {
            if self.sqrt_cycle_countdown <= cycles {
                self.sqrt_cycle_countdown = 0;
                self.sqrt_control = self.sqrt_control & !SQRT_BUSY;
            } else {
                self.sqrt_cycle_countdown = self.sqrt_cycle_countdown - cycles;
            }
        }
    }

    /// Start a division with the current control and operand registers.
    ///
    /// Dividing by zero sets the remainder to the dividend and the quotient to
    /// plus or minus one in the sign-extended high word, and starts no busy period.
    pub fn start_div(&mut self)
        requires
            !div_overflows(old(self).div_control, old(self).div_numerator, old(self).div_denominator),
        ensures
            final(self).div_numerator == old(self).div_numerator,
            final(self).div_denominator == old(self).div_denominator,
            final(self).sqrt_control == old(self).sqrt_control,
            final(self).sqrt_param == old(self).sqrt_param,
            final(self).sqrt_result == old(self).sqrt_result,
            final(self).sqrt_cycle_countdown == old(self).sqrt_cycle_countdown,
            final(self).sqrt_latch == old(self).sqrt_latch,
            match div_outcome(old(self).div_control, old(self).div_numerator, old(self).div_denominator) {
                None => {
                    let n = div_zero_dividend(old(self).div_control, old(self).div_numerator);
                    &&& final(self).mod_result == n
                    &&& final(self).div_result == div_by_zero_quotient(n)
                    &&& final(self).div_control == old(self).div_control
                    &&& final(self).div_cycle_countdown == old(self).div_cycle_countdown
                    &&& final(self).div_latch == old(self).div_latch
                },
                Some((q, r, cycles)) => {
                    &&& final(self).div_result == q
                    &&& final(self).mod_result == r
                    &&& final(self).div_cycle_countdown == cycles
                    &&& final(self).div_latch
                    &&& final(self).div_control == old(self).div_control | DIV_BUSY
                },
            },
    {
        let mode = self.div_control & DIV_MODE;
        if mode == 0 {
            let numerator = (self.div_numerator & 0xFFFF_FFFF) as i32;
            let denominator = (self.div_denominator & 0xFFFF_FFFF) as i32;
            if denominator == 0 {
                self.mod_result = numerator as i64;
                self.div_result = if numerator < 0 { 0xFFFF_FFFF } else { -0x1_0000_0000 };
                return;
            }
            proof {
                lemma_trunc_div_in_range(numerator as int, denominator as int, 0x7FFF_FFFF);
            }
            self.div_result = numerator.checked_div(denominator).unwrap() as i64;
            self.mod_result = numerator.checked_rem(denominator).unwrap() as i64;
            self.div_cycle_countdown = 18;
        } else if mode == 1 {
            let denominator = (self.div_denominator & 0xFFFF_FFFF) as i32 as i64;
            if denominator == 0 {
                self.mod_result = self.div_numerator;
                self.div_result = if self.div_numerator < 0 { 0xFFFF_FFFF } else { -0x1_0000_0000 };
                return;
            }
            proof {
                lemma_trunc_div_in_range(self.div_numerator as int, denominator as int, 0x7FFF_FFFF_FFFF_FFFF);
            }
            self.div_result = self.div_numerator.checked_div(denominator).unwrap();
            self.mod_result = self.div_numerator.checked_rem(denominator).unwrap();
            self.div_cycle_countdown = 34;
        } else {
            if self.div_denominator == 0 {
                self.mod_result = self.div_numerator;
                self.div_result = if self.div_numerator < 0 { 0xFFFF_FFFF } else { -0x1_0000_0000 };
                return;
            }
            proof {
                lemma_trunc_div_in_range(self.div_numerator as int, self.div_denominator as int, 0x7FFF_FFFF_FFFF_FFFF);
            }
            self.div_result = self.div_numerator.checked_div(self.div_denominator).unwrap();
            self.mod_result = self.div_numerator.checked_rem(self.div_denominator).unwrap();
            self.div_cycle_countdown = 34;
        }
        self.div_latch = true;
        self.div_control = self.div_control | DIV_BUSY;
    }

    /// Start a square root of the parameter register (its low word alone
    /// unless the mode bit is set), taken as through a 64-bit float: the
    /// parameter rounded to the nearest float, its root rounded to the
    /// nearest float, and the whole part of that, at most 0xFFFF_FFFF.
    pub fn start_sqrt(&mut self)
        ensures
            final(self).sqrt_result == spec_float_sqrt(sqrt_input(old(self).sqrt_control, old(self).sqrt_param)),
            final(self).sqrt_cycle_countdown == 13,
            final(self).sqrt_latch,
            final(self).sqrt_control == old(self).sqrt_control | SQRT_BUSY,
            final(self).sqrt_param == old(self).sqrt_param,
            final(self).div_control == old(self).div_control,
            final(self).div_numerator == old(self).div_numerator,
            final(self).div_denominator == old(self).div_denominator,
            final(self).div_result == old(self).div_result,
            final(self).mod_result == old(self).mod_result,
            final(self).div_cycle_countdown == old(self).div_cycle_countdown,
            final(self).div_latch == old(self).div_latch,
    {
        let input = if (self.sqrt_control & SQRT_MODE) != 0 {
            self.sqrt_param
        } else {
            lo32(self.sqrt_param) as u64
        };
        self.sqrt_result = float_sqrt(input);
        self.sqrt_cycle_countdown = 13;
        self.sqrt_latch = true;
        self.sqrt_control = self.sqrt_control | SQRT_BUSY;
    }

    pub fn read_word(&self, addr: u32) -> (r: u32)
        ensures
            r == self.spec_read_word(addr),
    {
        if addr == 0x0400_0280 {
            self.div_control
        } else if addr == 0x0400_0290 {
            lo32(self.div_numerator as u64)
        } else if addr == 0x0400_0294 {
            hi32(self.div_numerator as u64)
        } else if addr == 0x0400_0298 {
            lo32(self.div_denominator as u64)
        } else if addr == 0x0400_029C {
            hi32(self.div_denominator as u64)
        } else if addr == 0x0400_02A0 {
            lo32(self.div_result as u64)
        } else if addr == 0x0400_02A4 {
            hi32(self.div_result as u64)
        } else if addr == 0x0400_02A8 {
            lo32(self.mod_result as u64)
        } else if addr == 0x0400_02AC {
            hi32(self.mod_result as u64)
        } else if addr == 0x0400_02B0 {
            self.sqrt_control
        } else if addr == 0x0400_02B4 {
            self.sqrt_result
        } else if addr == 0x0400_02B8 {
            lo32(self.sqrt_param)
        } else if addr == 0x0400_02BC {
            hi32(self.sqrt_param)
        } else {
            0
        }
    }

    /// The value of each register.
    pub open spec fn spec_read_word(&self, addr: u32) -> u32 {
        if addr == 0x0400_0280 {
            self.div_control
        } else if addr == 0x0400_0290 {
            spec_lo32(self.div_numerator as u64)
        } else if addr == 0x0400_0294 {
            spec_hi32(self.div_numerator as u64)
        } else if addr == 0x0400_0298 {
            spec_lo32(self.div_denominator as u64)
        } else if addr == 0x0400_029C {
            spec_hi32(self.div_denominator as u64)
        } else if addr == 0x0400_02A0 {
            spec_lo32(self.div_result as u64)
        } else if addr == 0x0400_02A4 {
            spec_hi32(self.div_result as u64)
        } else if addr == 0x0400_02A8 {
            spec_lo32(self.mod_result as u64)
        } else if addr == 0x0400_02AC {
            spec_hi32(self.mod_result as u64)
        } else if addr == 0x0400_02B0 {
            self.sqrt_control
        } else if addr == 0x0400_02B4 {
            self.sqrt_result
        } else if addr == 0x0400_02B8 {
            spec_lo32(self.sqrt_param)
        } else if addr == 0x0400_02BC {
            spec_hi32(self.sqrt_param)
        } else {
            0
        }
    }

    /// The division registers (control, numerator, denominator) after a write,
    /// before the division starts.
    pub open spec fn div_regs_after_write(&self, addr: u32, data: u32) -> (u32, i64, i64) {
        if addr == 0x0400_0280 {
            ((self.div_control & !DIV_MODE) | (data & 0x3), self.div_numerator, self.div_denominator)
        } else if addr == 0x0400_0290 {
            (self.div_control, spec_make64(spec_hi32(self.div_numerator as u64), data) as i64, self.div_denominator)
        } else if addr == 0x0400_0294 {
            (self.div_control, spec_make64(data, spec_lo32(self.div_numerator as u64)) as i64, self.div_denominator)
        } else if addr == 0x0400_0298 {
            (self.div_control, self.div_numerator, spec_make64(spec_hi32(self.div_denominator as u64), data) as i64)
        } else if addr == 0x0400_029C {
            (self.div_control, self.div_numerator, spec_make64(data, spec_lo32(self.div_denominator as u64)) as i64)
        } else {
            (self.div_control, self.div_numerator, self.div_denominator)
        }
    }

    /// Write a register. Writing the division control or operands starts a
    /// division; writing the square-root control or parameter starts a root.
    pub fn write_word(&mut self, addr: u32, data: u32)
        requires
            ({
                let (c, n, d) = old(self).div_regs_after_write(addr, data);
                is_div_write(addr) ==> !div_overflows(c, n, d)
            }),
        ensures
            is_div_write(addr) ==> ({
                let (c, n, d) = old(self).div_regs_after_write(addr, data);
                &&& final(self).div_numerator == n
                &&& final(self).div_denominator == d
                &&& match div_outcome(c, n, d) {
                    None => {
                        &&& final(self).mod_result == div_zero_dividend(c, n)
                        &&& final(self).div_result == div_by_zero_quotient(div_zero_dividend(c, n))
                        &&& final(self).div_control == c
                        &&& final(self).div_cycle_countdown == old(self).div_cycle_countdown
                        &&& final(self).div_latch == old(self).div_latch
                    },
                    Some((q, r, cycles)) => {
                        &&& final(self).div_result == q
                        &&& final(self).mod_result == r
                        &&& final(self).div_cycle_countdown == cycles
                        &&& final(self).div_latch
                        &&& final(self).div_control == c | DIV_BUSY
                    },
                }
                &&& final(self).sqrt_control == old(self).sqrt_control
                &&& final(self).sqrt_param == old(self).sqrt_param
                &&& final(self).sqrt_result == old(self).sqrt_result
                &&& final(self).sqrt_cycle_countdown == old(self).sqrt_cycle_countdown
                &&& final(self).sqrt_latch == old(self).sqrt_latch
            }),
            is_sqrt_write(addr) ==> ({
                let param = if addr == 0x0400_02B8 {
                    spec_make64(spec_hi32(old(self).sqrt_param), data)
                } else if addr == 0x0400_02BC {
                    spec_make64(data, spec_lo32(old(self).sqrt_param))
                } else {
                    old(self).sqrt_param
                };
                let control = if addr == 0x0400_02B0 {
                    (old(self).sqrt_control & !SQRT_MODE) | (data & 1)
                } else {
                    old(self).sqrt_control
                };
                &&& final(self).sqrt_param == param
                &&& final(self).sqrt_control == control | SQRT_BUSY
                &&& final(self).sqrt_result == spec_float_sqrt(sqrt_input(control, param))
                &&& final(self).sqrt_cycle_countdown == 13
                &&& final(self).sqrt_latch
                &&& final(self).div_control == old(self).div_control
                &&& final(self).div_result == old(self).div_result
                &&& final(self).mod_result == old(self).mod_result
                &&& final(self).div_numerator == old(self).div_numerator
                &&& final(self).div_denominator == old(self).div_denominator
                &&& final(self).div_cycle_countdown == old(self).div_cycle_countdown
                &&& final(self).div_latch == old(self).div_latch
            }),
            !is_div_write(addr) && !is_sqrt_write(addr) ==> *final(self) == *old(self),
    {
        if addr == 0x0400_0280 {
            self.div_control = (self.div_control & !DIV_MODE) | (data & 0x3);
            self.start_div();
        } else if addr == 0x0400_0290 {
            self.div_numerator = set_lo32(self.div_numerator as u64, data) as i64;
            self.start_div();
        } else if addr == 0x0400_0294 {
            self.div_numerator = set_hi32(self.div_numerator as u64, data) as i64;
            self.start_div();
        } else if addr == 0x0400_0298 {
            self.div_denominator = set_lo32(self.div_denominator as u64, data) as i64;
            self.start_div();
        } else if addr == 0x0400_029C {
            self.div_denominator = set_hi32(self.div_denominator as u64, data) as i64;
            self.start_div();
        } else if addr == 0x0400_02B0 {
            self.sqrt_control = (self.sqrt_control & !SQRT_MODE) | (data & 1);
            self.start_sqrt();
        } else if addr == 0x0400_02B8 {
            self.sqrt_param = set_lo32(self.sqrt_param, data);
            self.start_sqrt();
        } else if addr == 0x0400_02BC {
            self.sqrt_param = set_hi32(self.sqrt_param, data);
            self.start_sqrt();
        }
    }
}

/// Registers whose write starts a division.
pub open spec fn is_div_write(addr: u32) -> bool {
    addr == 0x0400_0280 || addr == 0x0400_0290 || addr == 0x0400_0294 || addr == 0x0400_0298
        || addr == 0x0400_029C
}

/// Registers whose write starts a square root.
pub open spec fn is_sqrt_write(addr: u32) -> bool {
    addr == 0x0400_02B0 || addr == 0x0400_02B8 || addr == 0x0400_02BC
}

/// The value whose root is taken: the whole parameter in 64-bit mode,
/// its low word otherwise.
pub open spec fn sqrt_input(control: u32, param: u64) -> u64 {
    if (control & SQRT_MODE) != 0 {
        param
    } else {
        spec_lo32(param) as u64
    }
}

/// Integer square root by bisection.
pub fn isqrt(x: u64) -> (r: u32)
    ensures
        is_isqrt(x as int, r as int),
{
    let mut lo: u64 = 0;
    let mut hi: u64 = 0x1_0000_0000;
    assert(x < 0x1_0000_0000 * 0x1_0000_0000);
    while hi - lo > 1
        invariant
            lo < hi <= 0x1_0000_0000,
            lo * lo <= x,
            x < hi * hi,
        decreases hi - lo,
    {
        let mid = lo + (hi - lo) / 2;
        assert(mid * mid <= 0xFFFF_FFFF * 0xFFFF_FFFF) by (nonlinear_arith)
            requires mid < 0x1_0000_0000;
        if mid * mid <= x {
            lo = mid;
        } else {
            hi = mid;
        }
    }
    assert(hi == lo + 1);
    lo as u32
}


/// The integer square root of `v`.
pub open spec fn spec_isqrt(v: int) -> int {
    choose|r: int| is_isqrt(v, r)
}

proof fn lemma_isqrt_unique(v: int, a: int, b: int)
    requires
        is_isqrt(v, a),
        is_isqrt(v, b),
    ensures
        a == b,
{
    if a < b {
        assert((a + 1) * (a + 1) <= b * b) by (nonlinear_arith)
            requires
                0 <= a < b;
    } else if b < a {
        assert((b + 1) * (b + 1) <= a * a) by (nonlinear_arith)
            requires
                0 <= b < a;
    }
}

proof fn lemma_is_spec_isqrt(v: int, a: int)
    requires
        is_isqrt(v, a),
    ensures
        spec_isqrt(v) == a,
{
    lemma_isqrt_unique(v, a, spec_isqrt(v));
}

/// How many bits `x` has beyond 53.
pub open spec fn excess_bits(x: nat) -> nat
    decreases x,
{
    if x < 0x20_0000_0000_0000 { 0 } else { 1 + excess_bits(x / 2) }
}

/// The 64-bit float nearest to `x`, ties to the even one, as the integer
/// it holds: `x` kept to its top 53 bits.
pub open spec fn f64_value(x: nat) -> nat {
    let s = excess_bits(x);
    let p = pow2(s);
    let q = x / p;
    let rem = x % p;
    if s == 0 {
        x
    } else if rem > p / 2 || (rem == p / 2 && q % 2 == 1) {
        (q + 1) * p
    } else {
        q * p
    }
}

/// The exponent of `k`: the power of two at or just below it.
pub open spec fn log2_floor(k: nat) -> nat
    decreases k,
{
    if k <= 1 { 0 } else { 1 + log2_floor(k / 2) }
}

/// The whole part of the float nearest to the root of `v`, `k0` being its
/// integer root: `k0`, or `k0 + 1` where the root lies within half a float
/// step of it, that is where (k0 + 1)^2 - v, scaled by the float's steps
/// below k0 + 1, is less than k0 + 1.
pub open spec fn float_root(v: int, k0: int) -> int {
    if k0 * k0 == v {
        k0
    } else if ((k0 + 1) * (k0 + 1) - v) * pow2((52 - log2_floor(k0 as nat)) as nat) < k0 + 1 {
        k0 + 1
    } else {
        k0
    }
}

/// The square root of `x` as a 64-bit float gives it: the whole part,
/// and at most 0xFFFF_FFFF.
pub open spec fn spec_float_sqrt(x: u64) -> u32 {
    let v = f64_value(x as nat) as int;
    let r = float_root(v, spec_isqrt(v));
    if r > 0xFFFF_FFFF { 0xFFFF_FFFF } else { r as u32 }
}

/// `x` rounded to the nearest 64-bit float.
fn f64_round(x: u64) -> (r: u128)
    ensures
        r == f64_value(x as nat),
        r <= 0x1_0000_0000_0000_0000,
{
    if x < 0x20_0000_0000_0000 {
        return x as u128;
    }
    let mut y: u64 = x;
    let mut s: u32 = 0;
    let mut p: u128 = 1;
    proof {
        vstd::arithmetic::power2::lemma2_to64();
    }
    while y >= 0x20_0000_0000_0000
        invariant
            y as int == x as int / p as int,
            p == pow2(s as nat),
            1 <= p,
            p * y <= x,
            excess_bits(x as nat) == s + excess_bits(y as nat),
            s <= 11,
        decreases y,
    {
        proof {
            vstd::arithmetic::div_mod::lemma_div_denominator(x as int, p as int, 2);
            vstd::arithmetic::power2::lemma_pow2_unfold((s + 1) as nat);
            assert(p < 0x800) by (nonlinear_arith)
                requires
                    p * y <= x,
                    y >= 0x20_0000_0000_0000,
                    x < 0x1_0000_0000_0000_0000;
            vstd::arithmetic::power2::lemma2_to64();
            if s >= 11 {
                if s > 11 {
                    vstd::arithmetic::power2::lemma_pow2_strictly_increases(11, s as nat);
                }
                assert(false);
            }
            assert(p * 2 * (y / 2) <= p * y) by (nonlinear_arith)
                requires
                    p >= 1;
        }
        y = y / 2;
        s = s + 1;
        p = p * 2;
    }
    proof {
        vstd::arithmetic::div_mod::lemma_fundamental_div_mod(x as int, p as int);
        assert(excess_bits(x as nat) == s);
        if s < 11 {
            vstd::arithmetic::power2::lemma_pow2_strictly_increases(s as nat, 11);
        }
    }
    let q = y as u128;
    let rem = (x as u128) - q * p;
    let half = p / 2;
    assert(rem == x as int % p as int);
    if rem > half || (rem == half && q % 2 == 1) {
        assert((q + 1) * p <= 0x1_0000_0000_0000_0000) by (nonlinear_arith)
            requires
                q < 0x20_0000_0000_0000,
                1 <= p <= 0x800;
        (q + 1) * p
    } else {
        q * p
    }
}

/// The exponent of `k`, for `k` at least 1.
fn log2_floor_exec(k: u64) -> (r: u32)
    requires
        k >= 1,
    ensures
        r == log2_floor(k as nat),
        r < 64,
{
    let mut t = k;
    let mut e: u32 = 0;
    proof {
        lemma_log2_floor_pow(k as nat);
        vstd::arithmetic::power2::lemma2_to64();
        if log2_floor(k as nat) >= 64 {
            if log2_floor(k as nat) > 64 {
                vstd::arithmetic::power2::lemma_pow2_strictly_increases(64, log2_floor(k as nat));
            }
        }
    }
    while t > 1
        invariant
            t >= 1,
            log2_floor(k as nat) == e + log2_floor(t as nat),
            e + log2_floor(t as nat) < 64,
        decreases t,
    {
        t = t / 2;
        e = e + 1;
    }
    e
}

/// 2 to the power `n`.
fn pow2_exec(n: u32) -> (r: u128)
    requires
        n <= 52,
    ensures
        r == pow2(n as nat),
{
    let mut p: u128 = 1;
    let mut i: u32 = 0;
    proof {
        vstd::arithmetic::power2::lemma2_to64();
    }
    while i < n
        invariant
            i <= n <= 52,
            p == pow2(i as nat),
        decreases n - i,
    {
        proof {
            vstd::arithmetic::power2::lemma_pow2_unfold((i + 1) as nat);
            vstd::arithmetic::power2::lemma2_to64();
            vstd::arithmetic::power2::lemma2_to64_rest();
            if i + 1 < 52 {
                vstd::arithmetic::power2::lemma_pow2_strictly_increases((i + 1) as nat, 52);
            }
            assert(p * 2 == pow2((i + 1) as nat));
            assert(pow2((i + 1) as nat) <= 0x10_0000_0000_0000);
        }
        p = p * 2;
        i = i + 1;
    }
    p
}

/// The square root of `x` taken through 64-bit floats.
pub fn float_sqrt(x: u64) -> (r: u32)
    ensures
        r == spec_float_sqrt(x),
{
    let v = f64_round(x);
    if v == 0x1_0000_0000_0000_0000 {
        proof {
            assert(is_isqrt(v as int, 0x1_0000_0000));
            lemma_is_spec_isqrt(v as int, 0x1_0000_0000);
        }
        return 0xFFFF_FFFF;
    }
    assert(v < 0x1_0000_0000_0000_0000);
    let k0 = isqrt(v as u64);
    assert((v as u64) as int == v as int);
    proof {
        lemma_is_spec_isqrt(v as int, k0 as int);
    }
    let k0w = k0 as u128;
    if k0w * k0w == v {
        return k0;
    }
    let k = k0w + 1;
    assert(v < (k0 as int + 1) * (k0 as int + 1));
    assert(k as int == k0 as int + 1);
    assert(k <= 0x1_0000_0000);
    assert(k * k <= 0x1_0000_0000 * 0x1_0000_0000) by (nonlinear_arith)
        requires
            k <= 0x1_0000_0000;
    let kk = k * k;
    assert(kk > v);
    let d = kk - v;
    assert(d <= 2 * k0w + 1) by (nonlinear_arith)
        requires
            k0w * k0w <= v,
            d == (k0w + 1) * (k0w + 1) - v;
    assert(k0 >= 1) by (nonlinear_arith)
        requires
            k0w * k0w != v,
            v < (k0w + 1) * (k0w + 1),
            k0w * k0w <= v,
            k0w == k0;
    let e = log2_floor_exec(k0 as u64);
    proof {
        lemma_log2_floor_le(k0 as nat);
    }
    let p = pow2_exec(52 - e);
    proof {
        vstd::arithmetic::power2::lemma2_to64();
        vstd::arithmetic::power2::lemma2_to64_rest();
        if e > 0 {
            vstd::arithmetic::power2::lemma_pow2_strictly_increases((52 - e) as nat, 52);
        }
        assert(pow2((52 - e) as nat) <= 0x10_0000_0000_0000);
    }
    assert(d * p <= 0x2_0000_0001 * 0x10_0000_0000_0000) by (nonlinear_arith)
        requires
            d <= 2 * k0w + 1,
            k0w <= 0xFFFF_FFFF,
            p <= 0x10_0000_0000_0000;
    if d * p < k {
        if k > 0xFFFF_FFFF { 0xFFFF_FFFF } else { k as u32 }
    } else {
        k0
    }
}

/// The exponent of a 32-bit number is at most 31.
proof fn lemma_log2_floor_le(k: nat)
    requires
        1 <= k <= 0xFFFF_FFFF,
    ensures
        log2_floor(k) <= 31,
{
    lemma_log2_floor_pow(k);
    vstd::arithmetic::power2::lemma2_to64();
    if log2_floor(k) > 31 {
        vstd::arithmetic::power2::lemma_pow2_strictly_increases(31, log2_floor(k));
        vstd::arithmetic::power2::lemma_pow2_strictly_increases(32, log2_floor(k));
    }
}

/// 2 to the exponent of `k` is at most `k`.
proof fn lemma_log2_floor_pow(k: nat)
    requires
        k >= 1,
    ensures
        pow2(log2_floor(k)) <= k,
    decreases k,
{
    vstd::arithmetic::power2::lemma2_to64();
    if k > 1 {
        lemma_log2_floor_pow(k / 2);
        vstd::arithmetic::power2::lemma_pow2_unfold(log2_floor(k));
    }
}

/// The result registers read back whole: the words at 0x0400_02A0 and
/// 0x0400_02A4 are the low and high halves of the quotient, and those at
/// 0x0400_02A8 and 0x0400_02AC the low and high halves of the remainder.
pub proof fn lemma_results_read_back(a: Accelerators)
    ensures
        a.spec_read_word(0x0400_02A4) as int * 0x1_0000_0000 + a.spec_read_word(0x0400_02A0) as int
            == (a.div_result as u64) as int,
        a.spec_read_word(0x0400_02AC) as int * 0x1_0000_0000 + a.spec_read_word(0x0400_02A8) as int
            == (a.mod_result as u64) as int,
{
}

/// After a division that the divisor allows, the remainder read back from
/// 0x0400_02A8 and 0x0400_02AC is the remainder of the operands, with the
/// sign of the dividend, and the quotient read back from 0x0400_02A0 and
/// 0x0400_02A4 is their quotient rounded toward zero (as 64-bit values).
pub proof fn lemma_division_reads_back(a: Accelerators, num: int, den: int)
    requires
        den != 0,
        a.div_result == trunc_div(num, den) as i64,
        a.mod_result == trunc_rem(num, den) as i64,
    ensures
        a.spec_read_word(0x0400_02AC) as int * 0x1_0000_0000 + a.spec_read_word(0x0400_02A8) as int
            == ((trunc_rem(num, den) as i64) as u64) as int,
        a.spec_read_word(0x0400_02A4) as int * 0x1_0000_0000 + a.spec_read_word(0x0400_02A0) as int
            == ((trunc_div(num, den) as i64) as u64) as int,
{
    lemma_results_read_back(a);
}

/// Below 2^52 every parameter is a float exactly and its root is not near
/// enough to the next whole number to round up to it: the root unit gives
/// the exact integer square root there.
pub proof fn lemma_small_roots_exact(x: u64)
    requires
        x < 0x10_0000_0000_0000,
    ensures
        is_isqrt(x as int, spec_float_sqrt(x) as int),
{
    let v = x as int;
    assert(f64_value(x as nat) == x as nat);
    let k0 = spec_isqrt(v);
    assert(exists|r: int| is_isqrt(v, r)) by {
        let r = isqrt_ghost(x);
        assert(is_isqrt(v, r));
    }
    assert(is_isqrt(v, k0));
    assert(k0 < 0x400_0000) by {
        if k0 >= 0x400_0000 {
            assert(k0 * k0 >= 0x400_0000 * 0x400_0000) by (nonlinear_arith)
                requires k0 >= 0x400_0000;
        }
    }
    vstd::arithmetic::power2::lemma2_to64();
    if k0 * k0 != v {
        let l = log2_floor(k0 as nat);
        if k0 >= 1 {
            lemma_log2_floor_pow(k0 as nat);
            if l >= 26 {
                if l > 26 {
                    vstd::arithmetic::power2::lemma_pow2_strictly_increases(26, l);
                }
                assert(false);
            }
        } else {
            assert(l == 0);
        }
        assert(52 - l >= 27);
        if 52 - l > 27 {
            vstd::arithmetic::power2::lemma_pow2_strictly_increases(27, (52 - l) as nat);
        }
        let p = pow2((52 - l) as nat);
        assert(p >= 0x800_0000);
        assert((k0 + 1) * (k0 + 1) - v >= 1);
        assert(((k0 + 1) * (k0 + 1) - v) * p >= p) by (nonlinear_arith)
            requires (k0 + 1) * (k0 + 1) - v >= 1, p >= 0;
    }
    assert(float_root(v, k0) == k0);
}

/// Some integer square root exists: the one that bisection finds.
proof fn isqrt_ghost(x: u64) -> (r: int)
    ensures
        is_isqrt(x as int, r),
{
    isqrt_witness(x as int, 0, 0x1_0000_0000)
}

proof fn isqrt_witness(x: int, lo: int, hi: int) -> (r: int)
    requires
        0 <= lo < hi,
        lo * lo <= x,
        x < hi * hi,
    ensures
        is_isqrt(x, r),
    decreases hi - lo,
{
    if hi - lo <= 1 {
        lo
    } else {
        let mid = lo + (hi - lo) / 2;
        if mid * mid <= x {
            isqrt_witness(x, mid, hi)
        } else {
            isqrt_witness(x, lo, mid)
        }
    }
}

/// The magnitude of an integer.
pub open spec fn abs_int(x: int) -> int {
    if x < 0 { -x } else { x }
}

/// Division rounds toward zero: quotient times divisor plus remainder gives
/// back the dividend, the remainder is smaller than the divisor in size and
/// has the dividend's sign (or is zero), and the quotient's size is the
/// dividends's size over the divisor's, rounded down.
pub proof fn lemma_truncating_division(x: int, d: int)
    requires
        d != 0,
    ensures
        trunc_div(x, d) * d + trunc_rem(x, d) == x,
        abs_int(trunc_rem(x, d)) < abs_int(d),
        trunc_rem(x, d) == 0 || (trunc_rem(x, d) > 0) == (x > 0),
        abs_int(trunc_div(x, d)) == abs_int(x) / abs_int(d),
        (trunc_div(x, d) >= 0) == (x == 0 || (x > 0) == (d > 0) || abs_int(x) < abs_int(d)),
{
    let ax = abs_int(x);
    let ad = abs_int(d);
    vstd::arithmetic::div_mod::lemma_fundamental_div_mod(ax, ad);
    assert(0 <= ax % ad < ad) by {
        vstd::arithmetic::div_mod::lemma_mod_pos_bound(ax, ad);
    }
    assert(ax / ad >= 0) by {
        vstd::arithmetic::div_mod::lemma_div_pos_is_pos(ax, ad);
    }
    if ax < ad {
        vstd::arithmetic::div_mod::lemma_basic_div(ax, ad);
    }
    let q = ax / ad;
    let r = ax % ad;
    assert(ax == q * ad + r);
    if x == 0 {
    } else if x > 0 && d > 0 {
        assert(trunc_div(x, d) == q && trunc_rem(x, d) == r);
    } else if x < 0 && d < 0 {
        assert(x * -1 == ax && d * -1 == ad);
        assert(trunc_div(x, d) == q && trunc_rem(x, d) == r * -1);
        assert(q * d == -(q * ad)) by (nonlinear_arith)
            requires ad == -d;
    } else if x < 0 {
        assert(x * -1 == ax && d == ad);
        assert(trunc_div(x, d) == q * -1 && trunc_rem(x, d) == r * -1);
        assert((q * -1) * d == -(q * ad)) by (nonlinear_arith)
            requires ad == d;
    } else {
        assert(d * -1 == ad && x == ax);
        assert(trunc_div(x, d) == q * -1 && trunc_rem(x, d) == r);
        assert((q * -1) * d == q * ad) by (nonlinear_arith)
            requires ad == -d;
    }
}

} // verus!
