//! IMA-ADPCM decoder.
use vstd::prelude::*;

verus! {

/// Step sizes, indexed by the step index (0-88).
pub open spec fn adpcm_step(i: int) -> i16 {
    seq![
        0x0007i16, 0x0008, 0x0009, 0x000A, 0x000B, 0x000C, 0x000D, 0x000E, 0x0010, 0x0011, 0x0013, 0x0015,
        0x0017, 0x0019, 0x001C, 0x001F, 0x0022, 0x0025, 0x0029, 0x002D, 0x0032, 0x0037, 0x003C, 0x0042,
        0x0049, 0x0050, 0x0058, 0x0061, 0x006B, 0x0076, 0x0082, 0x008F, 0x009D, 0x00AD, 0x00BE, 0x00D1,
        0x00E6, 0x00FD, 0x0117, 0x0133, 0x0151, 0x0173, 0x0198, 0x01C1, 0x01EE, 0x0220, 0x0256, 0x0292,
        0x02D4, 0x031C, 0x036C, 0x03C3, 0x0424, 0x048E, 0x0502, 0x0583, 0x0610, 0x06AB, 0x0756, 0x0812,
        0x08E0, 0x09C3, 0x0ABD, 0x0BD0, 0x0CFF, 0x0E4C, 0x0FBA, 0x114C, 0x1307, 0x14EE, 0x1706, 0x1954,
        0x1BDC, 0x1EA5, 0x21B6, 0x2515, 0x28CA, 0x2CDF, 0x315B, 0x364B, 0x3BB9, 0x41B2, 0x4844, 0x4F7E,
        0x5771, 0x602F, 0x69CE, 0x7462, 0x7FFF
    ][i]
}

/// Step index change for the low three bits of a code.
pub open spec fn index_change(code: int) -> int {
    if code < 4 {
        -1
    } else {
        (code - 3) * 2
    }
}

/// A value clamped to the 16-bit signed range.
pub open spec fn sat16(x: int) -> i16 {
    if x > i16::MAX {
        i16::MAX
    } else if x < i16::MIN {
        i16::MIN
    } else {
        x as i16
    }
}

/// The step size of an index.
pub fn step_size(i: usize) -> (r: i16)
    requires
        i <= 88,
    ensures
        r == adpcm_step(i as int),
        0 < r,
{
    let table: [i16; 89] = [
        0x0007, 0x0008, 0x0009, 0x000A, 0x000B, 0x000C, 0x000D, 0x000E, 0x0010, 0x0011, 0x0013, 0x0015,
        0x0017, 0x0019, 0x001C, 0x001F, 0x0022, 0x0025, 0x0029, 0x002D, 0x0032, 0x0037, 0x003C, 0x0042,
        0x0049, 0x0050, 0x0058, 0x0061, 0x006B, 0x0076, 0x0082, 0x008F, 0x009D, 0x00AD, 0x00BE, 0x00D1,
        0x00E6, 0x00FD, 0x0117, 0x0133, 0x0151, 0x0173, 0x0198, 0x01C1, 0x01EE, 0x0220, 0x0256, 0x0292,
        0x02D4, 0x031C, 0x036C, 0x03C3, 0x0424, 0x048E, 0x0502, 0x0583, 0x0610, 0x06AB, 0x0756, 0x0812,
        0x08E0, 0x09C3, 0x0ABD, 0x0BD0, 0x0CFF, 0x0E4C, 0x0FBA, 0x114C, 0x1307, 0x14EE, 0x1706, 0x1954,
        0x1BDC, 0x1EA5, 0x21B6, 0x2515, 0x28CA, 0x2CDF, 0x315B, 0x364B, 0x3BB9, 0x41B2, 0x4844, 0x4F7E,
        0x5771, 0x602F, 0x69CE, 0x7462, 0x7FFF
    ];
    assert(table@ == seq![
        0x0007i16, 0x0008, 0x0009, 0x000A, 0x000B, 0x000C, 0x000D, 0x000E, 0x0010, 0x0011, 0x0013, 0x0015,
        0x0017, 0x0019, 0x001C, 0x001F, 0x0022, 0x0025, 0x0029, 0x002D, 0x0032, 0x0037, 0x003C, 0x0042,
        0x0049, 0x0050, 0x0058, 0x0061, 0x006B, 0x0076, 0x0082, 0x008F, 0x009D, 0x00AD, 0x00BE, 0x00D1,
        0x00E6, 0x00FD, 0x0117, 0x0133, 0x0151, 0x0173, 0x0198, 0x01C1, 0x01EE, 0x0220, 0x0256, 0x0292,
        0x02D4, 0x031C, 0x036C, 0x03C3, 0x0424, 0x048E, 0x0502, 0x0583, 0x0610, 0x06AB, 0x0756, 0x0812,
        0x08E0, 0x09C3, 0x0ABD, 0x0BD0, 0x0CFF, 0x0E4C, 0x0FBA, 0x114C, 0x1307, 0x14EE, 0x1706, 0x1954,
        0x1BDC, 0x1EA5, 0x21B6, 0x2515, 0x28CA, 0x2CDF, 0x315B, 0x364B, 0x3BB9, 0x41B2, 0x4844, 0x4F7E,
        0x5771, 0x602F, 0x69CE, 0x7462, 0x7FFF
    ]);
    table[i]
}

/// ADPCM decoder state: the current value and step index, and the values
/// saved at the loop start.
pub struct ADPCMGenerator {
    pub initialised: bool,
    pub current_value: i16,
    pub current_index: usize,
    pub loop_value: i16,
    pub loop_index: usize,
}

impl ADPCMGenerator {
    pub open spec fn wf(&self) -> bool {
        self.current_index <= 88 && self.loop_index <= 88
    }

    pub fn new() -> (r: Self)
        ensures
            r.wf(),
            !r.initialised,
            r.current_value == 0 && r.current_index == 0,
            r.loop_value == 0 && r.loop_index == 0,
    {
        ADPCMGenerator { initialised: false, current_value: 0, current_index: 0, loop_value: 0, loop_index: 0 }
    }

    pub fn reset(&mut self)
        ensures
            final(self).wf(),
            !final(self).initialised,
            final(self).current_value == 0 && final(self).current_index == 0,
            final(self).loop_value == 0 && final(self).loop_index == 0,
    {
        self.initialised = false;
        self.current_value = 0;
        self.current_index = 0;
        self.loop_value = 0;
        self.loop_index = 0;
    }

    pub fn needs_header(&self) -> (r: bool)
        ensures
            r == !self.initialised,
    {
        !self.initialised
    }

    /// Load the initial value (low half-word) and step index (bits 16-22,
    /// at most 88) from a header word. Returns the initial value.
    pub fn set_header(&mut self, header: u32) -> (r: i16)
        requires
            old(self).wf(),
        ensures
            final(self).wf(),
            final(self).initialised,
            r == (header % 0x1_0000) as u16 as i16,
            final(self).current_value == r,
            final(self).current_index == if (header / 0x1_0000) % 0x80 > 88 { 88 } else { (header / 0x1_0000) % 0x80 },
            final(self).loop_value == old(self).loop_value,
            final(self).loop_index == old(self).loop_index,
            *final(self) == old(self).spec_set_header(header),
    {
        self.initialised = true;
        self.current_value = (header % 0x1_0000) as u16 as i16;
        let index = (header / 0x1_0000) % 0x80;
        self.current_index = if index > 88 { 88 } else { index as usize };
        self.current_value
    }

    /// The decoder after a header word.
    pub open spec fn spec_set_header(self, header: u32) -> Self {
        let index = (header / 0x1_0000) % 0x80;
        ADPCMGenerator {
            initialised: true,
            current_value: (header % 0x1_0000) as u16 as i16,
            current_index: (if index > 88 { 88 } else { index }) as usize,
            ..self
        }
    }

    /// The decoder with its loop point stored.
    pub open spec fn spec_store(self) -> Self {
        ADPCMGenerator { loop_value: self.current_value, loop_index: self.current_index, ..self }
    }

    /// The decoder back at its stored loop point.
    pub open spec fn spec_restore(self) -> Self {
        ADPCMGenerator { current_value: self.loop_value, current_index: self.loop_index, ..self }
    }

    /// The decoder after one code, and the decoded value.
    pub open spec fn spec_generate(self, data: u8) -> (Self, i16) {
        let code = (data % 8) as int;
        let diff = ((code * 2 + 1) * adpcm_step(self.current_index as int)) / 16;
        let value = if (data / 8) % 2 == 1 {
            sat16(self.current_value - diff)
        } else {
            sat16(self.current_value + diff)
        };
        let index = self.current_index + index_change(code);
        (ADPCMGenerator {
            current_value: value,
            current_index: (if index < 0 { 0 } else if index > 88 { 88 } else { index }) as usize,
            ..self
        }, value)
    }

    /// Decode one 4-bit code: bits 0-2 scale the step, bit 3 is the sign.
    pub fn generate_sample(&mut self, data: u8) -> (r: i16)
        requires
            old(self).wf(),
        ensures
            final(self).wf(),
            ({
                let code = (data % 8) as int;
                let diff = ((code * 2 + 1) * adpcm_step(old(self).current_index as int)) / 16;
                let value = if (data / 8) % 2 == 1 {
                    sat16(old(self).current_value - diff)
                } else {
                    sat16(old(self).current_value + diff)
                };
                let index = old(self).current_index + index_change(code);
                &&& r == value
                &&& final(self).current_value == value
                &&& final(self).current_index == if index < 0 { 0 } else if index > 88 { 88 } else { index }
            }),
            final(self).initialised == old(self).initialised,
            final(self).loop_value == old(self).loop_value,
            final(self).loop_index == old(self).loop_index,
            (*final(self), r) == old(self).spec_generate(data),
    {
        let table_value = step_size(self.current_index) as i32;
        let code = (data % 8) as i32;
        let shifted_data = code * 2 + 1;
        assert(shifted_data * table_value <= 15 * 0x7FFF) by (nonlinear_arith)
            requires shifted_data <= 15, 0 < table_value <= 0x7FFF, shifted_data >= 1;
        assert(shifted_data * table_value >= 0) by (nonlinear_arith)
            requires shifted_data >= 1, table_value > 0;
        let diff = (shifted_data * table_value) / 16;
        let v = self.current_value as i32;
        let next = if (data / 8) % 2 == 1 { v - diff } else { v + diff };
        self.current_value = if next > 0x7FFF {
            0x7FFF
        } else if next < -0x8000 {
            -0x8000
        } else {
            next as i16
        };
        let change: i32 = if code < 4 { -1 } else { (code - 3) * 2 };
        let new_index = self.current_index as i32 + change;
        self.current_index = if new_index < 0 {
            0
        } else if new_index > 88 {
            88
        } else {
            new_index as usize
        };
        self.current_value
    }

    /// To be called when passing the loop start.
    pub fn store_loop_values(&mut self)
        ensures
            *final(self) == (ADPCMGenerator {
                loop_value: old(self).current_value,
                loop_index: old(self).current_index,
                ..*old(self)
            }),
    {
        self.loop_value = self.current_value;
        self.loop_index = self.current_index;
    }

    /// To be called when looping.
    pub fn restore_loop_values(&mut self)
        ensures
            *final(self) == (ADPCMGenerator {
                current_value: old(self).loop_value,
                current_index: old(self).loop_index,
                ..*old(self)
            }),
    {
        self.current_value = self.loop_value;
        self.current_index = self.loop_index;
    }
}

/// What can happen to a decoder between storing and restoring its loop
/// point: a code decoded, or a header loaded.
pub enum ADPCMStep {
    Sample(u8),
    Header(u32),
}

/// The decoder after the steps in turn.
pub open spec fn after_steps(g: ADPCMGenerator, steps: Seq<ADPCMStep>) -> ADPCMGenerator
    decreases steps.len(),
{
    if steps.len() == 0 {
        g
    } else {
        let h = after_steps(g, steps.drop_last());
        match steps.last() {
            ADPCMStep::Sample(d) => h.spec_generate(d).0,
            ADPCMStep::Header(w) => h.spec_set_header(w),
        }
    }
}

/// Restoring the loop point undoes whatever was decoded or loaded since it
/// was stored: the next code decodes to what it would have right after the
/// store, and the value and step index come back.
pub proof fn lemma_restore_returns_to_loop(g: ADPCMGenerator, steps: Seq<ADPCMStep>, d: u8)
    ensures
        ({
            let stored = g.spec_store();
            let back = after_steps(stored, steps).spec_restore();
            &&& back.current_value == stored.current_value
            &&& back.current_index == stored.current_index
            &&& back.spec_generate(d).1 == stored.spec_generate(d).1
        }),
{
    lemma_steps_keep_loop(g.spec_store(), steps);
}

/// Decoding and loading headers leave the stored loop point alone.
pub proof fn lemma_steps_keep_loop(g: ADPCMGenerator, steps: Seq<ADPCMStep>)
    ensures
        after_steps(g, steps).loop_value == g.loop_value,
        after_steps(g, steps).loop_index == g.loop_index,
    decreases steps.len(),
{
    if steps.len() > 0 {
        lemma_steps_keep_loop(g, steps.drop_last());
    }
}

/// Decoding codes: bit 3 is the sign, so a code with it clear never lowers
/// the value and the same code with it set never raises it, by the same
/// amount where neither clamps; a larger magnitude (bits 0 to 2) moves the
/// value at least as far; the step size steps down one index for
/// magnitudes 0 to 3, and up by 2, 4, 6 or 8 for 4 to 7, within 0 to 88.
/// The very first step (index 0, size 7) moves the value by 0 for
/// magnitude 0 and by 6 for magnitude 7.
pub proof fn lemma_adpcm_codes(g: ADPCMGenerator, m: u8, n: u8)
    requires
        g.wf(),
        m < 8,
        n < 8,
    ensures
        ({
            let cur = g.current_value as int;
            let up = g.spec_generate(m).1 as int;
            let down = g.spec_generate((m + 8) as u8).1 as int;
            let idx = g.spec_generate(m).0.current_index as int;
            &&& up >= cur && down <= cur
            &&& up < i16::MAX && down > i16::MIN ==> up - cur == cur - down
            &&& m <= n ==> g.spec_generate(n).1 >= up && g.spec_generate((n + 8) as u8).1 <= down
            &&& g.spec_generate((m + 8) as u8).0.current_index == idx
            &&& m < 4 ==> idx == (if g.current_index == 0 { 0 } else { g.current_index - 1 })
            &&& m >= 4 ==> idx == (if g.current_index + 2 * (m - 3) > 88 { 88 } else { g.current_index + 2 * (m - 3) })
            &&& g.current_index == 0 && cur < 0x7000 ==> (m == 0 ==> up == cur) && (m == 7 ==> up == cur + 6)
        }),
{
    let st = adpcm_step(g.current_index as int);
    assert(st > 0) by {
        assert(forall|i: int| 0 <= i <= 88 ==> #[trigger] adpcm_step(i) > 0);
    }
    assert(((m * 2 + 1) * st) / 16 <= ((n * 2 + 1) * st) / 16 || m > n) by {
        if m <= n {
            assert((m * 2 + 1) * st <= (n * 2 + 1) * st) by (nonlinear_arith)
                requires m <= n, st > 0;
            vstd::arithmetic::div_mod::lemma_div_is_ordered((m * 2 + 1) * st, (n * 2 + 1) * st, 16);
        }
    }
    assert(((m * 2 + 1) * st) / 16 >= 0) by {
        assert((m * 2 + 1) * st >= 0) by (nonlinear_arith)
            requires st > 0, m >= 0;
    }
    assert((((m + 8) as u8) % 8) == m % 8);
    if g.current_index == 0 {
        assert(adpcm_step(0) == 7);
    }
    assert((((n + 8) as u8) % 8) == n % 8);
}

} // verus!
