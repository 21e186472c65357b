//! The ARM9's system control coprocessor: its registers, and where a memory
//! access goes (tightly coupled memory, cache or the bus).
use vstd::prelude::*;

verus! {

pub const INSTR_TCM_SIZE: u32 = 32 * 1024;
pub const ITCM_MASK: u32 = INSTR_TCM_SIZE - 1;
pub const DATA_TCM_SIZE: u32 = 16 * 1024;
pub const DTCM_MASK: u32 = 0xFFFF_C000;

pub const CP15_ITCM_LOAD_MODE: u32 = 1 << 19;
pub const CP15_ITCM_ENABLE: u32 = 1 << 18;
pub const CP15_DTCM_LOAD_MODE: u32 = 1 << 17;
pub const CP15_DTCM_ENABLE: u32 = 1 << 16;
pub const CP15_PRE_ARM5_RET: u32 = 1 << 15;
pub const CP15_CACHE_REPLACE: u32 = 1 << 14;
pub const CP15_HI_VECTORS: u32 = 1 << 13;
pub const CP15_I_CACHE: u32 = 1 << 12;
pub const CP15_ENDIANNESS: u32 = 1 << 7;
pub const CP15_DATA_CACHE: u32 = 1 << 2;
/// Bits 3 to 6, which always read as set.
pub const CP15_PRESET: u32 = 0x78;
/// Every defined bit of the control register.
pub const CP15_ALL: u32 = 0x000F_F0FF;

/// Main id of the processor.
pub const MAIN_ID_REG: u32 = 0x4105_9461;
/// Cache type and sizes.
pub const CACHE_TYPE: u32 = 0x0F0D_2112;
/// Tightly coupled memory sizes.
pub const TCM_SIZE: u32 = 0x0014_0180;

/// A protection or memory region setting: base (bits 12 to 31), size
/// field (bits 1 to 5) and enable (bit 0).
pub open spec fn region_base(r: u32) -> u32 {
    r & 0xFFFF_F000
}

pub open spec fn region_enabled(r: u32) -> bool {
    r & 1 != 0
}

/// The region's size: two to the power of its size field.
pub open spec fn region_size(r: u32) -> u32 {
    (1u32 << ((r & 0x3E) >> 1u32)) as u32
}

/// Where an access goes.
#[derive(Clone, Copy, PartialEq, Eq, Structural)]
pub enum MemTarget {
    /// Instruction TCM, at this offset.
    Itcm(u32),
    /// Data TCM, at this offset.
    Dtcm(u32),
    /// Through the cache.
    Cache,
    /// To the memory bus.
    Bus,
}

/// What a coprocessor write asks for beyond the register change.
#[derive(Clone, Copy, PartialEq, Eq, Structural)]
pub enum Cp15Op {
    Done,
    /// A cache operation (register 7), with its operand register, data
    /// and info.
    CacheCommand(usize, u32, u32),
}

/// The coprocessor's registers.
pub struct Cp15 {
    pub control_reg: u32,
    pub data_cache_bits: u8,
    pub instr_cache_bits: u8,
    pub cache_write_buffer_bits: u8,
    pub data_access_perm_bits: u16,
    pub instr_access_perm_bits: u16,
    pub protection_unit_regions: [u32; 8],
    pub data_tcm_region: u32,
    pub instr_tcm_region: u32,
    pub data_tcm_base: u32,
    pub instr_cache_mask: u32,
    pub instr_cache_base: u32,
    pub data_cache_mask: u32,
    pub data_cache_base: u32,
}

/// The first of regions `from ..` that is enabled, marked cacheable in
/// `bits`, and based in main RAM (0x02xx_xxxx); 8 if none.
pub open spec fn first_cache_region(regions: Seq<u32>, bits: u8, from: nat) -> nat
    decreases 8 - from,
{
    if from >= 8 {
        8
    } else if region_enabled(regions[from as int]) && (bits >> (from as u8)) & 1 == 1 && region_base(
        regions[from as int],
    ) & 0xFF00_0000 == 0x0200_0000 {
        from
    } else {
        first_cache_region(regions, bits, from + 1)
    }
}

impl Cp15 {
    /// The instruction cache covers the first cacheable main RAM region,
    /// where the cache is on; the data cache covers nothing beyond
    /// address 0.
    pub open spec fn masks_set(&self) -> bool {
        let i = first_cache_region(self.protection_unit_regions@, self.instr_cache_bits, 0);
        &&& self.data_cache_mask == u32::MAX && self.data_cache_base == 0
        &&& if self.control_reg & CP15_I_CACHE != 0 && i < 8 {
            &&& self.instr_cache_base == region_base(self.protection_unit_regions@[i as int])
            &&& self.instr_cache_mask == (u32::MAX - (region_size(self.protection_unit_regions@[i as int]) - 1)) as u32
        } else {
            self.instr_cache_mask == u32::MAX && self.instr_cache_base == 0
        }
    }

    pub fn new() -> (r: Self)
        ensures
            r.control_reg == CP15_PRESET,
            r.masks_set(),
            r.data_tcm_base == 0 && r.data_tcm_region == 0 && r.instr_tcm_region == 0,
            r.protection_unit_regions@ == Seq::new(8, |i: int| 0u32),
    {
        assert(CP15_PRESET & CP15_I_CACHE == 0) by (bit_vector);
        Cp15 {
            control_reg: CP15_PRESET,
            data_cache_bits: 0,
            instr_cache_bits: 0,
            cache_write_buffer_bits: 0,
            data_access_perm_bits: 0,
            instr_access_perm_bits: 0,
            protection_unit_regions: [0; 8],
            data_tcm_region: 0,
            instr_tcm_region: 0,
            data_tcm_base: 0,
            instr_cache_mask: u32::MAX,
            instr_cache_base: 0,
            data_cache_mask: u32::MAX,
            data_cache_base: 0,
        }
    }

    /// The identification registers: cache type (1), TCM sizes (2), else
    /// the main id.
    pub fn read_id_code(&self, info: u32) -> (r: u32)
        ensures
            r == (if info == 1 { CACHE_TYPE } else if info == 2 { TCM_SIZE } else { MAIN_ID_REG }),
    {
        if info == 1 {
            CACHE_TYPE
        } else if info == 2 {
            TCM_SIZE
        } else {
            MAIN_ID_REG
        }
    }

    fn region_index_fits(&self, i: usize) -> (r: bool)
        requires
            i < 8,
        ensures
            r == (region_enabled(self.protection_unit_regions@[i as int]) && (self.instr_cache_bits >> (i as u8))
                & 1 == 1 && region_base(self.protection_unit_regions@[i as int]) & 0xFF00_0000 == 0x0200_0000),
    {
        let region = self.protection_unit_regions[i];
        region & 1 != 0 && (self.instr_cache_bits >> (i as u8)) & 1 == 1 && (region & 0xFFFF_F000)
            & 0xFF00_0000 == 0x0200_0000
    }

    /// Sets where the caches reach from the control register and the
    /// protection regions.
    fn set_cache_masks(&mut self)
        ensures
            final(self).masks_set(),
            *final(self) == (Cp15 {
                data_cache_mask: final(self).data_cache_mask,
                data_cache_base: final(self).data_cache_base,
                instr_cache_mask: final(self).instr_cache_mask,
                instr_cache_base: final(self).instr_cache_base,
                ..*old(self)
            }),
    {
        self.data_cache_mask = u32::MAX;
        self.data_cache_base = 0;
        self.instr_cache_mask = u32::MAX;
        self.instr_cache_base = 0;
        if self.control_reg & CP15_I_CACHE != 0 {
            let mut i: usize = 0;
            while i < 8
                invariant
                    i <= 8,
                    first_cache_region(self.protection_unit_regions@, self.instr_cache_bits, 0)
                        == first_cache_region(self.protection_unit_regions@, self.instr_cache_bits, i as nat),
                    self.instr_cache_mask == u32::MAX && self.instr_cache_base == 0,
                    self.data_cache_mask == u32::MAX && self.data_cache_base == 0,
                    self.control_reg & CP15_I_CACHE != 0,
                    *self == (Cp15 {
                        data_cache_mask: self.data_cache_mask,
                        data_cache_base: self.data_cache_base,
                        instr_cache_mask: self.instr_cache_mask,
                        instr_cache_base: self.instr_cache_base,
                        ..*old(self)
                    }),
                decreases 8 - i,
            {
                if self.region_index_fits(i) {
                    let region = self.protection_unit_regions[i];
                    let shift = (region & 0x3E) >> 1u32;
                    proof {
                        crate::bits::lemma_and_le32(region, 0x3E);
                    }
                    assert((region & 0x3E) >> 1u32 <= 31) by (bit_vector)
                        requires
                            region & 0x3E <= 0x3E,
                    ;
                    let size = 1u32 << shift;
                    assert(size >= 1) by (bit_vector)
                        requires
                            shift <= 31,
                            size == 1u32 << shift,
                    ;
                    self.instr_cache_base = region & 0xFFFF_F000;
                    self.instr_cache_mask = u32::MAX - (size - 1);
                    return;
                }
                i = i + 1;
            }
        }
    }

    /// Sets the control register; the preset bits stay set.
    pub fn write_control_reg(&mut self, data: u32)
        requires
            ((data & CP15_ALL) | CP15_PRESET) & CP15_ENDIANNESS == 0,
            ((data & CP15_ALL) | CP15_PRESET) & CP15_HI_VECTORS != 0,
            ((data & CP15_ALL) | CP15_PRESET) & CP15_PRE_ARM5_RET == 0,
        ensures
            final(self).control_reg == (data & CP15_ALL) | CP15_PRESET,
            final(self).masks_set(),
            *final(self) == (Cp15 {
                control_reg: final(self).control_reg,
                data_cache_mask: final(self).data_cache_mask,
                data_cache_base: final(self).data_cache_base,
                instr_cache_mask: final(self).instr_cache_mask,
                instr_cache_base: final(self).instr_cache_base,
                ..*old(self)
            }),
    {
        self.control_reg = (data & CP15_ALL) | CP15_PRESET;
        self.set_cache_masks();
    }

    /// Reads the cacheable bits: instruction (info 1) or data.
    pub fn read_cache_bits(&self, info: u32) -> (r: u32)
        ensures
            r == (if info == 1 { self.instr_cache_bits } else { self.data_cache_bits }),
    {
        if info == 1 {
            self.instr_cache_bits as u32
        } else {
            self.data_cache_bits as u32
        }
    }

    /// Sets the cacheable bits: instruction (info 1) or data.
    pub fn write_cache_bits(&mut self, data: u32, info: u32)
        ensures
            final(self).instr_cache_bits == (if info == 1 { (data % 0x100) as u8 } else { old(self).instr_cache_bits }),
            final(self).data_cache_bits == (if info == 1 { old(self).data_cache_bits } else { (data % 0x100) as u8 }),
            final(self).masks_set(),
            *final(self) == (Cp15 {
                instr_cache_bits: final(self).instr_cache_bits,
                data_cache_bits: final(self).data_cache_bits,
                data_cache_mask: final(self).data_cache_mask,
                data_cache_base: final(self).data_cache_base,
                instr_cache_mask: final(self).instr_cache_mask,
                instr_cache_base: final(self).instr_cache_base,
                ..*old(self)
            }),
    {
        if info == 1 {
            self.instr_cache_bits = (data % 0x100) as u8;
        } else {
            self.data_cache_bits = (data % 0x100) as u8;
        }
        self.set_cache_masks();
    }

    /// Reads the access permissions: instruction (info 1) or data.
    pub fn read_access_permission_bits(&self, info: u32) -> (r: u32)
        ensures
            r == (if info == 1 { self.instr_access_perm_bits } else { self.data_access_perm_bits }),
    {
        if info == 1 {
            self.instr_access_perm_bits as u32
        } else {
            self.data_access_perm_bits as u32
        }
    }

    /// Sets the access permissions: instruction (info 1) or data.
    pub fn write_access_permission_bits(&mut self, data: u32, info: u32)
        ensures
            *final(self) == (if info == 1 {
                Cp15 { instr_access_perm_bits: (data % 0x1_0000) as u16, ..*old(self) }
            } else {
                Cp15 { data_access_perm_bits: (data % 0x1_0000) as u16, ..*old(self) }
            }),
    {
        if info == 1 {
            self.instr_access_perm_bits = (data % 0x1_0000) as u16;
        } else {
            self.data_access_perm_bits = (data % 0x1_0000) as u16;
        }
    }

    /// Reads a TCM region setting: instruction (info 1) or data.
    pub fn read_tcm_settings(&self, info: u32) -> (r: u32)
        ensures
            r == (if info == 1 { self.instr_tcm_region } else { self.data_tcm_region }),
    {
        if info == 1 {
            self.instr_tcm_region
        } else {
            self.data_tcm_region
        }
    }

    /// Sets a TCM region: instruction (info 1), or data, which also moves
    /// the data TCM to the region's base.
    pub fn write_tcm_settings(&mut self, data: u32, info: u32)
        ensures
            *final(self) == (if info == 1 {
                Cp15 { instr_tcm_region: data & 0xFFFF_F03F, ..*old(self) }
            } else {
                Cp15 { data_tcm_region: data & 0xFFFF_F03F, data_tcm_base: data & 0xFFFF_F000, ..*old(self) }
            }),
    {
        if info == 1 {
            self.instr_tcm_region = data & 0xFFFF_F03F;
        } else {
            self.data_tcm_region = data & 0xFFFF_F03F;
            self.data_tcm_base = self.data_tcm_region & 0xFFFF_F000;
            assert((data & 0xFFFF_F03F) & 0xFFFF_F000 == data & 0xFFFF_F000) by (bit_vector);
        }
    }

    /// The setup of booting without the BIOS: data TCM at 0x0080_0000, and
    /// the control register as the BIOS leaves it.
    pub fn setup_init(&mut self)
        ensures
            final(self).data_tcm_region == 0x0080_000A,
            final(self).data_tcm_base == 0x0080_0000,
            final(self).control_reg == 0x0001_2078,
            final(self).masks_set(),
    {
        self.write_tcm_settings(0x0080_000A, 0);
        assert((0x0080_000Au32 & 0xFFFF_F03F) == 0x0080_000A && (0x0080_000Au32 & 0xFFFF_F000) == 0x0080_0000
            && ((0x0001_2078u32 & CP15_ALL) | CP15_PRESET) == 0x0001_2078 && 0x0001_2078u32 & CP15_ENDIANNESS == 0
            && 0x0001_2078u32 & CP15_HI_VECTORS != 0 && 0x0001_2078u32 & CP15_PRE_ARM5_RET == 0) by (bit_vector);
        self.write_control_reg(0x0001_2078);
    }

    /// Where a data access goes: the instruction TCM below 0x0200_0000,
    /// the data TCM in its 16K, the data cache where it reaches, else the
    /// bus.
    pub open spec fn data_target(&self, addr: u32) -> MemTarget {
        if addr <= 0x01FF_FFFF {
            MemTarget::Itcm(addr & ITCM_MASK)
        } else if addr & DTCM_MASK == self.data_tcm_base {
            MemTarget::Dtcm((addr - self.data_tcm_base) as u32)
        } else if self.data_cache_mask & addr == self.data_cache_base {
            MemTarget::Cache
        } else {
            MemTarget::Bus
        }
    }

    /// Where an instruction fetch goes: the instruction TCM below
    /// 0x0200_0000, the instruction cache where it reaches, else the bus.
    pub open spec fn instr_target(&self, addr: u32) -> MemTarget {
        if addr <= 0x01FF_FFFF {
            MemTarget::Itcm(addr & ITCM_MASK)
        } else if self.instr_cache_mask & addr == self.instr_cache_base {
            MemTarget::Cache
        } else {
            MemTarget::Bus
        }
    }

    pub fn route_data(&self, addr: u32) -> (r: MemTarget)
        ensures
            r == self.data_target(addr),
    {
        if addr <= 0x01FF_FFFF {
            MemTarget::Itcm(addr & ITCM_MASK)
        } else if addr & DTCM_MASK == self.data_tcm_base {
            assert(addr & DTCM_MASK <= addr) by (bit_vector);
            MemTarget::Dtcm(addr - self.data_tcm_base)
        } else if self.data_cache_mask & addr == self.data_cache_base {
            MemTarget::Cache
        } else {
            MemTarget::Bus
        }
    }

    pub fn route_instr(&self, addr: u32) -> (r: MemTarget)
        ensures
            r == self.instr_target(addr),
    {
        if addr <= 0x01FF_FFFF {
            MemTarget::Itcm(addr & ITCM_MASK)
        } else if self.instr_cache_mask & addr == self.instr_cache_base {
            MemTarget::Cache
        } else {
            MemTarget::Bus
        }
    }
}

impl Cp15 {
    /// The coprocessor registers a write can go to, with a control value it
    /// supports (little-endian, high vectors, ARMv5 returns).
    pub open spec fn mcr_ok(&self, dest_reg: usize, op_reg: usize, data: u32, info: u32) -> bool {
        if dest_reg == 0 || dest_reg == 2 || dest_reg == 3 || dest_reg == 5 {
            op_reg == 0
        } else if dest_reg == 1 {
            &&& op_reg == 0
            &&& ((data & CP15_ALL) | CP15_PRESET) & CP15_ENDIANNESS == 0
            &&& ((data & CP15_ALL) | CP15_PRESET) & CP15_HI_VECTORS != 0
            &&& ((data & CP15_ALL) | CP15_PRESET) & CP15_PRE_ARM5_RET == 0
        } else if dest_reg == 6 {
            op_reg < 8
        } else if dest_reg == 7 {
            true
        } else {
            dest_reg == 9 && op_reg == 1
        }
    }

    /// Whether `mcr` takes the write.
    pub fn mcr_supported(&self, dest_reg: usize, op_reg: usize, data: u32, info: u32) -> (r: bool)
        ensures
            r == self.mcr_ok(dest_reg, op_reg, data, info),
    {
        if dest_reg == 0 || dest_reg == 2 || dest_reg == 3 || dest_reg == 5 {
            op_reg == 0
        } else if dest_reg == 1 {
            let c = (data & CP15_ALL) | CP15_PRESET;
            op_reg == 0 && c & CP15_ENDIANNESS == 0 && c & CP15_HI_VECTORS != 0 && c & CP15_PRE_ARM5_RET == 0
        } else if dest_reg == 6 {
            op_reg < 8
        } else if dest_reg == 7 {
            true
        } else {
            dest_reg == 9 && op_reg == 1
        }
    }

    /// A write to a coprocessor register (MCR). Cache operations (register
    /// 7) are handed back to the owner of the caches.
    pub fn mcr(&mut self, dest_reg: usize, op_reg: usize, data: u32, info: u32) -> (r: Cp15Op)
        requires
            old(self).mcr_ok(dest_reg, op_reg, data, info),
        ensures
            dest_reg == 7 <==> r == Cp15Op::CacheCommand(op_reg, data, info),
            dest_reg != 7 ==> r == Cp15Op::Done,
            dest_reg == 0 || dest_reg == 7 ==> *final(self) == *old(self),
            dest_reg == 1 ==> final(self).control_reg == (data & CP15_ALL) | CP15_PRESET && final(self).masks_set(),
            dest_reg == 3 ==> *final(self) == (Cp15 { cache_write_buffer_bits: (data % 0x100) as u8, ..*old(self) }),
            dest_reg == 6 ==> final(self).protection_unit_regions@ == old(self).protection_unit_regions@.update(
                op_reg as int,
                data & 0xFFFF_F03F,
            ) && final(self).masks_set(),
            dest_reg == 9 ==> *final(self) == (if info == 1 {
                Cp15 { instr_tcm_region: data & 0xFFFF_F03F, ..*old(self) }
            } else {
                Cp15 { data_tcm_region: data & 0xFFFF_F03F, data_tcm_base: data & 0xFFFF_F000, ..*old(self) }
            }),
    {
        if dest_reg == 0 {
            Cp15Op::Done
        } else if dest_reg == 1 {
            self.write_control_reg(data);
            Cp15Op::Done
        } else if dest_reg == 2 {
            self.write_cache_bits(data, info);
            Cp15Op::Done
        } else if dest_reg == 3 {
            self.cache_write_buffer_bits = (data % 0x100) as u8;
            Cp15Op::Done
        } else if dest_reg == 5 {
            self.write_access_permission_bits(data, info);
            Cp15Op::Done
        } else if dest_reg == 6 {
            self.protection_unit_regions[op_reg] = data & 0xFFFF_F03F;
            self.set_cache_masks();
            Cp15Op::Done
        } else if dest_reg == 7 {
            Cp15Op::CacheCommand(op_reg, data, info)
        } else {
            self.write_tcm_settings(data, info);
            Cp15Op::Done
        }
    }

    /// A read of a coprocessor register (MRC); registers it does not hold
    /// read 0.
    pub fn mrc(&self, src_reg: usize, op_reg: usize, info: u32) -> (r: u32)
        requires
            src_reg == 6 ==> op_reg < 8,
        ensures
            r == (if src_reg == 0 && op_reg == 0 {
                if info == 1 { CACHE_TYPE } else if info == 2 { TCM_SIZE } else { MAIN_ID_REG }
            } else if src_reg == 1 && op_reg == 0 {
                self.control_reg
            } else if src_reg == 2 && op_reg == 0 {
                (if info == 1 { self.instr_cache_bits } else { self.data_cache_bits }) as u32
            } else if src_reg == 3 && op_reg == 0 {
                self.cache_write_buffer_bits as u32
            } else if src_reg == 5 && op_reg == 0 {
                (if info == 1 { self.instr_access_perm_bits } else { self.data_access_perm_bits }) as u32
            } else if src_reg == 6 {
                self.protection_unit_regions@[op_reg as int]
            } else if src_reg == 9 && op_reg == 1 {
                if info == 1 { self.instr_tcm_region } else { self.data_tcm_region }
            } else {
                0
            }),
    {
        if src_reg == 0 && op_reg == 0 {
            self.read_id_code(info)
        } else if src_reg == 1 && op_reg == 0 {
            self.control_reg
        } else if src_reg == 2 && op_reg == 0 {
            self.read_cache_bits(info)
        } else if src_reg == 3 && op_reg == 0 {
            self.cache_write_buffer_bits as u32
        } else if src_reg == 5 && op_reg == 0 {
            self.read_access_permission_bits(info)
        } else if src_reg == 6 {
            self.protection_unit_regions[op_reg]
        } else if src_reg == 9 && op_reg == 1 {
            self.read_tcm_settings(info)
        } else {
            0
        }
    }
}

/// A data TCM offset stays within the 16K of the data TCM.
pub proof fn lemma_dtcm_offset_in_range(c: Cp15, addr: u32)
    requires
        c.data_target(addr) matches MemTarget::Dtcm(_),
    ensures
        c.data_target(addr) matches MemTarget::Dtcm(off) && off < DATA_TCM_SIZE,
{
    let base = c.data_tcm_base;
    assert(base <= addr && addr - base < 0x4000) by (bit_vector)
        requires
            addr & 0xFFFF_C000 == base,
    ;
}

} // verus!
