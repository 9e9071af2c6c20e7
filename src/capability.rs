//! Microarchitectural facts derived from the chip variant: feature gates,
//! SIMD layout, occupancy limits and cache sizes.

use vstd::prelude::*;

use crate::asic::ASIC_NAME;

verus! {

/// The chip has RB+ (render backend plus) hardware.
pub open spec fn spec_has_rbplus(v: ASIC_NAME) -> bool {
    v == ASIC_NAME::CHIP_STONEY || v.at_least(ASIC_NAME::CHIP_VEGA10)
}

/// RB+ is both present and allowed on the chip.
pub open spec fn spec_rbplus_allowed(v: ASIC_NAME) -> bool {
    spec_has_rbplus(v) && (v == ASIC_NAME::CHIP_STONEY || v == ASIC_NAME::CHIP_VEGA12
        || v == ASIC_NAME::CHIP_RAVEN || v == ASIC_NAME::CHIP_RAVEN2 || v
        == ASIC_NAME::CHIP_RENOIR || v.at_least(ASIC_NAME::CHIP_NAVI21))
}

/// Packed 16-bit math instructions are supported from Vega on.
pub open spec fn spec_has_packed_math_16bit(v: ASIC_NAME) -> bool {
    v.at_least(ASIC_NAME::CHIP_VEGA10)
}

/// Accelerated dot-product instructions are supported.
pub open spec fn spec_has_accelerated_dot_product(v: ASIC_NAME) -> bool {
    v == ASIC_NAME::CHIP_ARCTURUS || v == ASIC_NAME::CHIP_ALDEBARAN || v == ASIC_NAME::CHIP_VEGA20
        || v.at_least(ASIC_NAME::CHIP_NAVI12)
}

/// The most wave64 waves that one SIMD can hold.
pub open spec fn spec_max_wave64_per_simd(v: ASIC_NAME) -> nat {
    if v.at_least(ASIC_NAME::CHIP_NAVI21) {
        16
    } else if v.at_least(ASIC_NAME::CHIP_NAVI10) {
        20
    } else if v.at_least(ASIC_NAME::CHIP_POLARIS10) && v.at_most(ASIC_NAME::CHIP_VEGAM) {
        8
    } else {
        10
    }
}

/// Size in bytes of the L2 cache per block (channel).
pub open spec fn spec_l2_cache_size_per_block(v: ASIC_NAME) -> nat {
    match v {
        ASIC_NAME::CHIP_TAHITI
        | ASIC_NAME::CHIP_PITCAIRN
        | ASIC_NAME::CHIP_OLAND
        | ASIC_NAME::CHIP_HAWAII
        | ASIC_NAME::CHIP_KABINI
        | ASIC_NAME::CHIP_TONGA
        | ASIC_NAME::CHIP_STONEY
        | ASIC_NAME::CHIP_RAVEN2 => 64 * 1024,
        ASIC_NAME::CHIP_VERDE
        | ASIC_NAME::CHIP_HAINAN
        | ASIC_NAME::CHIP_BONAIRE
        | ASIC_NAME::CHIP_GLADIUS
        | ASIC_NAME::CHIP_LIVERPOOL
        | ASIC_NAME::CHIP_KAVERI
        | ASIC_NAME::CHIP_ICELAND
        | ASIC_NAME::CHIP_CARRIZO
        | ASIC_NAME::CHIP_FIJI
        | ASIC_NAME::CHIP_POLARIS12
        | ASIC_NAME::CHIP_VEGAM => 128 * 1024,
        ASIC_NAME::CHIP_REMBRANDT | ASIC_NAME::CHIP_GFX1201 => 512 * 1024,
        _ => 256 * 1024,
    }
}

/// Size in MiB of the L3 cache (MALL, Infinity Cache) per memory channel;
/// 0 where the chip has none.
pub open spec fn spec_l3_cache_size_mb_per_channel(v: ASIC_NAME) -> nat {
    match v {
        ASIC_NAME::CHIP_NAVI21 | ASIC_NAME::CHIP_NAVI22 => 8,
        ASIC_NAME::CHIP_NAVI23
        | ASIC_NAME::CHIP_NAVI24
        | ASIC_NAME::CHIP_GFX1100
        | ASIC_NAME::CHIP_GFX1101
        | ASIC_NAME::CHIP_GFX1102
        | ASIC_NAME::CHIP_GFX1200
        | ASIC_NAME::CHIP_GFX1201 => 4,
        ASIC_NAME::CHIP_GFX1151 => 2,
        _ => 0,
    }
}

impl ASIC_NAME {
    /// The chip has RB+ (render backend plus) hardware.
    fn has_rbplus(&self) -> (r: bool)
        ensures
            r == spec_has_rbplus(*self),
    {
        *self == Self::CHIP_STONEY || *self >= Self::CHIP_VEGA10
    }

    /// RB+ may be used: the hardware is there and the chip is on the allow-list.
    pub fn rbplus_allowed(&self) -> (r: bool)
        ensures
            r == spec_rbplus_allowed(*self),
    {
        self.has_rbplus() && (*self == Self::CHIP_STONEY || *self == Self::CHIP_VEGA12 || *self
            == Self::CHIP_RAVEN || *self == Self::CHIP_RAVEN2 || *self == Self::CHIP_RENOIR
            || *self >= Self::CHIP_NAVI21)
    }

    /// Packed 16-bit math instructions are supported.
    pub fn has_packed_math_16bit(&self) -> (r: bool)
        ensures
            r == spec_has_packed_math_16bit(*self),
    {
        *self >= Self::CHIP_VEGA10
    }

    /// Dot-product instructions are supported.
    pub fn has_accelerated_dot_product(&self) -> (r: bool)
        ensures
            r == spec_has_accelerated_dot_product(*self),
    {
        *self == Self::CHIP_ARCTURUS || *self == Self::CHIP_ALDEBARAN || *self == Self::CHIP_VEGA20
            || *self >= Self::CHIP_NAVI12
    }

    /// The most wave64 waves that one SIMD can hold.
    pub fn max_wave64_per_simd(&self) -> (r: u8)
        ensures
            r == spec_max_wave64_per_simd(*self),
    {
        if *self >= Self::CHIP_NAVI21 {
            16
        } else if *self >= Self::CHIP_NAVI10 {
            20
        } else if *self >= Self::CHIP_POLARIS10 && *self <= Self::CHIP_VEGAM {
            8
        } else {
            10
        }
    }

    /// Number of SIMD units per CU.
    pub fn num_simd_per_cu(&self) -> (r: u8)
        ensures
            r as int == (if self.at_least(ASIC_NAME::CHIP_NAVI10) {
                2int
            } else {
                4int
            }),
    {
        if *self >= Self::CHIP_NAVI10 {
            2
        } else {
            4
        }
    }

    /// Number of CUs grouped together (a WGP on RDNA).
    pub fn cu_group(&self) -> (r: u8)
        ensures
            r as int == (if self.at_least(ASIC_NAME::CHIP_NAVI10) {
                2int
            } else {
                1int
            }),
    {
        if *self >= Self::CHIP_NAVI10 {
            2
        } else {
            1
        }
    }

    /// L1 cache per CU, in bytes.
    pub fn l1_cache_size(&self) -> (r: u32)
        ensures
            r as int == (if self.at_least(ASIC_NAME::CHIP_GFX1100) {
                32 * 1024int
            } else {
                16 * 1024int
            }),
    {
        if *self >= Self::CHIP_GFX1100 {
            32 * 1024
        } else {
            16 * 1024
        }
    }

    /// RDNA L1 cache per shader array, in bytes; 0 before RDNA and from GFX12 on.
    pub fn gl1_cache_size(&self) -> (r: u32)
        ensures
            r as int == (if self.at_least(ASIC_NAME::CHIP_GFX1200) {
                0int
            } else if self.at_least(ASIC_NAME::CHIP_GFX1100) {
                256 * 1024int
            } else if self.at_least(ASIC_NAME::CHIP_NAVI10) {
                128 * 1024int
            } else {
                0int
            }),
    {
        if *self >= Self::CHIP_GFX1200 {
            0
        } else if *self >= Self::CHIP_GFX1100 {
            256 * 1024
        } else if *self >= Self::CHIP_NAVI10 {
            128 * 1024
        } else {
            0
        }
    }

    /// L2 (texture) cache size per block (channel), in bytes.
    pub fn l2_cache_size_per_block(&self) -> (r: u32)
        ensures
            r == spec_l2_cache_size_per_block(*self),
    {
        match self {
            Self::CHIP_TAHITI
            | Self::CHIP_PITCAIRN
            | Self::CHIP_OLAND
            | Self::CHIP_HAWAII
            | Self::CHIP_KABINI
            | Self::CHIP_TONGA
            | Self::CHIP_STONEY
            | Self::CHIP_RAVEN2 => 64 * 1024,
            Self::CHIP_VERDE
            | Self::CHIP_HAINAN
            | Self::CHIP_BONAIRE
            | Self::CHIP_GLADIUS
            | Self::CHIP_LIVERPOOL
            | Self::CHIP_KAVERI
            | Self::CHIP_ICELAND
            | Self::CHIP_CARRIZO
            | Self::CHIP_FIJI
            | Self::CHIP_POLARIS12
            | Self::CHIP_VEGAM => 128 * 1024,
            Self::CHIP_REMBRANDT | Self::CHIP_GFX1201 => 512 * 1024,
            _ => 256 * 1024,
        }
    }

    /// L2 (texture) cache line size, in bytes.
    pub fn l2_cache_line_size(&self) -> (r: u32)
        ensures
            r as int == (if self.at_least(ASIC_NAME::CHIP_GFX1200) {
                256int
            } else if self.at_least(ASIC_NAME::CHIP_NAVI10) || *self == ASIC_NAME::CHIP_ALDEBARAN {
                128int
            } else {
                64int
            }),
    {
        if *self >= Self::CHIP_GFX1200 {
            256
        } else if *self >= Self::CHIP_NAVI10 || *self == Self::CHIP_ALDEBARAN {
            128
        } else {
            64
        }
    }

    /// L3 cache (MALL, Infinity Cache) size per memory channel, in MiB.
    pub fn l3_cache_size_mb_per_channel(&self) -> (r: u32)
        ensures
            r == spec_l3_cache_size_mb_per_channel(*self),
    {
        match self {
            Self::CHIP_NAVI21 | Self::CHIP_NAVI22 => 8,
            Self::CHIP_NAVI23
            | Self::CHIP_NAVI24
            | Self::CHIP_GFX1100
            | Self::CHIP_GFX1101
            | Self::CHIP_GFX1102
            | Self::CHIP_GFX1200
            | Self::CHIP_GFX1201 => 4,
            Self::CHIP_GFX1151 => 2,
            _ => 0,
        }
    }
}

} // verus!
