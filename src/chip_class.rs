//! Coarse hardware generations, each a contiguous run of chip variants.

use vstd::prelude::*;

use crate::asic::ASIC_NAME;

verus! {

/// A hardware generation, used to gate generation-specific code paths.
#[allow(non_camel_case_types)]
#[derive(Debug, Clone, Copy, PartialEq, Eq, Structural)]
pub enum CHIP_CLASS {
    CLASS_UNKNOWN,
    R300,
    R400,
    R500,
    R600,
    R700,
    EVERGREEN,
    CAYMAN,
    GFX6,
    GFX7,
    GFX8,
    GFX9,
    GFX10,
    GFX10_3,
    GFX11,
    GFX11_5,
    GFX12,
}

impl CHIP_CLASS {
    /// The place of the generation in release order.
    pub open spec fn spec_rank(self) -> nat {
        match self {
            CHIP_CLASS::CLASS_UNKNOWN => 0,
            CHIP_CLASS::R300 => 1,
            CHIP_CLASS::R400 => 2,
            CHIP_CLASS::R500 => 3,
            CHIP_CLASS::R600 => 4,
            CHIP_CLASS::R700 => 5,
            CHIP_CLASS::EVERGREEN => 6,
            CHIP_CLASS::CAYMAN => 7,
            CHIP_CLASS::GFX6 => 8,
            CHIP_CLASS::GFX7 => 9,
            CHIP_CLASS::GFX8 => 10,
            CHIP_CLASS::GFX9 => 11,
            CHIP_CLASS::GFX10 => 12,
            CHIP_CLASS::GFX10_3 => 13,
            CHIP_CLASS::GFX11 => 14,
            CHIP_CLASS::GFX11_5 => 15,
            CHIP_CLASS::GFX12 => 16,
        }
    }
}

/// The generation of a chip variant: the latest generation whose first
/// variant does not come after it.
pub open spec fn class_of(v: ASIC_NAME) -> CHIP_CLASS {
    if v.at_least(ASIC_NAME::CHIP_GFX1200) {
        CHIP_CLASS::GFX12
    } else if v.at_least(ASIC_NAME::CHIP_GFX1150) {
        CHIP_CLASS::GFX11_5
    } else if v.at_least(ASIC_NAME::CHIP_GFX1100) {
        CHIP_CLASS::GFX11
    } else if v.at_least(ASIC_NAME::CHIP_NAVI21) {
        CHIP_CLASS::GFX10_3
    } else if v.at_least(ASIC_NAME::CHIP_NAVI10) {
        CHIP_CLASS::GFX10
    } else if v.at_least(ASIC_NAME::CHIP_VEGA10) {
        CHIP_CLASS::GFX9
    } else if v.at_least(ASIC_NAME::CHIP_TONGA) {
        CHIP_CLASS::GFX8
    } else if v.at_least(ASIC_NAME::CHIP_BONAIRE) {
        CHIP_CLASS::GFX7
    } else if v.at_least(ASIC_NAME::CHIP_TAHITI) {
        CHIP_CLASS::GFX6
    } else if v.at_least(ASIC_NAME::CHIP_CAYMAN) {
        CHIP_CLASS::CAYMAN
    } else if v.at_least(ASIC_NAME::CHIP_CEDAR) {
        CHIP_CLASS::EVERGREEN
    } else if v.at_least(ASIC_NAME::CHIP_RV770) {
        CHIP_CLASS::R700
    } else if v.at_least(ASIC_NAME::CHIP_R600) {
        CHIP_CLASS::R600
    } else if v.at_least(ASIC_NAME::CHIP_RV515) {
        CHIP_CLASS::R500
    } else if v.at_least(ASIC_NAME::CHIP_R420) {
        CHIP_CLASS::R400
    } else if v.at_least(ASIC_NAME::CHIP_R300) {
        CHIP_CLASS::R300
    } else {
        CHIP_CLASS::CLASS_UNKNOWN
    }
}

impl ASIC_NAME {
    /// The hardware generation of the chip.
    pub fn chip_class(&self) -> (r: CHIP_CLASS)
        ensures
            r == class_of(*self),
    {
        if *self >= ASIC_NAME::CHIP_GFX1200 {
            CHIP_CLASS::GFX12
        } else if *self >= ASIC_NAME::CHIP_GFX1150 {
            CHIP_CLASS::GFX11_5
        } else if *self >= ASIC_NAME::CHIP_GFX1100 {
            CHIP_CLASS::GFX11
        } else if *self >= ASIC_NAME::CHIP_NAVI21 {
            CHIP_CLASS::GFX10_3
        } else if *self >= ASIC_NAME::CHIP_NAVI10 {
            CHIP_CLASS::GFX10
        } else if *self >= ASIC_NAME::CHIP_VEGA10 {
            CHIP_CLASS::GFX9
        } else if *self >= ASIC_NAME::CHIP_TONGA {
            CHIP_CLASS::GFX8
        } else if *self >= ASIC_NAME::CHIP_BONAIRE {
            CHIP_CLASS::GFX7
        } else if *self >= ASIC_NAME::CHIP_TAHITI {
            CHIP_CLASS::GFX6
        } else if *self >= ASIC_NAME::CHIP_CAYMAN {
            CHIP_CLASS::CAYMAN
        } else if *self >= ASIC_NAME::CHIP_CEDAR {
            CHIP_CLASS::EVERGREEN
        } else if *self >= ASIC_NAME::CHIP_RV770 {
            CHIP_CLASS::R700
        } else if *self >= ASIC_NAME::CHIP_R600 {
            CHIP_CLASS::R600
        } else if *self >= ASIC_NAME::CHIP_RV515 {
            CHIP_CLASS::R500
        } else if *self >= ASIC_NAME::CHIP_R420 {
            CHIP_CLASS::R400
        } else if *self >= ASIC_NAME::CHIP_R300 {
            CHIP_CLASS::R300
        } else {
            CHIP_CLASS::CLASS_UNKNOWN
        }
    }
}

/// Generations are contiguous runs in release order: a variant released
/// later never belongs to an earlier generation, and every variant of a later
/// generation comes strictly after every variant of an earlier one.
pub proof fn lemma_class_monotone(a: ASIC_NAME, b: ASIC_NAME)
    ensures
        a.spec_rank() <= b.spec_rank() ==> class_of(a).spec_rank() <= class_of(b).spec_rank(),
        class_of(a).spec_rank() < class_of(b).spec_rank() ==> a.spec_rank() < b.spec_rank(),
{
}

/// The "at least this variant" thresholds of the capability rules that name
/// a generation's first variant hold exactly of that generation and the later
/// ones.
pub proof fn lemma_generation_thresholds(v: ASIC_NAME)
    ensures
        v.at_least(ASIC_NAME::CHIP_VEGA10) == (class_of(v).spec_rank()
            >= CHIP_CLASS::GFX9.spec_rank()),
        v.at_least(ASIC_NAME::CHIP_NAVI10) == (class_of(v).spec_rank()
            >= CHIP_CLASS::GFX10.spec_rank()),
        v.at_least(ASIC_NAME::CHIP_NAVI21) == (class_of(v).spec_rank()
            >= CHIP_CLASS::GFX10_3.spec_rank()),
        v.at_least(ASIC_NAME::CHIP_GFX1100) == (class_of(v).spec_rank()
            >= CHIP_CLASS::GFX11.spec_rank()),
        v.at_least(ASIC_NAME::CHIP_GFX1200) == (class_of(v).spec_rank()
            >= CHIP_CLASS::GFX12.spec_rank()),
{
}

} // verus!
