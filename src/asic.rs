//! The chip variants known to the driver, in the order in which the hardware
//! was released.

use vstd::prelude::*;

verus! {

/// A GPU chip model.
///
/// Variants are declared in hardware-release order, and that order carries
/// meaning: capability rules are written as "at least this generation".
/// `<`, `>=` and the other comparisons go by [`ASIC_NAME::rank`], an explicit
/// number given to each variant, never by the position of a declaration.
#[allow(non_camel_case_types)]
#[derive(Debug, Clone, Copy, PartialEq, Eq, Structural)]
pub enum ASIC_NAME {
    CHIP_UNKNOWN,
    /* R3xx-based cores. (GFX2) */
    CHIP_R300,
    CHIP_R350,
    CHIP_RV350,
    CHIP_RV370,
    CHIP_RV380,
    CHIP_RS400,
    CHIP_RC410,
    CHIP_RS480,
    /* R4xx-based cores. (GFX2) */
    CHIP_R420,
    CHIP_R423,
    CHIP_R430,
    CHIP_R480,
    CHIP_R481,
    CHIP_RV410,
    CHIP_RS600,
    CHIP_RS690,
    CHIP_RS740,
    /* R5xx-based cores. (GFX2) */
    CHIP_RV515,
    CHIP_R520,
    CHIP_RV530,
    CHIP_R580,
    CHIP_RV560,
    CHIP_RV570,
    /* GFX3 (R6xx) */
    CHIP_R600,
    CHIP_RV610,
    CHIP_RV630,
    CHIP_RV670,
    CHIP_RV620,
    CHIP_RV635,
    CHIP_RS780,
    CHIP_RS880,
    /* GFX3 (R7xx) */
    CHIP_RV770,
    CHIP_RV730,
    CHIP_RV710,
    CHIP_RV740,
    /* GFX4 (Evergreen) */
    CHIP_CEDAR,
    CHIP_REDWOOD,
    CHIP_JUNIPER,
    CHIP_CYPRESS,
    CHIP_HEMLOCK,
    CHIP_PALM,
    CHIP_SUMO,
    CHIP_SUMO2,
    CHIP_BARTS,
    CHIP_TURKS,
    CHIP_CAICOS,
    /* GFX5 (Northern Islands) */
    CHIP_CAYMAN,
    CHIP_ARUBA,
    /* GFX6 (Southern Islands) */
    CHIP_TAHITI,
    CHIP_PITCAIRN,
    CHIP_VERDE,
    CHIP_OLAND,
    CHIP_HAINAN,
    /* GFX7 (Sea Islands) */
    CHIP_BONAIRE,
    CHIP_LIVERPOOL,
    CHIP_GLADIUS,
    CHIP_KAVERI,
    CHIP_KABINI,
    CHIP_HAWAII, /* Radeon 290, 390 */
    /* GFX8 (Volcanic Islands & Polaris) */
    CHIP_TONGA, /* Radeon 285, 380 */
    CHIP_ICELAND,
    CHIP_CARRIZO,
    CHIP_FIJI, /* Radeon Fury */
    CHIP_STONEY,
    CHIP_POLARIS10, /* Radeon 470, 480, 570, 580, 590 */
    CHIP_POLARIS11, /* Radeon 460, 560 */
    CHIP_POLARIS12, /* Radeon 540, 550 */
    CHIP_VEGAM,
    /* GFX9 (Vega) */
    CHIP_VEGA10, /* Vega 56, 64 */
    CHIP_VEGA12,
    CHIP_VEGA20,    /* Radeon VII, MI50 */
    CHIP_RAVEN,     /* Ryzen 2000, 3000 */
    CHIP_RAVEN2,    /* Ryzen 2200U, 3200U */
    CHIP_RENOIR,    /* Ryzen 4000, 5000 */
    CHIP_ARCTURUS,  /* MI100 */
    CHIP_ALDEBARAN, /* MI200 */
    CHIP_GFX940, /* MI300, Aqua Vanjaram */
    /* GFX10.1 (RDNA 1) */
    CHIP_NAVI10, /* Radeon 5600, 5700 */
    CHIP_NAVI12, /* Radeon Pro 5600M */
    CHIP_NAVI14, /* Radeon 5300, 5500 */
    CHIP_GFX1013, /* BC-250 */
    /* GFX10.3 (RDNA 2) */
    CHIP_NAVI21,    /* Radeon 6800, 6900 */
    CHIP_NAVI22,    /* Radeon 6700 */
    CHIP_VANGOGH,   /* Steam Deck */
    CHIP_NAVI23,    /* Radeon 6600 */
    CHIP_NAVI24,    /* Radeon 6400, 6500 */
    CHIP_REMBRANDT, /* Ryzen 6000 */
    CHIP_GFX1036, /* Raphael, Mendocino, Granite Ridge */
    /* GFX11 (RDNA 3) */
    CHIP_GFX1100, /* Navi31 */
    CHIP_GFX1101, /* Navi32 */
    CHIP_GFX1102, /* Navi33 */
    CHIP_GFX1103_R1, /* Phoenix1 */
    CHIP_GFX1103_R2, /* Phoenix2 */
    CHIP_GFX1103_R1X, /* Hawk Point1 */
    CHIP_GFX1103_R2X, /* Hawk Point2 */
    /* GFX11.5 (RDNA 3.5) */
    CHIP_GFX1150, /* Strix Point */
    CHIP_GFX1151, /* Strix Halo */
    CHIP_GFX1152,
    CHIP_GFX1153,
    /* GFX12 (RDNA 4) */
    CHIP_GFX1200,
    CHIP_GFX1201,
}

/// The highest rank that a variant has.
pub const MAX_RANK: u8 = 101;

impl ASIC_NAME {
    /// Cyan Skillfish is another name of the GFX1013 chip.
    pub const CHIP_CYAN_SKILLFISH: Self = Self::CHIP_GFX1013;

    /// The place of the variant in hardware-release order.
    pub open spec fn spec_rank(self) -> nat {
        match self {
            ASIC_NAME::CHIP_UNKNOWN => 0,
            ASIC_NAME::CHIP_R300 => 1,
            ASIC_NAME::CHIP_R350 => 2,
            ASIC_NAME::CHIP_RV350 => 3,
            ASIC_NAME::CHIP_RV370 => 4,
            ASIC_NAME::CHIP_RV380 => 5,
            ASIC_NAME::CHIP_RS400 => 6,
            ASIC_NAME::CHIP_RC410 => 7,
            ASIC_NAME::CHIP_RS480 => 8,
            ASIC_NAME::CHIP_R420 => 9,
            ASIC_NAME::CHIP_R423 => 10,
            ASIC_NAME::CHIP_R430 => 11,
            ASIC_NAME::CHIP_R480 => 12,
            ASIC_NAME::CHIP_R481 => 13,
            ASIC_NAME::CHIP_RV410 => 14,
            ASIC_NAME::CHIP_RS600 => 15,
            ASIC_NAME::CHIP_RS690 => 16,
            ASIC_NAME::CHIP_RS740 => 17,
            ASIC_NAME::CHIP_RV515 => 18,
            ASIC_NAME::CHIP_R520 => 19,
            ASIC_NAME::CHIP_RV530 => 20,
            ASIC_NAME::CHIP_R580 => 21,
            ASIC_NAME::CHIP_RV560 => 22,
            ASIC_NAME::CHIP_RV570 => 23,
            ASIC_NAME::CHIP_R600 => 24,
            ASIC_NAME::CHIP_RV610 => 25,
            ASIC_NAME::CHIP_RV630 => 26,
            ASIC_NAME::CHIP_RV670 => 27,
            ASIC_NAME::CHIP_RV620 => 28,
            ASIC_NAME::CHIP_RV635 => 29,
            ASIC_NAME::CHIP_RS780 => 30,
            ASIC_NAME::CHIP_RS880 => 31,
            ASIC_NAME::CHIP_RV770 => 32,
            ASIC_NAME::CHIP_RV730 => 33,
            ASIC_NAME::CHIP_RV710 => 34,
            ASIC_NAME::CHIP_RV740 => 35,
            ASIC_NAME::CHIP_CEDAR => 36,
            ASIC_NAME::CHIP_REDWOOD => 37,
            ASIC_NAME::CHIP_JUNIPER => 38,
            ASIC_NAME::CHIP_CYPRESS => 39,
            ASIC_NAME::CHIP_HEMLOCK => 40,
            ASIC_NAME::CHIP_PALM => 41,
            ASIC_NAME::CHIP_SUMO => 42,
            ASIC_NAME::CHIP_SUMO2 => 43,
            ASIC_NAME::CHIP_BARTS => 44,
            ASIC_NAME::CHIP_TURKS => 45,
            ASIC_NAME::CHIP_CAICOS => 46,
            ASIC_NAME::CHIP_CAYMAN => 47,
            ASIC_NAME::CHIP_ARUBA => 48,
            ASIC_NAME::CHIP_TAHITI => 49,
            ASIC_NAME::CHIP_PITCAIRN => 50,
            ASIC_NAME::CHIP_VERDE => 51,
            ASIC_NAME::CHIP_OLAND => 52,
            ASIC_NAME::CHIP_HAINAN => 53,
            ASIC_NAME::CHIP_BONAIRE => 54,
            ASIC_NAME::CHIP_LIVERPOOL => 55,
            ASIC_NAME::CHIP_GLADIUS => 56,
            ASIC_NAME::CHIP_KAVERI => 57,
            ASIC_NAME::CHIP_KABINI => 58,
            ASIC_NAME::CHIP_HAWAII => 59,
            ASIC_NAME::CHIP_TONGA => 60,
            ASIC_NAME::CHIP_ICELAND => 61,
            ASIC_NAME::CHIP_CARRIZO => 62,
            ASIC_NAME::CHIP_FIJI => 63,
            ASIC_NAME::CHIP_STONEY => 64,
            ASIC_NAME::CHIP_POLARIS10 => 65,
            ASIC_NAME::CHIP_POLARIS11 => 66,
            ASIC_NAME::CHIP_POLARIS12 => 67,
            ASIC_NAME::CHIP_VEGAM => 68,
            ASIC_NAME::CHIP_VEGA10 => 69,
            ASIC_NAME::CHIP_VEGA12 => 70,
            ASIC_NAME::CHIP_VEGA20 => 71,
            ASIC_NAME::CHIP_RAVEN => 72,
            ASIC_NAME::CHIP_RAVEN2 => 73,
            ASIC_NAME::CHIP_RENOIR => 74,
            ASIC_NAME::CHIP_ARCTURUS => 75,
            ASIC_NAME::CHIP_ALDEBARAN => 76,
            ASIC_NAME::CHIP_GFX940 => 77,
            ASIC_NAME::CHIP_NAVI10 => 78,
            ASIC_NAME::CHIP_NAVI12 => 79,
            ASIC_NAME::CHIP_NAVI14 => 80,
            ASIC_NAME::CHIP_GFX1013 => 81,
            ASIC_NAME::CHIP_NAVI21 => 82,
            ASIC_NAME::CHIP_NAVI22 => 83,
            ASIC_NAME::CHIP_VANGOGH => 84,
            ASIC_NAME::CHIP_NAVI23 => 85,
            ASIC_NAME::CHIP_NAVI24 => 86,
            ASIC_NAME::CHIP_REMBRANDT => 87,
            ASIC_NAME::CHIP_GFX1036 => 88,
            ASIC_NAME::CHIP_GFX1100 => 89,
            ASIC_NAME::CHIP_GFX1101 => 90,
            ASIC_NAME::CHIP_GFX1102 => 91,
            ASIC_NAME::CHIP_GFX1103_R1 => 92,
            ASIC_NAME::CHIP_GFX1103_R2 => 93,
            ASIC_NAME::CHIP_GFX1103_R1X => 94,
            ASIC_NAME::CHIP_GFX1103_R2X => 95,
            ASIC_NAME::CHIP_GFX1150 => 96,
            ASIC_NAME::CHIP_GFX1151 => 97,
            ASIC_NAME::CHIP_GFX1152 => 98,
            ASIC_NAME::CHIP_GFX1153 => 99,
            ASIC_NAME::CHIP_GFX1200 => 100,
            ASIC_NAME::CHIP_GFX1201 => 101,
        }
    }

    /// The place of the variant in hardware-release order.
    pub fn rank(&self) -> (r: u8)
        ensures
            r as nat == self.spec_rank(),
    {
        match self {
            ASIC_NAME::CHIP_UNKNOWN => 0,
            ASIC_NAME::CHIP_R300 => 1,
            ASIC_NAME::CHIP_R350 => 2,
            ASIC_NAME::CHIP_RV350 => 3,
            ASIC_NAME::CHIP_RV370 => 4,
            ASIC_NAME::CHIP_RV380 => 5,
            ASIC_NAME::CHIP_RS400 => 6,
            ASIC_NAME::CHIP_RC410 => 7,
            ASIC_NAME::CHIP_RS480 => 8,
            ASIC_NAME::CHIP_R420 => 9,
            ASIC_NAME::CHIP_R423 => 10,
            ASIC_NAME::CHIP_R430 => 11,
            ASIC_NAME::CHIP_R480 => 12,
            ASIC_NAME::CHIP_R481 => 13,
            ASIC_NAME::CHIP_RV410 => 14,
            ASIC_NAME::CHIP_RS600 => 15,
            ASIC_NAME::CHIP_RS690 => 16,
            ASIC_NAME::CHIP_RS740 => 17,
            ASIC_NAME::CHIP_RV515 => 18,
            ASIC_NAME::CHIP_R520 => 19,
            ASIC_NAME::CHIP_RV530 => 20,
            ASIC_NAME::CHIP_R580 => 21,
            ASIC_NAME::CHIP_RV560 => 22,
            ASIC_NAME::CHIP_RV570 => 23,
            ASIC_NAME::CHIP_R600 => 24,
            ASIC_NAME::CHIP_RV610 => 25,
            ASIC_NAME::CHIP_RV630 => 26,
            ASIC_NAME::CHIP_RV670 => 27,
            ASIC_NAME::CHIP_RV620 => 28,
            ASIC_NAME::CHIP_RV635 => 29,
            ASIC_NAME::CHIP_RS780 => 30,
            ASIC_NAME::CHIP_RS880 => 31,
            ASIC_NAME::CHIP_RV770 => 32,
            ASIC_NAME::CHIP_RV730 => 33,
            ASIC_NAME::CHIP_RV710 => 34,
            ASIC_NAME::CHIP_RV740 => 35,
            ASIC_NAME::CHIP_CEDAR => 36,
            ASIC_NAME::CHIP_REDWOOD => 37,
            ASIC_NAME::CHIP_JUNIPER => 38,
            ASIC_NAME::CHIP_CYPRESS => 39,
            ASIC_NAME::CHIP_HEMLOCK => 40,
            ASIC_NAME::CHIP_PALM => 41,
            ASIC_NAME::CHIP_SUMO => 42,
            ASIC_NAME::CHIP_SUMO2 => 43,
            ASIC_NAME::CHIP_BARTS => 44,
            ASIC_NAME::CHIP_TURKS => 45,
            ASIC_NAME::CHIP_CAICOS => 46,
            ASIC_NAME::CHIP_CAYMAN => 47,
            ASIC_NAME::CHIP_ARUBA => 48,
            ASIC_NAME::CHIP_TAHITI => 49,
            ASIC_NAME::CHIP_PITCAIRN => 50,
            ASIC_NAME::CHIP_VERDE => 51,
            ASIC_NAME::CHIP_OLAND => 52,
            ASIC_NAME::CHIP_HAINAN => 53,
            ASIC_NAME::CHIP_BONAIRE => 54,
            ASIC_NAME::CHIP_LIVERPOOL => 55,
            ASIC_NAME::CHIP_GLADIUS => 56,
            ASIC_NAME::CHIP_KAVERI => 57,
            ASIC_NAME::CHIP_KABINI => 58,
            ASIC_NAME::CHIP_HAWAII => 59,
            ASIC_NAME::CHIP_TONGA => 60,
            ASIC_NAME::CHIP_ICELAND => 61,
            ASIC_NAME::CHIP_CARRIZO => 62,
            ASIC_NAME::CHIP_FIJI => 63,
            ASIC_NAME::CHIP_STONEY => 64,
            ASIC_NAME::CHIP_POLARIS10 => 65,
            ASIC_NAME::CHIP_POLARIS11 => 66,
            ASIC_NAME::CHIP_POLARIS12 => 67,
            ASIC_NAME::CHIP_VEGAM => 68,
            ASIC_NAME::CHIP_VEGA10 => 69,
            ASIC_NAME::CHIP_VEGA12 => 70,
            ASIC_NAME::CHIP_VEGA20 => 71,
            ASIC_NAME::CHIP_RAVEN => 72,
            ASIC_NAME::CHIP_RAVEN2 => 73,
            ASIC_NAME::CHIP_RENOIR => 74,
            ASIC_NAME::CHIP_ARCTURUS => 75,
            ASIC_NAME::CHIP_ALDEBARAN => 76,
            ASIC_NAME::CHIP_GFX940 => 77,
            ASIC_NAME::CHIP_NAVI10 => 78,
            ASIC_NAME::CHIP_NAVI12 => 79,
            ASIC_NAME::CHIP_NAVI14 => 80,
            ASIC_NAME::CHIP_GFX1013 => 81,
            ASIC_NAME::CHIP_NAVI21 => 82,
            ASIC_NAME::CHIP_NAVI22 => 83,
            ASIC_NAME::CHIP_VANGOGH => 84,
            ASIC_NAME::CHIP_NAVI23 => 85,
            ASIC_NAME::CHIP_NAVI24 => 86,
            ASIC_NAME::CHIP_REMBRANDT => 87,
            ASIC_NAME::CHIP_GFX1036 => 88,
            ASIC_NAME::CHIP_GFX1100 => 89,
            ASIC_NAME::CHIP_GFX1101 => 90,
            ASIC_NAME::CHIP_GFX1102 => 91,
            ASIC_NAME::CHIP_GFX1103_R1 => 92,
            ASIC_NAME::CHIP_GFX1103_R2 => 93,
            ASIC_NAME::CHIP_GFX1103_R1X => 94,
            ASIC_NAME::CHIP_GFX1103_R2X => 95,
            ASIC_NAME::CHIP_GFX1150 => 96,
            ASIC_NAME::CHIP_GFX1151 => 97,
            ASIC_NAME::CHIP_GFX1152 => 98,
            ASIC_NAME::CHIP_GFX1153 => 99,
            ASIC_NAME::CHIP_GFX1200 => 100,
            ASIC_NAME::CHIP_GFX1201 => 101,
        }
    }

    /// `self` is of the generation of `other` or of a later one.
    pub open spec fn at_least(self, other: ASIC_NAME) -> bool {
        self.spec_rank() >= other.spec_rank()
    }

    /// `self` is of a generation no later than that of `other`.
    pub open spec fn at_most(self, other: ASIC_NAME) -> bool {
        self.spec_rank() <= other.spec_rank()
    }
}

impl PartialOrd for ASIC_NAME {
    /// Variants compare by release order.
    fn partial_cmp(&self, other: &ASIC_NAME) -> (r: Option<core::cmp::Ordering>) {
        let a = self.rank();
        let b = other.rank();
        if a < b {
            Some(core::cmp::Ordering::Less)
        } else if a > b {
            Some(core::cmp::Ordering::Greater)
        } else {
            Some(core::cmp::Ordering::Equal)
        }
    }
}

impl vstd::std_specs::cmp::PartialOrdSpecImpl for ASIC_NAME {
    open spec fn obeys_partial_cmp_spec() -> bool {
        true
    }

    open spec fn partial_cmp_spec(&self, other: &ASIC_NAME) -> Option<core::cmp::Ordering> {
        if self.spec_rank() < other.spec_rank() {
            Some(core::cmp::Ordering::Less)
        } else if self.spec_rank() > other.spec_rank() {
            Some(core::cmp::Ordering::Greater)
        } else {
            Some(core::cmp::Ordering::Equal)
        }
    }
}

/// The variant of a rank; `CHIP_UNKNOWN` for a number that is no rank.
pub open spec fn variant_of_rank(n: u8) -> ASIC_NAME {
    match n {
        0 => ASIC_NAME::CHIP_UNKNOWN,
        1 => ASIC_NAME::CHIP_R300,
        2 => ASIC_NAME::CHIP_R350,
        3 => ASIC_NAME::CHIP_RV350,
        4 => ASIC_NAME::CHIP_RV370,
        5 => ASIC_NAME::CHIP_RV380,
        6 => ASIC_NAME::CHIP_RS400,
        7 => ASIC_NAME::CHIP_RC410,
        8 => ASIC_NAME::CHIP_RS480,
        9 => ASIC_NAME::CHIP_R420,
        10 => ASIC_NAME::CHIP_R423,
        11 => ASIC_NAME::CHIP_R430,
        12 => ASIC_NAME::CHIP_R480,
        13 => ASIC_NAME::CHIP_R481,
        14 => ASIC_NAME::CHIP_RV410,
        15 => ASIC_NAME::CHIP_RS600,
        16 => ASIC_NAME::CHIP_RS690,
        17 => ASIC_NAME::CHIP_RS740,
        18 => ASIC_NAME::CHIP_RV515,
        19 => ASIC_NAME::CHIP_R520,
        20 => ASIC_NAME::CHIP_RV530,
        21 => ASIC_NAME::CHIP_R580,
        22 => ASIC_NAME::CHIP_RV560,
        23 => ASIC_NAME::CHIP_RV570,
        24 => ASIC_NAME::CHIP_R600,
        25 => ASIC_NAME::CHIP_RV610,
        26 => ASIC_NAME::CHIP_RV630,
        27 => ASIC_NAME::CHIP_RV670,
        28 => ASIC_NAME::CHIP_RV620,
        29 => ASIC_NAME::CHIP_RV635,
        30 => ASIC_NAME::CHIP_RS780,
        31 => ASIC_NAME::CHIP_RS880,
        32 => ASIC_NAME::CHIP_RV770,
        33 => ASIC_NAME::CHIP_RV730,
        34 => ASIC_NAME::CHIP_RV710,
        35 => ASIC_NAME::CHIP_RV740,
        36 => ASIC_NAME::CHIP_CEDAR,
        37 => ASIC_NAME::CHIP_REDWOOD,
        38 => ASIC_NAME::CHIP_JUNIPER,
        39 => ASIC_NAME::CHIP_CYPRESS,
        40 => ASIC_NAME::CHIP_HEMLOCK,
        41 => ASIC_NAME::CHIP_PALM,
        42 => ASIC_NAME::CHIP_SUMO,
        43 => ASIC_NAME::CHIP_SUMO2,
        44 => ASIC_NAME::CHIP_BARTS,
        45 => ASIC_NAME::CHIP_TURKS,
        46 => ASIC_NAME::CHIP_CAICOS,
        47 => ASIC_NAME::CHIP_CAYMAN,
        48 => ASIC_NAME::CHIP_ARUBA,
        49 => ASIC_NAME::CHIP_TAHITI,
        50 => ASIC_NAME::CHIP_PITCAIRN,
        51 => ASIC_NAME::CHIP_VERDE,
        52 => ASIC_NAME::CHIP_OLAND,
        53 => ASIC_NAME::CHIP_HAINAN,
        54 => ASIC_NAME::CHIP_BONAIRE,
        55 => ASIC_NAME::CHIP_LIVERPOOL,
        56 => ASIC_NAME::CHIP_GLADIUS,
        57 => ASIC_NAME::CHIP_KAVERI,
        58 => ASIC_NAME::CHIP_KABINI,
        59 => ASIC_NAME::CHIP_HAWAII,
        60 => ASIC_NAME::CHIP_TONGA,
        61 => ASIC_NAME::CHIP_ICELAND,
        62 => ASIC_NAME::CHIP_CARRIZO,
        63 => ASIC_NAME::CHIP_FIJI,
        64 => ASIC_NAME::CHIP_STONEY,
        65 => ASIC_NAME::CHIP_POLARIS10,
        66 => ASIC_NAME::CHIP_POLARIS11,
        67 => ASIC_NAME::CHIP_POLARIS12,
        68 => ASIC_NAME::CHIP_VEGAM,
        69 => ASIC_NAME::CHIP_VEGA10,
        70 => ASIC_NAME::CHIP_VEGA12,
        71 => ASIC_NAME::CHIP_VEGA20,
        72 => ASIC_NAME::CHIP_RAVEN,
        73 => ASIC_NAME::CHIP_RAVEN2,
        74 => ASIC_NAME::CHIP_RENOIR,
        75 => ASIC_NAME::CHIP_ARCTURUS,
        76 => ASIC_NAME::CHIP_ALDEBARAN,
        77 => ASIC_NAME::CHIP_GFX940,
        78 => ASIC_NAME::CHIP_NAVI10,
        79 => ASIC_NAME::CHIP_NAVI12,
        80 => ASIC_NAME::CHIP_NAVI14,
        81 => ASIC_NAME::CHIP_GFX1013,
        82 => ASIC_NAME::CHIP_NAVI21,
        83 => ASIC_NAME::CHIP_NAVI22,
        84 => ASIC_NAME::CHIP_VANGOGH,
        85 => ASIC_NAME::CHIP_NAVI23,
        86 => ASIC_NAME::CHIP_NAVI24,
        87 => ASIC_NAME::CHIP_REMBRANDT,
        88 => ASIC_NAME::CHIP_GFX1036,
        89 => ASIC_NAME::CHIP_GFX1100,
        90 => ASIC_NAME::CHIP_GFX1101,
        91 => ASIC_NAME::CHIP_GFX1102,
        92 => ASIC_NAME::CHIP_GFX1103_R1,
        93 => ASIC_NAME::CHIP_GFX1103_R2,
        94 => ASIC_NAME::CHIP_GFX1103_R1X,
        95 => ASIC_NAME::CHIP_GFX1103_R2X,
        96 => ASIC_NAME::CHIP_GFX1150,
        97 => ASIC_NAME::CHIP_GFX1151,
        98 => ASIC_NAME::CHIP_GFX1152,
        99 => ASIC_NAME::CHIP_GFX1153,
        100 => ASIC_NAME::CHIP_GFX1200,
        101 => ASIC_NAME::CHIP_GFX1201,
        _ => ASIC_NAME::CHIP_UNKNOWN,
    }
}

/// The rank names each variant exactly: it is at most `MAX_RANK`, and the
/// variant can be read back from it.
pub proof fn lemma_rank_identifies_variant(v: ASIC_NAME)
    ensures
        v.spec_rank() <= MAX_RANK,
        variant_of_rank(v.spec_rank() as u8) == v,
{
}

/// Release order is a strict order on the variants: two variants of the same
/// rank are the same variant.
pub proof fn lemma_rank_injective(a: ASIC_NAME, b: ASIC_NAME)
    ensures
        a.spec_rank() == b.spec_rank() ==> a == b,
{
    lemma_rank_identifies_variant(a);
    lemma_rank_identifies_variant(b);
}

} // verus!
