//! Names of the chip variants: compiler target names and display names.

use vstd::prelude::*;

use crate::asic::ASIC_NAME;

verus! {

/// The processor name that LLVM knows the chip by, for an LLVM of the given
/// major version; an older compatible target where that LLVM predates the
/// chip's own; empty where LLVM has none.
pub open spec fn spec_llvm_processor_name(v: ASIC_NAME, llvm_major_ver: usize) -> Seq<char> {
    match v {
        ASIC_NAME::CHIP_TAHITI => "tahiti"@,
        ASIC_NAME::CHIP_PITCAIRN => "pitcairn"@,
        ASIC_NAME::CHIP_VERDE => "verde"@,
        ASIC_NAME::CHIP_OLAND => "oland"@,
        ASIC_NAME::CHIP_HAINAN => "hainan"@,
        ASIC_NAME::CHIP_BONAIRE => "bonaire"@,
        ASIC_NAME::CHIP_LIVERPOOL => "liverpool"@,
        ASIC_NAME::CHIP_GLADIUS => "gladius"@,
        ASIC_NAME::CHIP_KABINI => "kabini"@,
        ASIC_NAME::CHIP_KAVERI => "kaveri"@,
        ASIC_NAME::CHIP_HAWAII => "hawaii"@,
        ASIC_NAME::CHIP_TONGA => "tonga"@,
        ASIC_NAME::CHIP_ICELAND => "iceland"@,
        ASIC_NAME::CHIP_CARRIZO => "carrizo"@,
        ASIC_NAME::CHIP_FIJI => "fiji"@,
        ASIC_NAME::CHIP_STONEY => "stoney"@,
        ASIC_NAME::CHIP_POLARIS10 => "polaris10"@,
        ASIC_NAME::CHIP_POLARIS11 | ASIC_NAME::CHIP_POLARIS12 | ASIC_NAME::CHIP_VEGAM => "polaris11"@,
        ASIC_NAME::CHIP_VEGA10 => "gfx900"@,
        ASIC_NAME::CHIP_RAVEN => "gfx902"@,
        ASIC_NAME::CHIP_VEGA12 => "gfx904"@,
        ASIC_NAME::CHIP_VEGA20 => "gfx906"@,
        ASIC_NAME::CHIP_RAVEN2 | ASIC_NAME::CHIP_RENOIR => "gfx909"@,
        ASIC_NAME::CHIP_ARCTURUS => "gfx908"@,
        ASIC_NAME::CHIP_ALDEBARAN => "gfx90a"@,
        ASIC_NAME::CHIP_NAVI10 => "gfx1010"@,
        ASIC_NAME::CHIP_NAVI12 => "gfx1011"@,
        ASIC_NAME::CHIP_NAVI14 => "gfx1012"@,
        ASIC_NAME::CHIP_GFX1013 => "gfx1013"@,
        ASIC_NAME::CHIP_NAVI21 => "gfx1030"@,
        ASIC_NAME::CHIP_NAVI22 => if llvm_major_ver >= 12 {
            "gfx1031"@
        } else {
            "gfx1030"@
        },
        ASIC_NAME::CHIP_NAVI23 => if llvm_major_ver >= 12 {
            "gfx1032"@
        } else {
            "gfx1030"@
        },
        ASIC_NAME::CHIP_VANGOGH => if llvm_major_ver >= 12 {
            "gfx1033"@
        } else {
            "gfx1030"@
        },
        ASIC_NAME::CHIP_NAVI24 => if llvm_major_ver >= 13 {
            "gfx1034"@
        } else {
            "gfx1030"@
        },
        ASIC_NAME::CHIP_REMBRANDT => if llvm_major_ver >= 13 {
            "gfx1035"@
        } else {
            "gfx1030"@
        },
        ASIC_NAME::CHIP_GFX1036 => "gfx1030"@,
        ASIC_NAME::CHIP_GFX1100 => "gfx1100"@,
        ASIC_NAME::CHIP_GFX1101 => "gfx1101"@,
        ASIC_NAME::CHIP_GFX1102 => "gfx1102"@,
        ASIC_NAME::CHIP_GFX1103_R1 | ASIC_NAME::CHIP_GFX1103_R2 => "gfx1103"@,
        _ => ""@,
    }
}

/// The GFX target name (GPU id) of the chip; empty where it has none.
pub open spec fn spec_gfx_target_name(v: ASIC_NAME) -> Seq<char> {
    match v {
        ASIC_NAME::CHIP_TAHITI => "gfx600"@,
        ASIC_NAME::CHIP_PITCAIRN | ASIC_NAME::CHIP_VERDE => "gfx601"@,
        ASIC_NAME::CHIP_OLAND | ASIC_NAME::CHIP_HAINAN => "gfx602"@,
        ASIC_NAME::CHIP_BONAIRE => "gfx704"@,
        ASIC_NAME::CHIP_LIVERPOOL => "gfx704"@,
        ASIC_NAME::CHIP_GLADIUS => "gfx704"@,
        ASIC_NAME::CHIP_KABINI => "gfx703"@,
        ASIC_NAME::CHIP_KAVERI => "gfx700"@,
        ASIC_NAME::CHIP_HAWAII => "gfx701"@,
        ASIC_NAME::CHIP_TONGA | ASIC_NAME::CHIP_ICELAND => "gfx802"@,
        ASIC_NAME::CHIP_CARRIZO => "gfx801"@,
        ASIC_NAME::CHIP_FIJI => "gfx803"@,
        ASIC_NAME::CHIP_STONEY => "gfx810"@,
        ASIC_NAME::CHIP_POLARIS10 | ASIC_NAME::CHIP_POLARIS11 | ASIC_NAME::CHIP_POLARIS12 | ASIC_NAME::CHIP_VEGAM => "gfx803"@,
        ASIC_NAME::CHIP_VEGA10 => "gfx900"@,
        ASIC_NAME::CHIP_RAVEN => "gfx902"@,
        ASIC_NAME::CHIP_VEGA12 => "gfx904"@,
        ASIC_NAME::CHIP_VEGA20 => "gfx906"@,
        ASIC_NAME::CHIP_RAVEN2 | ASIC_NAME::CHIP_RENOIR => "gfx909"@,
        ASIC_NAME::CHIP_ARCTURUS => "gfx908"@,
        ASIC_NAME::CHIP_ALDEBARAN => "gfx90a"@,
        ASIC_NAME::CHIP_NAVI10 => "gfx1010"@,
        ASIC_NAME::CHIP_NAVI12 => "gfx1011"@,
        ASIC_NAME::CHIP_NAVI14 => "gfx1012"@,
        ASIC_NAME::CHIP_GFX1013 => "gfx1013"@,
        ASIC_NAME::CHIP_NAVI21 => "gfx1030"@,
        ASIC_NAME::CHIP_NAVI22 => "gfx1031"@,
        ASIC_NAME::CHIP_NAVI23 => "gfx1032"@,
        ASIC_NAME::CHIP_VANGOGH => "gfx1033"@,
        ASIC_NAME::CHIP_NAVI24 => "gfx1034"@,
        ASIC_NAME::CHIP_REMBRANDT => "gfx1035"@,
        ASIC_NAME::CHIP_GFX1036 => "gfx1030"@,
        ASIC_NAME::CHIP_GFX1100 => "gfx1100"@,
        ASIC_NAME::CHIP_GFX1101 => "gfx1101"@,
        ASIC_NAME::CHIP_GFX1102 => "gfx1102"@,
        ASIC_NAME::CHIP_GFX1103_R1 | ASIC_NAME::CHIP_GFX1103_R2 => "gfx1103"@,
        _ => ""@,
    }
}

/// The human-readable name of the chip.
pub open spec fn spec_display_name(v: ASIC_NAME) -> Seq<char> {
    match v {
        ASIC_NAME::CHIP_UNKNOWN => "Unknown"@,
        ASIC_NAME::CHIP_R300 => "R300"@,
        ASIC_NAME::CHIP_R350 => "R350"@,
        ASIC_NAME::CHIP_RV350 => "RV350"@,
        ASIC_NAME::CHIP_RV370 => "RV370"@,
        ASIC_NAME::CHIP_RV380 => "RV380"@,
        ASIC_NAME::CHIP_RS400 => "RS400"@,
        ASIC_NAME::CHIP_RC410 => "RC410"@,
        ASIC_NAME::CHIP_RS480 => "RS480"@,
        ASIC_NAME::CHIP_R420 => "R420"@,
        ASIC_NAME::CHIP_R423 => "R423"@,
        ASIC_NAME::CHIP_R430 => "R430"@,
        ASIC_NAME::CHIP_R480 => "R480"@,
        ASIC_NAME::CHIP_R481 => "R481"@,
        ASIC_NAME::CHIP_RV410 => "RV410"@,
        ASIC_NAME::CHIP_RS600 => "RS600"@,
        ASIC_NAME::CHIP_RS690 => "RS690"@,
        ASIC_NAME::CHIP_RS740 => "RS740"@,
        ASIC_NAME::CHIP_RV515 => "RV515"@,
        ASIC_NAME::CHIP_R520 => "R520"@,
        ASIC_NAME::CHIP_RV530 => "RV530"@,
        ASIC_NAME::CHIP_R580 => "R580"@,
        ASIC_NAME::CHIP_RV560 => "RV560"@,
        ASIC_NAME::CHIP_RV570 => "RV570"@,
        ASIC_NAME::CHIP_R600 => "R600"@,
        ASIC_NAME::CHIP_RV610 => "RV610"@,
        ASIC_NAME::CHIP_RV630 => "RV630"@,
        ASIC_NAME::CHIP_RV670 => "RV670"@,
        ASIC_NAME::CHIP_RV620 => "RV620"@,
        ASIC_NAME::CHIP_RV635 => "RV635"@,
        ASIC_NAME::CHIP_RS780 => "RS780"@,
        ASIC_NAME::CHIP_RS880 => "RS880"@,
        ASIC_NAME::CHIP_RV770 => "RV770"@,
        ASIC_NAME::CHIP_RV730 => "RV730"@,
        ASIC_NAME::CHIP_RV710 => "RV710"@,
        ASIC_NAME::CHIP_RV740 => "RV740"@,
        ASIC_NAME::CHIP_CEDAR => "Cedar"@,
        ASIC_NAME::CHIP_REDWOOD => "Redwood"@,
        ASIC_NAME::CHIP_JUNIPER => "Jupiter"@,
        ASIC_NAME::CHIP_CYPRESS => "Cypress"@,
        ASIC_NAME::CHIP_HEMLOCK => "Hemlock"@,
        ASIC_NAME::CHIP_PALM => "Palm"@,
        ASIC_NAME::CHIP_SUMO => "Sumo"@,
        ASIC_NAME::CHIP_SUMO2 => "Sumo2"@,
        ASIC_NAME::CHIP_BARTS => "Barts"@,
        ASIC_NAME::CHIP_TURKS => "Turks"@,
        ASIC_NAME::CHIP_CAICOS => "Caicos"@,
        ASIC_NAME::CHIP_CAYMAN => "Cayman"@,
        ASIC_NAME::CHIP_ARUBA => "Aruba"@,
        ASIC_NAME::CHIP_TAHITI => "Tahiti"@,
        ASIC_NAME::CHIP_PITCAIRN => "Pitcairn"@,
        ASIC_NAME::CHIP_VERDE => "Verde"@,
        ASIC_NAME::CHIP_OLAND => "Oland"@,
        ASIC_NAME::CHIP_HAINAN => "Hainan"@,
        ASIC_NAME::CHIP_BONAIRE => "Bonaire"@,
        ASIC_NAME::CHIP_LIVERPOOL => "Liverpool"@,
        ASIC_NAME::CHIP_GLADIUS => "Gladius"@,
        ASIC_NAME::CHIP_KAVERI => "Kaveri"@,
        ASIC_NAME::CHIP_KABINI => "Kabini"@,
        ASIC_NAME::CHIP_HAWAII => "Hawaii"@,
        ASIC_NAME::CHIP_TONGA => "Tonga"@,
        ASIC_NAME::CHIP_ICELAND => "Iceland"@,
        ASIC_NAME::CHIP_CARRIZO => "Carrizo"@,
        ASIC_NAME::CHIP_FIJI => "Fiji"@,
        ASIC_NAME::CHIP_STONEY => "Stoney"@,
        ASIC_NAME::CHIP_POLARIS10 => "Polaris10"@,
        ASIC_NAME::CHIP_POLARIS11 => "Polaris11"@,
        ASIC_NAME::CHIP_POLARIS12 => "Polaris12"@,
        ASIC_NAME::CHIP_VEGAM => "VegaM"@,
        ASIC_NAME::CHIP_VEGA10 => "Vega10"@,
        ASIC_NAME::CHIP_VEGA12 => "Vega12"@,
        ASIC_NAME::CHIP_VEGA20 => "Vega20"@,
        ASIC_NAME::CHIP_RAVEN => "Raven"@,
        ASIC_NAME::CHIP_RAVEN2 => "Raven2"@,
        ASIC_NAME::CHIP_RENOIR => "Renoir"@,
        ASIC_NAME::CHIP_ARCTURUS => "Arcturus/MI100"@,
        ASIC_NAME::CHIP_ALDEBARAN => "Aldebaran/MI200"@,
        ASIC_NAME::CHIP_GFX940 => "GFX940/MI300"@,
        ASIC_NAME::CHIP_NAVI10 => "Navi10"@,
        ASIC_NAME::CHIP_NAVI12 => "Navi12"@,
        ASIC_NAME::CHIP_NAVI14 => "Navi14"@,
        ASIC_NAME::CHIP_GFX1013 => "GFX1013/Cyan Skillfish"@,
        ASIC_NAME::CHIP_NAVI21 => "Sienna Cichlid/Navi21"@,
        ASIC_NAME::CHIP_NAVI22 => "Navy Flounder/Navi22"@,
        ASIC_NAME::CHIP_VANGOGH => "VanGogh"@,
        ASIC_NAME::CHIP_NAVI23 => "Dimgrey Cavefish/Navi23"@,
        ASIC_NAME::CHIP_NAVI24 => "Beige Goby/Navi24"@,
        ASIC_NAME::CHIP_REMBRANDT => "Yellow Carp/Rembrandt"@,
        ASIC_NAME::CHIP_GFX1036 => "GFX1036/Raphael/Mendocino/Granite Ridge"@,
        ASIC_NAME::CHIP_GFX1100 => "GFX1100/Navi31"@,
        ASIC_NAME::CHIP_GFX1101 => "GFX1101/Navi32"@,
        ASIC_NAME::CHIP_GFX1102 => "GFX1102/Navi33"@,
        ASIC_NAME::CHIP_GFX1103_R1 => "GFX1103_R1/Phoenix1"@,
        ASIC_NAME::CHIP_GFX1103_R2 => "GFX1103_R2/Phoenix2"@,
        ASIC_NAME::CHIP_GFX1103_R1X => "GFX1103_R1X/Hawk Point1"@,
        ASIC_NAME::CHIP_GFX1103_R2X => "GFX1103_R2X/Hawk Point2"@,
        ASIC_NAME::CHIP_GFX1150 => "GFX1150/Strix Point"@,
        ASIC_NAME::CHIP_GFX1151 => "GFX1151/Strix Halo"@,
        ASIC_NAME::CHIP_GFX1152 => "GFX1152"@,
        ASIC_NAME::CHIP_GFX1153 => "GFX1153"@,
        ASIC_NAME::CHIP_GFX1200 => "GFX1200"@,
        ASIC_NAME::CHIP_GFX1201 => "GFX1201"@,
    }
}

impl ASIC_NAME {
    /// Processor name for LLVM, downgraded to `gfx1030` where the LLVM of
    /// major version `llvm_major_ver` does not know the chip's own target.
    pub fn get_llvm_processor_name(&self, llvm_major_ver: usize) -> (r: &'static str)
        ensures
            r@ == spec_llvm_processor_name(*self, llvm_major_ver),
    {
        match self {
            Self::CHIP_TAHITI => "tahiti",
            Self::CHIP_PITCAIRN => "pitcairn",
            Self::CHIP_VERDE => "verde",
            Self::CHIP_OLAND => "oland",
            Self::CHIP_HAINAN => "hainan",
            Self::CHIP_BONAIRE => "bonaire",
            Self::CHIP_LIVERPOOL => "liverpool",
            Self::CHIP_GLADIUS => "gladius",
            Self::CHIP_KABINI => "kabini",
            Self::CHIP_KAVERI => "kaveri",
            Self::CHIP_HAWAII => "hawaii",
            Self::CHIP_TONGA => "tonga",
            Self::CHIP_ICELAND => "iceland",
            Self::CHIP_CARRIZO => "carrizo",
            Self::CHIP_FIJI => "fiji",
            Self::CHIP_STONEY => "stoney",
            Self::CHIP_POLARIS10 => "polaris10",
            Self::CHIP_POLARIS11 | Self::CHIP_POLARIS12 | Self::CHIP_VEGAM => "polaris11",
            Self::CHIP_VEGA10 => "gfx900",
            Self::CHIP_RAVEN => "gfx902",
            Self::CHIP_VEGA12 => "gfx904",
            Self::CHIP_VEGA20 => "gfx906",
            Self::CHIP_RAVEN2 | Self::CHIP_RENOIR => "gfx909",
            Self::CHIP_ARCTURUS => "gfx908",
            Self::CHIP_ALDEBARAN => "gfx90a",
            Self::CHIP_NAVI10 => "gfx1010",
            Self::CHIP_NAVI12 => "gfx1011",
            Self::CHIP_NAVI14 => "gfx1012",
            Self::CHIP_GFX1013 => "gfx1013",
            Self::CHIP_NAVI21 => "gfx1030",
            Self::CHIP_NAVI22 => if llvm_major_ver >= 12 {
                "gfx1031"
            } else {
                "gfx1030"
            },
            Self::CHIP_NAVI23 => if llvm_major_ver >= 12 {
                "gfx1032"
            } else {
                "gfx1030"
            },
            Self::CHIP_VANGOGH => if llvm_major_ver >= 12 {
                "gfx1033"
            } else {
                "gfx1030"
            },
            Self::CHIP_NAVI24 => if llvm_major_ver >= 13 {
                "gfx1034"
            } else {
                "gfx1030"
            },
            Self::CHIP_REMBRANDT => if llvm_major_ver >= 13 {
                "gfx1035"
            } else {
                "gfx1030"
            },
            Self::CHIP_GFX1036 => "gfx1030",
            Self::CHIP_GFX1100 => "gfx1100",
            Self::CHIP_GFX1101 => "gfx1101",
            Self::CHIP_GFX1102 => "gfx1102",
            Self::CHIP_GFX1103_R1 | Self::CHIP_GFX1103_R2 => "gfx1103",
            _ => "",
        }
    }

    /// Target name (GPU id, GFX id) for LLVM.
    pub fn get_gfx_target_name(&self) -> (r: &'static str)
        ensures
            r@ == spec_gfx_target_name(*self),
    {
        match self {
            Self::CHIP_TAHITI => "gfx600",
            Self::CHIP_PITCAIRN | Self::CHIP_VERDE => "gfx601",
            Self::CHIP_OLAND | Self::CHIP_HAINAN => "gfx602",
            Self::CHIP_BONAIRE => "gfx704",
            Self::CHIP_LIVERPOOL => "gfx704",
            Self::CHIP_GLADIUS => "gfx704",
            Self::CHIP_KABINI => "gfx703",
            Self::CHIP_KAVERI => "gfx700",
            Self::CHIP_HAWAII => "gfx701",
            Self::CHIP_TONGA | Self::CHIP_ICELAND => "gfx802",
            Self::CHIP_CARRIZO => "gfx801",
            Self::CHIP_FIJI => "gfx803",
            Self::CHIP_STONEY => "gfx810",
            Self::CHIP_POLARIS10 | Self::CHIP_POLARIS11 | Self::CHIP_POLARIS12 | Self::CHIP_VEGAM => "gfx803",
            Self::CHIP_VEGA10 => "gfx900",
            Self::CHIP_RAVEN => "gfx902",
            Self::CHIP_VEGA12 => "gfx904",
            Self::CHIP_VEGA20 => "gfx906",
            Self::CHIP_RAVEN2 | Self::CHIP_RENOIR => "gfx909",
            Self::CHIP_ARCTURUS => "gfx908",
            Self::CHIP_ALDEBARAN => "gfx90a",
            Self::CHIP_NAVI10 => "gfx1010",
            Self::CHIP_NAVI12 => "gfx1011",
            Self::CHIP_NAVI14 => "gfx1012",
            Self::CHIP_GFX1013 => "gfx1013",
            Self::CHIP_NAVI21 => "gfx1030",
            Self::CHIP_NAVI22 => "gfx1031",
            Self::CHIP_NAVI23 => "gfx1032",
            Self::CHIP_VANGOGH => "gfx1033",
            Self::CHIP_NAVI24 => "gfx1034",
            Self::CHIP_REMBRANDT => "gfx1035",
            Self::CHIP_GFX1036 => "gfx1030",
            Self::CHIP_GFX1100 => "gfx1100",
            Self::CHIP_GFX1101 => "gfx1101",
            Self::CHIP_GFX1102 => "gfx1102",
            Self::CHIP_GFX1103_R1 | Self::CHIP_GFX1103_R2 => "gfx1103",
            _ => "",
        }
    }

    /// The human-readable name of the chip: a codename, a marketing name, or both.
    pub fn display_name(&self) -> (r: &'static str)
        ensures
            r@ == spec_display_name(*self),
            r@.len() > 0,
    {
        proof {
            lemma_display_name_not_empty(*self);
        }
        match self {
            Self::CHIP_UNKNOWN => "Unknown",
            Self::CHIP_R300 => "R300",
            Self::CHIP_R350 => "R350",
            Self::CHIP_RV350 => "RV350",
            Self::CHIP_RV370 => "RV370",
            Self::CHIP_RV380 => "RV380",
            Self::CHIP_RS400 => "RS400",
            Self::CHIP_RC410 => "RC410",
            Self::CHIP_RS480 => "RS480",
            Self::CHIP_R420 => "R420",
            Self::CHIP_R423 => "R423",
            Self::CHIP_R430 => "R430",
            Self::CHIP_R480 => "R480",
            Self::CHIP_R481 => "R481",
            Self::CHIP_RV410 => "RV410",
            Self::CHIP_RS600 => "RS600",
            Self::CHIP_RS690 => "RS690",
            Self::CHIP_RS740 => "RS740",
            Self::CHIP_RV515 => "RV515",
            Self::CHIP_R520 => "R520",
            Self::CHIP_RV530 => "RV530",
            Self::CHIP_R580 => "R580",
            Self::CHIP_RV560 => "RV560",
            Self::CHIP_RV570 => "RV570",
            Self::CHIP_R600 => "R600",
            Self::CHIP_RV610 => "RV610",
            Self::CHIP_RV630 => "RV630",
            Self::CHIP_RV670 => "RV670",
            Self::CHIP_RV620 => "RV620",
            Self::CHIP_RV635 => "RV635",
            Self::CHIP_RS780 => "RS780",
            Self::CHIP_RS880 => "RS880",
            Self::CHIP_RV770 => "RV770",
            Self::CHIP_RV730 => "RV730",
            Self::CHIP_RV710 => "RV710",
            Self::CHIP_RV740 => "RV740",
            Self::CHIP_CEDAR => "Cedar",
            Self::CHIP_REDWOOD => "Redwood",
            Self::CHIP_JUNIPER => "Jupiter",
            Self::CHIP_CYPRESS => "Cypress",
            Self::CHIP_HEMLOCK => "Hemlock",
            Self::CHIP_PALM => "Palm",
            Self::CHIP_SUMO => "Sumo",
            Self::CHIP_SUMO2 => "Sumo2",
            Self::CHIP_BARTS => "Barts",
            Self::CHIP_TURKS => "Turks",
            Self::CHIP_CAICOS => "Caicos",
            Self::CHIP_CAYMAN => "Cayman",
            Self::CHIP_ARUBA => "Aruba",
            Self::CHIP_TAHITI => "Tahiti",
            Self::CHIP_PITCAIRN => "Pitcairn",
            Self::CHIP_VERDE => "Verde",
            Self::CHIP_OLAND => "Oland",
            Self::CHIP_HAINAN => "Hainan",
            Self::CHIP_BONAIRE => "Bonaire",
            Self::CHIP_LIVERPOOL => "Liverpool",
            Self::CHIP_GLADIUS => "Gladius",
            Self::CHIP_KAVERI => "Kaveri",
            Self::CHIP_KABINI => "Kabini",
            Self::CHIP_HAWAII => "Hawaii",
            Self::CHIP_TONGA => "Tonga",
            Self::CHIP_ICELAND => "Iceland",
            Self::CHIP_CARRIZO => "Carrizo",
            Self::CHIP_FIJI => "Fiji",
            Self::CHIP_STONEY => "Stoney",
            Self::CHIP_POLARIS10 => "Polaris10",
            Self::CHIP_POLARIS11 => "Polaris11",
            Self::CHIP_POLARIS12 => "Polaris12",
            Self::CHIP_VEGAM => "VegaM",
            Self::CHIP_VEGA10 => "Vega10",
            Self::CHIP_VEGA12 => "Vega12",
            Self::CHIP_VEGA20 => "Vega20",
            Self::CHIP_RAVEN => "Raven",
            Self::CHIP_RAVEN2 => "Raven2",
            Self::CHIP_RENOIR => "Renoir",
            Self::CHIP_ARCTURUS => "Arcturus/MI100",
            Self::CHIP_ALDEBARAN => "Aldebaran/MI200",
            Self::CHIP_GFX940 => "GFX940/MI300",
            Self::CHIP_NAVI10 => "Navi10",
            Self::CHIP_NAVI12 => "Navi12",
            Self::CHIP_NAVI14 => "Navi14",
            Self::CHIP_GFX1013 => "GFX1013/Cyan Skillfish",
            Self::CHIP_NAVI21 => "Sienna Cichlid/Navi21",
            Self::CHIP_NAVI22 => "Navy Flounder/Navi22",
            Self::CHIP_VANGOGH => "VanGogh",
            Self::CHIP_NAVI23 => "Dimgrey Cavefish/Navi23",
            Self::CHIP_NAVI24 => "Beige Goby/Navi24",
            Self::CHIP_REMBRANDT => "Yellow Carp/Rembrandt",
            Self::CHIP_GFX1036 => "GFX1036/Raphael/Mendocino/Granite Ridge",
            Self::CHIP_GFX1100 => "GFX1100/Navi31",
            Self::CHIP_GFX1101 => "GFX1101/Navi32",
            Self::CHIP_GFX1102 => "GFX1102/Navi33",
            Self::CHIP_GFX1103_R1 => "GFX1103_R1/Phoenix1",
            Self::CHIP_GFX1103_R2 => "GFX1103_R2/Phoenix2",
            Self::CHIP_GFX1103_R1X => "GFX1103_R1X/Hawk Point1",
            Self::CHIP_GFX1103_R2X => "GFX1103_R2X/Hawk Point2",
            Self::CHIP_GFX1150 => "GFX1150/Strix Point",
            Self::CHIP_GFX1151 => "GFX1151/Strix Halo",
            Self::CHIP_GFX1152 => "GFX1152",
            Self::CHIP_GFX1153 => "GFX1153",
            Self::CHIP_GFX1200 => "GFX1200",
            Self::CHIP_GFX1201 => "GFX1201",
        }
    }
}

/// Every chip variant has a display name, and none of them is empty.
pub proof fn lemma_display_name_not_empty(v: ASIC_NAME)
    ensures
        spec_display_name(v).len() > 0,
{
        reveal_strlit("Unknown");
        reveal_strlit("R300");
        reveal_strlit("R350");
        reveal_strlit("RV350");
        reveal_strlit("RV370");
        reveal_strlit("RV380");
        reveal_strlit("RS400");
        reveal_strlit("RC410");
        reveal_strlit("RS480");
        reveal_strlit("R420");
        reveal_strlit("R423");
        reveal_strlit("R430");
        reveal_strlit("R480");
        reveal_strlit("R481");
        reveal_strlit("RV410");
        reveal_strlit("RS600");
        reveal_strlit("RS690");
        reveal_strlit("RS740");
        reveal_strlit("RV515");
        reveal_strlit("R520");
        reveal_strlit("RV530");
        reveal_strlit("R580");
        reveal_strlit("RV560");
        reveal_strlit("RV570");
        reveal_strlit("R600");
        reveal_strlit("RV610");
        reveal_strlit("RV630");
        reveal_strlit("RV670");
        reveal_strlit("RV620");
        reveal_strlit("RV635");
        reveal_strlit("RS780");
        reveal_strlit("RS880");
        reveal_strlit("RV770");
        reveal_strlit("RV730");
        reveal_strlit("RV710");
        reveal_strlit("RV740");
        reveal_strlit("Cedar");
        reveal_strlit("Redwood");
        reveal_strlit("Jupiter");
        reveal_strlit("Cypress");
        reveal_strlit("Hemlock");
        reveal_strlit("Palm");
        reveal_strlit("Sumo");
        reveal_strlit("Sumo2");
        reveal_strlit("Barts");
        reveal_strlit("Turks");
        reveal_strlit("Caicos");
        reveal_strlit("Cayman");
        reveal_strlit("Aruba");
        reveal_strlit("Tahiti");
        reveal_strlit("Pitcairn");
        reveal_strlit("Verde");
        reveal_strlit("Oland");
        reveal_strlit("Hainan");
        reveal_strlit("Bonaire");
        reveal_strlit("Liverpool");
        reveal_strlit("Gladius");
        reveal_strlit("Kaveri");
        reveal_strlit("Kabini");
        reveal_strlit("Hawaii");
        reveal_strlit("Tonga");
        reveal_strlit("Iceland");
        reveal_strlit("Carrizo");
        reveal_strlit("Fiji");
        reveal_strlit("Stoney");
        reveal_strlit("Polaris10");
        reveal_strlit("Polaris11");
        reveal_strlit("Polaris12");
        reveal_strlit("VegaM");
        reveal_strlit("Vega10");
        reveal_strlit("Vega12");
        reveal_strlit("Vega20");
        reveal_strlit("Raven");
        reveal_strlit("Raven2");
        reveal_strlit("Renoir");
        reveal_strlit("Arcturus/MI100");
        reveal_strlit("Aldebaran/MI200");
        reveal_strlit("GFX940/MI300");
        reveal_strlit("Navi10");
        reveal_strlit("Navi12");
        reveal_strlit("Navi14");
        reveal_strlit("GFX1013/Cyan Skillfish");
        reveal_strlit("Sienna Cichlid/Navi21");
        reveal_strlit("Navy Flounder/Navi22");
        reveal_strlit("VanGogh");
        reveal_strlit("Dimgrey Cavefish/Navi23");
        reveal_strlit("Beige Goby/Navi24");
        reveal_strlit("Yellow Carp/Rembrandt");
        reveal_strlit("GFX1036/Raphael/Mendocino/Granite Ridge");
        reveal_strlit("GFX1100/Navi31");
        reveal_strlit("GFX1101/Navi32");
        reveal_strlit("GFX1102/Navi33");
        reveal_strlit("GFX1103_R1/Phoenix1");
        reveal_strlit("GFX1103_R2/Phoenix2");
        reveal_strlit("GFX1103_R1X/Hawk Point1");
        reveal_strlit("GFX1103_R2X/Hawk Point2");
        reveal_strlit("GFX1150/Strix Point");
        reveal_strlit("GFX1151/Strix Halo");
        reveal_strlit("GFX1152");
        reveal_strlit("GFX1153");
        reveal_strlit("GFX1200");
        reveal_strlit("GFX1201");
}

} // verus!
