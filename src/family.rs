//! Classification of a chip from the family and the external revision that
//! the driver reports.

use vstd::prelude::*;

use crate::asic::ASIC_NAME;

verus! {

/// A silicon family, as the driver reports it.
#[allow(non_camel_case_types)]
#[derive(Debug, Clone, Copy, PartialEq, Eq, Structural)]
pub enum FAMILY_NAME {
    UNKNOWN,
    /// Southern Islands: Tahiti, Pitcairn, Verde, Oland, Hainan
    SI,
    /// Sea Islands: Bonaire, Hawaii
    CI,
    /// Kaveri, Kabini, and the console SoCs
    KV,
    /// Volcanic Islands: Iceland, Tonga, Fiji, Polaris, VegaM
    VI,
    /// Carrizo, Stoney
    CZ,
    /// Arctic Islands: Vega, Arcturus, Aldebaran, GFX940
    AI,
    /// Raven, Raven2, Renoir
    RV,
    /// Navi
    NV,
    /// Van Gogh
    VGH,
    /// Navi31, Navi32, Navi33
    GC_11_0_0,
    /// Yellow Carp (Rembrandt)
    YC,
    /// Phoenix, Hawk Point
    GC_11_0_1,
    /// Raphael, Granite Ridge
    GC_10_3_6,
    /// Mendocino
    GC_10_3_7,
    /// Strix
    GC_11_5_0,
    /// RDNA 4
    GC_12_0_0,
}

impl FAMILY_NAME {
    /// The family that a numeric family id of the driver names.
    pub open spec fn spec_from_id(id: u32) -> FAMILY_NAME {
        match id {
            110 => FAMILY_NAME::SI,
            120 => FAMILY_NAME::CI,
            125 => FAMILY_NAME::KV,
            130 => FAMILY_NAME::VI,
            135 => FAMILY_NAME::CZ,
            141 => FAMILY_NAME::AI,
            142 => FAMILY_NAME::RV,
            143 => FAMILY_NAME::NV,
            144 => FAMILY_NAME::VGH,
            145 => FAMILY_NAME::GC_11_0_0,
            146 => FAMILY_NAME::YC,
            148 => FAMILY_NAME::GC_11_0_1,
            149 => FAMILY_NAME::GC_10_3_6,
            150 => FAMILY_NAME::GC_11_5_0,
            151 => FAMILY_NAME::GC_10_3_7,
            152 => FAMILY_NAME::GC_12_0_0,
            _ => FAMILY_NAME::UNKNOWN,
        }
    }

    /// The family that a numeric family id of the driver names; `UNKNOWN`
    /// for an id that names none.
    pub fn from_id(id: u32) -> (r: FAMILY_NAME)
        ensures
            r == Self::spec_from_id(id),
    {
        match id {
            110 => FAMILY_NAME::SI,
            120 => FAMILY_NAME::CI,
            125 => FAMILY_NAME::KV,
            130 => FAMILY_NAME::VI,
            135 => FAMILY_NAME::CZ,
            141 => FAMILY_NAME::AI,
            142 => FAMILY_NAME::RV,
            143 => FAMILY_NAME::NV,
            144 => FAMILY_NAME::VGH,
            145 => FAMILY_NAME::GC_11_0_0,
            146 => FAMILY_NAME::YC,
            148 => FAMILY_NAME::GC_11_0_1,
            149 => FAMILY_NAME::GC_10_3_6,
            150 => FAMILY_NAME::GC_11_5_0,
            151 => FAMILY_NAME::GC_10_3_7,
            152 => FAMILY_NAME::GC_12_0_0,
            _ => FAMILY_NAME::UNKNOWN,
        }
    }
}

/// External revisions from `lo` up to, but not including, `hi`, that name one
/// variant.
#[derive(Debug, Clone, Copy, PartialEq, Eq, Structural)]
pub struct RevisionRange {
    pub lo: u32,
    pub hi: u32,
    pub variant: ASIC_NAME,
}

impl RevisionRange {
    pub open spec fn contains(self, rev: u32) -> bool {
        self.lo <= rev && rev < self.hi
    }
}

/// The variant of the first range, in declaration order, that holds `rev`;
/// `CHIP_UNKNOWN` where none does. Overlapping ranges are allowed: the one
/// declared first wins.
pub open spec fn first_match(table: Seq<RevisionRange>, rev: u32) -> ASIC_NAME
    decreases table.len(),
{
    if table.len() == 0 {
        ASIC_NAME::CHIP_UNKNOWN
    } else if table[0].contains(rev) {
        table[0].variant
    } else {
        first_match(table.drop_first(), rev)
    }
}

/// The variant of a family whose revision does not matter, if it is one.
pub open spec fn fixed_variant(family: FAMILY_NAME) -> Option<ASIC_NAME> {
    match family {
        FAMILY_NAME::VGH => Some(ASIC_NAME::CHIP_VANGOGH),
        FAMILY_NAME::YC => Some(ASIC_NAME::CHIP_REMBRANDT),
        FAMILY_NAME::GC_10_3_6 | FAMILY_NAME::GC_10_3_7 => Some(ASIC_NAME::CHIP_GFX1036),
        _ => None,
    }
}

/// The revision ranges of a family, in the order in which they are tried.
/// The console SoC ranges of `KV` are declared twice; the first entry decides.
pub open spec fn spec_revision_ranges(family: FAMILY_NAME) -> Seq<RevisionRange> {
    match family {
        FAMILY_NAME::SI => seq![
            RevisionRange { lo: 0x05, hi: 0x14, variant: ASIC_NAME::CHIP_TAHITI },
            RevisionRange { lo: 0x15, hi: 0x28, variant: ASIC_NAME::CHIP_PITCAIRN },
            RevisionRange { lo: 0x29, hi: 0x3C, variant: ASIC_NAME::CHIP_VERDE },
            RevisionRange { lo: 0x3C, hi: 0x46, variant: ASIC_NAME::CHIP_OLAND },
            RevisionRange { lo: 0x46, hi: 0xFF, variant: ASIC_NAME::CHIP_HAINAN },
        ],
        FAMILY_NAME::CI => seq![
            RevisionRange { lo: 0x14, hi: 0x28, variant: ASIC_NAME::CHIP_BONAIRE },
            RevisionRange { lo: 0x28, hi: 0x3C, variant: ASIC_NAME::CHIP_HAWAII },
        ],
        FAMILY_NAME::KV => seq![
            RevisionRange { lo: 0x01, hi: 0x41, variant: ASIC_NAME::CHIP_KAVERI },
            RevisionRange { lo: 0x41, hi: 0x61, variant: ASIC_NAME::CHIP_KAVERI },
            RevisionRange { lo: 0x61, hi: 0x71, variant: ASIC_NAME::CHIP_LIVERPOOL },
            RevisionRange { lo: 0x61, hi: 0x71, variant: ASIC_NAME::CHIP_LIVERPOOL },
            RevisionRange { lo: 0x71, hi: 0x81, variant: ASIC_NAME::CHIP_GLADIUS },
            RevisionRange { lo: 0x71, hi: 0x81, variant: ASIC_NAME::CHIP_GLADIUS },
            RevisionRange { lo: 0x81, hi: 0xA1, variant: ASIC_NAME::CHIP_KABINI },
            RevisionRange { lo: 0xA1, hi: 0xFF, variant: ASIC_NAME::CHIP_KABINI },
        ],
        FAMILY_NAME::VI => seq![
            RevisionRange { lo: 0x01, hi: 0x14, variant: ASIC_NAME::CHIP_ICELAND },
            RevisionRange { lo: 0x14, hi: 0x28, variant: ASIC_NAME::CHIP_TONGA },
            RevisionRange { lo: 0x3C, hi: 0x50, variant: ASIC_NAME::CHIP_FIJI },
            RevisionRange { lo: 0x50, hi: 0x5A, variant: ASIC_NAME::CHIP_POLARIS10 },
            RevisionRange { lo: 0x5A, hi: 0x64, variant: ASIC_NAME::CHIP_POLARIS11 },
            RevisionRange { lo: 0x64, hi: 0x6E, variant: ASIC_NAME::CHIP_POLARIS12 },
            RevisionRange { lo: 0x6E, hi: 0xFF, variant: ASIC_NAME::CHIP_VEGAM },
        ],
        FAMILY_NAME::AI => seq![
            RevisionRange { lo: 0x01, hi: 0x14, variant: ASIC_NAME::CHIP_VEGA10 },
            RevisionRange { lo: 0x14, hi: 0x28, variant: ASIC_NAME::CHIP_VEGA12 },
            RevisionRange { lo: 0x28, hi: 0x32, variant: ASIC_NAME::CHIP_VEGA20 },
            RevisionRange { lo: 0x32, hi: 0x3C, variant: ASIC_NAME::CHIP_ARCTURUS },
            RevisionRange { lo: 0x3C, hi: 0x46, variant: ASIC_NAME::CHIP_ALDEBARAN },
            RevisionRange { lo: 0x46, hi: 0xFF, variant: ASIC_NAME::CHIP_GFX940 },
        ],
        FAMILY_NAME::RV => seq![
            RevisionRange { lo: 0x01, hi: 0x81, variant: ASIC_NAME::CHIP_RAVEN },
            RevisionRange { lo: 0x81, hi: 0x90, variant: ASIC_NAME::CHIP_RAVEN2 },
            RevisionRange { lo: 0x91, hi: 0xFF, variant: ASIC_NAME::CHIP_RENOIR },
        ],
        FAMILY_NAME::NV => seq![
            RevisionRange { lo: 0x01, hi: 0x0A, variant: ASIC_NAME::CHIP_NAVI10 },
            RevisionRange { lo: 0x0A, hi: 0x14, variant: ASIC_NAME::CHIP_NAVI12 },
            RevisionRange { lo: 0x14, hi: 0x28, variant: ASIC_NAME::CHIP_NAVI14 },
            RevisionRange { lo: 0x28, hi: 0x32, variant: ASIC_NAME::CHIP_NAVI21 },
            RevisionRange { lo: 0x32, hi: 0x3C, variant: ASIC_NAME::CHIP_NAVI22 },
            RevisionRange { lo: 0x3C, hi: 0x46, variant: ASIC_NAME::CHIP_NAVI23 },
            RevisionRange { lo: 0x46, hi: 0x50, variant: ASIC_NAME::CHIP_NAVI24 },
            RevisionRange { lo: 0x84, hi: 0x85, variant: ASIC_NAME::CHIP_GFX1013 },
        ],
        FAMILY_NAME::GC_11_0_0 => seq![
            RevisionRange { lo: 0x01, hi: 0x10, variant: ASIC_NAME::CHIP_GFX1100 },
            RevisionRange { lo: 0x10, hi: 0x20, variant: ASIC_NAME::CHIP_GFX1102 },
            RevisionRange { lo: 0x20, hi: 0xFF, variant: ASIC_NAME::CHIP_GFX1101 },
        ],
        FAMILY_NAME::GC_11_0_1 => seq![
            RevisionRange { lo: 0x01, hi: 0x80, variant: ASIC_NAME::CHIP_GFX1103_R1 },
            RevisionRange { lo: 0x80, hi: 0xC0, variant: ASIC_NAME::CHIP_GFX1103_R2 },
            RevisionRange { lo: 0xC0, hi: 0xF0, variant: ASIC_NAME::CHIP_GFX1103_R1X },
            RevisionRange { lo: 0xF0, hi: 0xFF, variant: ASIC_NAME::CHIP_GFX1103_R2X },
        ],
        FAMILY_NAME::GC_11_5_0 => seq![
            RevisionRange { lo: 0x01, hi: 0x40, variant: ASIC_NAME::CHIP_GFX1150 },
            RevisionRange { lo: 0x40, hi: 0x50, variant: ASIC_NAME::CHIP_GFX1152 },
            RevisionRange { lo: 0x50, hi: 0x80, variant: ASIC_NAME::CHIP_GFX1153 },
            RevisionRange { lo: 0xC0, hi: 0xFF, variant: ASIC_NAME::CHIP_GFX1151 },
        ],
        FAMILY_NAME::GC_12_0_0 => seq![
            RevisionRange { lo: 0x40, hi: 0x50, variant: ASIC_NAME::CHIP_GFX1200 },
            RevisionRange { lo: 0x50, hi: 0xFF, variant: ASIC_NAME::CHIP_GFX1201 },
        ],
        _ => seq![],
    }
}

/// The chip variant of a family and an external revision.
pub open spec fn classify(family: FAMILY_NAME, rev: u32) -> ASIC_NAME {
    match fixed_variant(family) {
        Some(v) => v,
        None => first_match(spec_revision_ranges(family), rev),
    }
}

/// The revision ranges of a family, in the order in which they are tried.
pub fn revision_ranges(family: FAMILY_NAME) -> (r: Vec<RevisionRange>)
    ensures
        r@ == spec_revision_ranges(family),
{
    let r = match family {
        FAMILY_NAME::SI => vec![
            RevisionRange { lo: 0x05, hi: 0x14, variant: ASIC_NAME::CHIP_TAHITI },
            RevisionRange { lo: 0x15, hi: 0x28, variant: ASIC_NAME::CHIP_PITCAIRN },
            RevisionRange { lo: 0x29, hi: 0x3C, variant: ASIC_NAME::CHIP_VERDE },
            RevisionRange { lo: 0x3C, hi: 0x46, variant: ASIC_NAME::CHIP_OLAND },
            RevisionRange { lo: 0x46, hi: 0xFF, variant: ASIC_NAME::CHIP_HAINAN },
        ],
        FAMILY_NAME::CI => vec![
            RevisionRange { lo: 0x14, hi: 0x28, variant: ASIC_NAME::CHIP_BONAIRE },
            RevisionRange { lo: 0x28, hi: 0x3C, variant: ASIC_NAME::CHIP_HAWAII },
        ],
        FAMILY_NAME::KV => vec![
            RevisionRange { lo: 0x01, hi: 0x41, variant: ASIC_NAME::CHIP_KAVERI },
            RevisionRange { lo: 0x41, hi: 0x61, variant: ASIC_NAME::CHIP_KAVERI },
            RevisionRange { lo: 0x61, hi: 0x71, variant: ASIC_NAME::CHIP_LIVERPOOL },
            RevisionRange { lo: 0x61, hi: 0x71, variant: ASIC_NAME::CHIP_LIVERPOOL },
            RevisionRange { lo: 0x71, hi: 0x81, variant: ASIC_NAME::CHIP_GLADIUS },
            RevisionRange { lo: 0x71, hi: 0x81, variant: ASIC_NAME::CHIP_GLADIUS },
            RevisionRange { lo: 0x81, hi: 0xA1, variant: ASIC_NAME::CHIP_KABINI },
            RevisionRange { lo: 0xA1, hi: 0xFF, variant: ASIC_NAME::CHIP_KABINI },
        ],
        FAMILY_NAME::VI => vec![
            RevisionRange { lo: 0x01, hi: 0x14, variant: ASIC_NAME::CHIP_ICELAND },
            RevisionRange { lo: 0x14, hi: 0x28, variant: ASIC_NAME::CHIP_TONGA },
            RevisionRange { lo: 0x3C, hi: 0x50, variant: ASIC_NAME::CHIP_FIJI },
            RevisionRange { lo: 0x50, hi: 0x5A, variant: ASIC_NAME::CHIP_POLARIS10 },
            RevisionRange { lo: 0x5A, hi: 0x64, variant: ASIC_NAME::CHIP_POLARIS11 },
            RevisionRange { lo: 0x64, hi: 0x6E, variant: ASIC_NAME::CHIP_POLARIS12 },
            RevisionRange { lo: 0x6E, hi: 0xFF, variant: ASIC_NAME::CHIP_VEGAM },
        ],
        FAMILY_NAME::AI => vec![
            RevisionRange { lo: 0x01, hi: 0x14, variant: ASIC_NAME::CHIP_VEGA10 },
            RevisionRange { lo: 0x14, hi: 0x28, variant: ASIC_NAME::CHIP_VEGA12 },
            RevisionRange { lo: 0x28, hi: 0x32, variant: ASIC_NAME::CHIP_VEGA20 },
            RevisionRange { lo: 0x32, hi: 0x3C, variant: ASIC_NAME::CHIP_ARCTURUS },
            RevisionRange { lo: 0x3C, hi: 0x46, variant: ASIC_NAME::CHIP_ALDEBARAN },
            RevisionRange { lo: 0x46, hi: 0xFF, variant: ASIC_NAME::CHIP_GFX940 },
        ],
        FAMILY_NAME::RV => vec![
            RevisionRange { lo: 0x01, hi: 0x81, variant: ASIC_NAME::CHIP_RAVEN },
            RevisionRange { lo: 0x81, hi: 0x90, variant: ASIC_NAME::CHIP_RAVEN2 },
            RevisionRange { lo: 0x91, hi: 0xFF, variant: ASIC_NAME::CHIP_RENOIR },
        ],
        FAMILY_NAME::NV => vec![
            RevisionRange { lo: 0x01, hi: 0x0A, variant: ASIC_NAME::CHIP_NAVI10 },
            RevisionRange { lo: 0x0A, hi: 0x14, variant: ASIC_NAME::CHIP_NAVI12 },
            RevisionRange { lo: 0x14, hi: 0x28, variant: ASIC_NAME::CHIP_NAVI14 },
            RevisionRange { lo: 0x28, hi: 0x32, variant: ASIC_NAME::CHIP_NAVI21 },
            RevisionRange { lo: 0x32, hi: 0x3C, variant: ASIC_NAME::CHIP_NAVI22 },
            RevisionRange { lo: 0x3C, hi: 0x46, variant: ASIC_NAME::CHIP_NAVI23 },
            RevisionRange { lo: 0x46, hi: 0x50, variant: ASIC_NAME::CHIP_NAVI24 },
            RevisionRange { lo: 0x84, hi: 0x85, variant: ASIC_NAME::CHIP_GFX1013 },
        ],
        FAMILY_NAME::GC_11_0_0 => vec![
            RevisionRange { lo: 0x01, hi: 0x10, variant: ASIC_NAME::CHIP_GFX1100 },
            RevisionRange { lo: 0x10, hi: 0x20, variant: ASIC_NAME::CHIP_GFX1102 },
            RevisionRange { lo: 0x20, hi: 0xFF, variant: ASIC_NAME::CHIP_GFX1101 },
        ],
        FAMILY_NAME::GC_11_0_1 => vec![
            RevisionRange { lo: 0x01, hi: 0x80, variant: ASIC_NAME::CHIP_GFX1103_R1 },
            RevisionRange { lo: 0x80, hi: 0xC0, variant: ASIC_NAME::CHIP_GFX1103_R2 },
            RevisionRange { lo: 0xC0, hi: 0xF0, variant: ASIC_NAME::CHIP_GFX1103_R1X },
            RevisionRange { lo: 0xF0, hi: 0xFF, variant: ASIC_NAME::CHIP_GFX1103_R2X },
        ],
        FAMILY_NAME::GC_11_5_0 => vec![
            RevisionRange { lo: 0x01, hi: 0x40, variant: ASIC_NAME::CHIP_GFX1150 },
            RevisionRange { lo: 0x40, hi: 0x50, variant: ASIC_NAME::CHIP_GFX1152 },
            RevisionRange { lo: 0x50, hi: 0x80, variant: ASIC_NAME::CHIP_GFX1153 },
            RevisionRange { lo: 0xC0, hi: 0xFF, variant: ASIC_NAME::CHIP_GFX1151 },
        ],
        FAMILY_NAME::GC_12_0_0 => vec![
            RevisionRange { lo: 0x40, hi: 0x50, variant: ASIC_NAME::CHIP_GFX1200 },
            RevisionRange { lo: 0x50, hi: 0xFF, variant: ASIC_NAME::CHIP_GFX1201 },
        ],
        _ => vec![],
    };
    proof {
        assert(r@ =~= spec_revision_ranges(family));
    }
    r
}

/// The variant of the first range of `table` that holds `rev`.
pub fn find_first_match(table: &Vec<RevisionRange>, rev: u32) -> (r: ASIC_NAME)
    ensures
        r == first_match(table@, rev),
{
    let mut i: usize = 0;
    assert(table@.subrange(0, table@.len() as int) =~= table@);
    while i < table.len()
        invariant
            i <= table@.len(),
            first_match(table@, rev) == first_match(table@.subrange(i as int, table@.len() as int), rev),
        decreases table@.len() - i,
    {
        let range = table[i];
        if range.lo <= rev && rev < range.hi {
            return range.variant;
        }
        assert(table@.subrange(i as int, table@.len() as int).drop_first() =~= table@.subrange(
            i + 1,
            table@.len() as int,
        ));
        i = i + 1;
    }
    ASIC_NAME::CHIP_UNKNOWN
}

impl ASIC_NAME {
    /// The chip variant of a family and an external revision. Total: a pair
    /// that names no known chip gives `CHIP_UNKNOWN`.
    pub fn get(family: FAMILY_NAME, chip_external_rev: u32) -> (r: Self)
        ensures
            r == classify(family, chip_external_rev),
    {
        match family {
            FAMILY_NAME::VGH => Self::CHIP_VANGOGH,
            FAMILY_NAME::YC => Self::CHIP_REMBRANDT,
            FAMILY_NAME::GC_10_3_6 | FAMILY_NAME::GC_10_3_7 => Self::CHIP_GFX1036,
            _ => find_first_match(&revision_ranges(family), chip_external_rev),
        }
    }
}

/// First match wins: the result is the variant of the first range that holds
/// `rev`, and `CHIP_UNKNOWN` where no range holds it.
pub proof fn lemma_first_match_wins(table: Seq<RevisionRange>, rev: u32)
    ensures
        (exists|i: int|
            0 <= i < table.len() && #[trigger] table[i].contains(rev) && first_match(table, rev)
                == table[i].variant && forall|j: int| 0 <= j < i ==> !table[j].contains(rev))
            || (first_match(table, rev) == ASIC_NAME::CHIP_UNKNOWN && forall|i: int|
            0 <= i < table.len() ==> !#[trigger] table[i].contains(rev)),
    decreases table.len(),
{
    if table.len() > 0 {
        if table[0].contains(rev) {
            assert(table[0].contains(rev));
        } else {
            let rest = table.drop_first();
            lemma_first_match_wins(rest, rev);
            if exists|i: int|
                0 <= i < rest.len() && #[trigger] rest[i].contains(rev) && first_match(rest, rev)
                    == rest[i].variant && forall|j: int| 0 <= j < i ==> !rest[j].contains(rev) {
                let i = choose|i: int|
                    0 <= i < rest.len() && #[trigger] rest[i].contains(rev) && first_match(
                        rest,
                        rev,
                    ) == rest[i].variant && forall|j: int| 0 <= j < i ==> !rest[j].contains(rev);
                assert(table[i + 1] == rest[i]);
                assert forall|j: int| 0 <= j < i + 1 implies !table[j].contains(rev) by {
                    if j > 0 {
                        assert(table[j] == rest[j - 1]);
                    }
                }
                assert(table[i + 1].contains(rev));
            } else {
                assert forall|i: int| 0 <= i < table.len() implies !#[trigger] table[i].contains(
                    rev,
                ) by {
                    if i > 0 {
                        assert(table[i] == rest[i - 1]);
                    }
                }
            }
        }
    }
}

/// Classification is total and follows the family's rules: a family with a
/// fixed variant gives it whatever the revision; any other family gives the
/// variant of its first range that holds the revision, and `CHIP_UNKNOWN`
/// where none does.
pub proof fn lemma_classify_follows_rules(family: FAMILY_NAME, rev: u32)
    ensures
        fixed_variant(family) is Some ==> classify(family, rev) == fixed_variant(family)->0,
        fixed_variant(family) is None ==> ((exists|i: int|
            0 <= i < spec_revision_ranges(family).len() && #[trigger] spec_revision_ranges(
                family,
            )[i].contains(rev) && classify(family, rev) == spec_revision_ranges(family)[i].variant
                && forall|j: int|
                0 <= j < i ==> !spec_revision_ranges(family)[j].contains(rev)) || (classify(
            family,
            rev,
        ) == ASIC_NAME::CHIP_UNKNOWN && forall|i: int|
            0 <= i < spec_revision_ranges(family).len() ==> !#[trigger] spec_revision_ranges(
                family,
            )[i].contains(rev))),
{
    lemma_first_match_wins(spec_revision_ranges(family), rev);
}

} // verus!
