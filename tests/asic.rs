use amdgpu_asic::chip_class::CHIP_CLASS;
use amdgpu_asic::{
    amdgpu_sw_info, drm_amdgpu_heap_info, drm_amdgpu_memory_info, ASIC_NAME, FAMILY_NAME,
};

const ALL_VARIANTS: [ASIC_NAME; 102] = [
    ASIC_NAME::CHIP_UNKNOWN,
    ASIC_NAME::CHIP_R300,
    ASIC_NAME::CHIP_R350,
    ASIC_NAME::CHIP_RV350,
    ASIC_NAME::CHIP_RV370,
    ASIC_NAME::CHIP_RV380,
    ASIC_NAME::CHIP_RS400,
    ASIC_NAME::CHIP_RC410,
    ASIC_NAME::CHIP_RS480,
    ASIC_NAME::CHIP_R420,
    ASIC_NAME::CHIP_R423,
    ASIC_NAME::CHIP_R430,
    ASIC_NAME::CHIP_R480,
    ASIC_NAME::CHIP_R481,
    ASIC_NAME::CHIP_RV410,
    ASIC_NAME::CHIP_RS600,
    ASIC_NAME::CHIP_RS690,
    ASIC_NAME::CHIP_RS740,
    ASIC_NAME::CHIP_RV515,
    ASIC_NAME::CHIP_R520,
    ASIC_NAME::CHIP_RV530,
    ASIC_NAME::CHIP_R580,
    ASIC_NAME::CHIP_RV560,
    ASIC_NAME::CHIP_RV570,
    ASIC_NAME::CHIP_R600,
    ASIC_NAME::CHIP_RV610,
    ASIC_NAME::CHIP_RV630,
    ASIC_NAME::CHIP_RV670,
    ASIC_NAME::CHIP_RV620,
    ASIC_NAME::CHIP_RV635,
    ASIC_NAME::CHIP_RS780,
    ASIC_NAME::CHIP_RS880,
    ASIC_NAME::CHIP_RV770,
    ASIC_NAME::CHIP_RV730,
    ASIC_NAME::CHIP_RV710,
    ASIC_NAME::CHIP_RV740,
    ASIC_NAME::CHIP_CEDAR,
    ASIC_NAME::CHIP_REDWOOD,
    ASIC_NAME::CHIP_JUNIPER,
    ASIC_NAME::CHIP_CYPRESS,
    ASIC_NAME::CHIP_HEMLOCK,
    ASIC_NAME::CHIP_PALM,
    ASIC_NAME::CHIP_SUMO,
    ASIC_NAME::CHIP_SUMO2,
    ASIC_NAME::CHIP_BARTS,
    ASIC_NAME::CHIP_TURKS,
    ASIC_NAME::CHIP_CAICOS,
    ASIC_NAME::CHIP_CAYMAN,
    ASIC_NAME::CHIP_ARUBA,
    ASIC_NAME::CHIP_TAHITI,
    ASIC_NAME::CHIP_PITCAIRN,
    ASIC_NAME::CHIP_VERDE,
    ASIC_NAME::CHIP_OLAND,
    ASIC_NAME::CHIP_HAINAN,
    ASIC_NAME::CHIP_BONAIRE,
    ASIC_NAME::CHIP_LIVERPOOL,
    ASIC_NAME::CHIP_GLADIUS,
    ASIC_NAME::CHIP_KAVERI,
    ASIC_NAME::CHIP_KABINI,
    ASIC_NAME::CHIP_HAWAII,
    ASIC_NAME::CHIP_TONGA,
    ASIC_NAME::CHIP_ICELAND,
    ASIC_NAME::CHIP_CARRIZO,
    ASIC_NAME::CHIP_FIJI,
    ASIC_NAME::CHIP_STONEY,
    ASIC_NAME::CHIP_POLARIS10,
    ASIC_NAME::CHIP_POLARIS11,
    ASIC_NAME::CHIP_POLARIS12,
    ASIC_NAME::CHIP_VEGAM,
    ASIC_NAME::CHIP_VEGA10,
    ASIC_NAME::CHIP_VEGA12,
    ASIC_NAME::CHIP_VEGA20,
    ASIC_NAME::CHIP_RAVEN,
    ASIC_NAME::CHIP_RAVEN2,
    ASIC_NAME::CHIP_RENOIR,
    ASIC_NAME::CHIP_ARCTURUS,
    ASIC_NAME::CHIP_ALDEBARAN,
    ASIC_NAME::CHIP_GFX940,
    ASIC_NAME::CHIP_NAVI10,
    ASIC_NAME::CHIP_NAVI12,
    ASIC_NAME::CHIP_NAVI14,
    ASIC_NAME::CHIP_GFX1013,
    ASIC_NAME::CHIP_NAVI21,
    ASIC_NAME::CHIP_NAVI22,
    ASIC_NAME::CHIP_VANGOGH,
    ASIC_NAME::CHIP_NAVI23,
    ASIC_NAME::CHIP_NAVI24,
    ASIC_NAME::CHIP_REMBRANDT,
    ASIC_NAME::CHIP_GFX1036,
    ASIC_NAME::CHIP_GFX1100,
    ASIC_NAME::CHIP_GFX1101,
    ASIC_NAME::CHIP_GFX1102,
    ASIC_NAME::CHIP_GFX1103_R1,
    ASIC_NAME::CHIP_GFX1103_R2,
    ASIC_NAME::CHIP_GFX1103_R1X,
    ASIC_NAME::CHIP_GFX1103_R2X,
    ASIC_NAME::CHIP_GFX1150,
    ASIC_NAME::CHIP_GFX1151,
    ASIC_NAME::CHIP_GFX1152,
    ASIC_NAME::CHIP_GFX1153,
    ASIC_NAME::CHIP_GFX1200,
    ASIC_NAME::CHIP_GFX1201,
];

const ALL_FAMILIES: [FAMILY_NAME; 17] = [
    FAMILY_NAME::UNKNOWN,
    FAMILY_NAME::SI,
    FAMILY_NAME::CI,
    FAMILY_NAME::KV,
    FAMILY_NAME::VI,
    FAMILY_NAME::CZ,
    FAMILY_NAME::AI,
    FAMILY_NAME::RV,
    FAMILY_NAME::NV,
    FAMILY_NAME::VGH,
    FAMILY_NAME::GC_11_0_0,
    FAMILY_NAME::YC,
    FAMILY_NAME::GC_11_0_1,
    FAMILY_NAME::GC_10_3_6,
    FAMILY_NAME::GC_10_3_7,
    FAMILY_NAME::GC_11_5_0,
    FAMILY_NAME::GC_12_0_0,
];

fn class_rank(c: CHIP_CLASS) -> u8 {
    match c {
        CHIP_CLASS::CLASS_UNKNOWN => 0,
        CHIP_CLASS::R300 => 1,
        CHIP_CLASS::R400 => 2,
        CHIP_CLASS::R500 => 3,
        CHIP_CLASS::R600 => 4,
        CHIP_CLASS::R700 => 5,
        CHIP_CLASS::EVERGREEN => 6,
        CHIP_CLASS::CAYMAN => 7,
        CHIP_CLASS::GFX6 => 8,
        CHIP_CLASS::GFX7 => 9,
        CHIP_CLASS::GFX8 => 10,
        CHIP_CLASS::GFX9 => 11,
        CHIP_CLASS::GFX10 => 12,
        CHIP_CLASS::GFX10_3 => 13,
        CHIP_CLASS::GFX11 => 14,
        CHIP_CLASS::GFX11_5 => 15,
        CHIP_CLASS::GFX12 => 16,
    }
}

#[test]
fn test_asic_name_get() {
    assert_eq!(
        ASIC_NAME::get(FAMILY_NAME::VI, 0x5C),
        ASIC_NAME::CHIP_POLARIS11,
    );
}

#[test]
fn classify_southern_islands() {
    assert_eq!(ASIC_NAME::get(FAMILY_NAME::SI, 0x06), ASIC_NAME::CHIP_TAHITI);
    assert_eq!(ASIC_NAME::get(FAMILY_NAME::SI, 0x16), ASIC_NAME::CHIP_PITCAIRN);
    assert_eq!(ASIC_NAME::get(FAMILY_NAME::SI, 0x14), ASIC_NAME::CHIP_UNKNOWN);
    assert_eq!(ASIC_NAME::get(FAMILY_NAME::SI, 0x3C), ASIC_NAME::CHIP_OLAND);
    assert_eq!(ASIC_NAME::get(FAMILY_NAME::SI, 0xFF), ASIC_NAME::CHIP_UNKNOWN);
}

#[test]
fn classify_range_bounds_are_half_open() {
    assert_eq!(ASIC_NAME::get(FAMILY_NAME::VI, 0x50), ASIC_NAME::CHIP_POLARIS10);
    assert_eq!(ASIC_NAME::get(FAMILY_NAME::VI, 0x59), ASIC_NAME::CHIP_POLARIS10);
    assert_eq!(ASIC_NAME::get(FAMILY_NAME::VI, 0x5A), ASIC_NAME::CHIP_POLARIS11);
    assert_eq!(ASIC_NAME::get(FAMILY_NAME::VI, 0x28), ASIC_NAME::CHIP_UNKNOWN);
    assert_eq!(ASIC_NAME::get(FAMILY_NAME::VI, 0x00), ASIC_NAME::CHIP_UNKNOWN);
}

#[test]
fn classify_console_alias_is_first_declared() {
    let first = ASIC_NAME::get(FAMILY_NAME::KV, 0x65);
    assert_eq!(first, ASIC_NAME::CHIP_LIVERPOOL);
    for _ in 0..10 {
        assert_eq!(ASIC_NAME::get(FAMILY_NAME::KV, 0x65), first);
    }
    assert_eq!(ASIC_NAME::get(FAMILY_NAME::KV, 0x71), ASIC_NAME::CHIP_GLADIUS);
    assert_eq!(ASIC_NAME::get(FAMILY_NAME::KV, 0x50), ASIC_NAME::CHIP_KAVERI);
    assert_eq!(ASIC_NAME::get(FAMILY_NAME::KV, 0xB0), ASIC_NAME::CHIP_KABINI);
}

#[test]
fn classify_fixed_and_other_families() {
    assert_eq!(ASIC_NAME::get(FAMILY_NAME::VGH, 0), ASIC_NAME::CHIP_VANGOGH);
    assert_eq!(ASIC_NAME::get(FAMILY_NAME::YC, 0xFFFF_FFFF), ASIC_NAME::CHIP_REMBRANDT);
    assert_eq!(ASIC_NAME::get(FAMILY_NAME::GC_10_3_6, 7), ASIC_NAME::CHIP_GFX1036);
    assert_eq!(ASIC_NAME::get(FAMILY_NAME::GC_10_3_7, 7), ASIC_NAME::CHIP_GFX1036);
    assert_eq!(ASIC_NAME::get(FAMILY_NAME::CZ, 0x10), ASIC_NAME::CHIP_UNKNOWN);
    assert_eq!(ASIC_NAME::get(FAMILY_NAME::UNKNOWN, 0x10), ASIC_NAME::CHIP_UNKNOWN);
    assert_eq!(ASIC_NAME::get(FAMILY_NAME::NV, 0x84), ASIC_NAME::CHIP_GFX1013);
    assert_eq!(ASIC_NAME::get(FAMILY_NAME::NV, 0x85), ASIC_NAME::CHIP_UNKNOWN);
    assert_eq!(ASIC_NAME::get(FAMILY_NAME::NV, 0x32), ASIC_NAME::CHIP_NAVI22);
    assert_eq!(ASIC_NAME::get(FAMILY_NAME::RV, 0x90), ASIC_NAME::CHIP_UNKNOWN);
    assert_eq!(ASIC_NAME::get(FAMILY_NAME::RV, 0x91), ASIC_NAME::CHIP_RENOIR);
    assert_eq!(ASIC_NAME::get(FAMILY_NAME::AI, 0x46), ASIC_NAME::CHIP_GFX940);
    assert_eq!(ASIC_NAME::get(FAMILY_NAME::GC_11_0_0, 0x20), ASIC_NAME::CHIP_GFX1101);
    assert_eq!(ASIC_NAME::get(FAMILY_NAME::GC_11_0_1, 0xF0), ASIC_NAME::CHIP_GFX1103_R2X);
    assert_eq!(ASIC_NAME::get(FAMILY_NAME::GC_11_5_0, 0x90), ASIC_NAME::CHIP_UNKNOWN);
    assert_eq!(ASIC_NAME::get(FAMILY_NAME::GC_11_5_0, 0xC0), ASIC_NAME::CHIP_GFX1151);
    assert_eq!(ASIC_NAME::get(FAMILY_NAME::GC_12_0_0, 0x50), ASIC_NAME::CHIP_GFX1201);
    assert_eq!(ASIC_NAME::get(FAMILY_NAME::CI, 0x28), ASIC_NAME::CHIP_HAWAII);
}

#[test]
fn classify_is_total() {
    for family in ALL_FAMILIES {
        for rev in 0u32..=255 {
            let v = ASIC_NAME::get(family, rev);
            assert!(ALL_VARIANTS.contains(&v));
        }
    }
}

#[test]
fn family_from_driver_id() {
    assert_eq!(FAMILY_NAME::from_id(110), FAMILY_NAME::SI);
    assert_eq!(FAMILY_NAME::from_id(130), FAMILY_NAME::VI);
    assert_eq!(FAMILY_NAME::from_id(143), FAMILY_NAME::NV);
    assert_eq!(FAMILY_NAME::from_id(151), FAMILY_NAME::GC_10_3_7);
    assert_eq!(FAMILY_NAME::from_id(152), FAMILY_NAME::GC_12_0_0);
    assert_eq!(FAMILY_NAME::from_id(147), FAMILY_NAME::UNKNOWN);
    assert_eq!(FAMILY_NAME::from_id(0), FAMILY_NAME::UNKNOWN);
}

#[test]
fn ranks_follow_declaration_order() {
    for (i, v) in ALL_VARIANTS.iter().enumerate() {
        assert_eq!(v.rank() as usize, i);
    }
    assert_eq!(ASIC_NAME::CHIP_CYAN_SKILLFISH, ASIC_NAME::CHIP_GFX1013);
}

#[test]
fn chip_class_is_monotone_in_release_order() {
    for a in ALL_VARIANTS {
        for b in ALL_VARIANTS {
            if a.rank() <= b.rank() {
                assert!(class_rank(a.chip_class()) <= class_rank(b.chip_class()));
            }
        }
    }
}

#[test]
fn chip_class_examples() {
    assert_eq!(ASIC_NAME::CHIP_UNKNOWN.chip_class(), CHIP_CLASS::CLASS_UNKNOWN);
    assert_eq!(ASIC_NAME::CHIP_RS480.chip_class(), CHIP_CLASS::R300);
    assert_eq!(ASIC_NAME::CHIP_ARUBA.chip_class(), CHIP_CLASS::CAYMAN);
    assert_eq!(ASIC_NAME::CHIP_HAINAN.chip_class(), CHIP_CLASS::GFX6);
    assert_eq!(ASIC_NAME::CHIP_HAWAII.chip_class(), CHIP_CLASS::GFX7);
    assert_eq!(ASIC_NAME::CHIP_VEGAM.chip_class(), CHIP_CLASS::GFX8);
    assert_eq!(ASIC_NAME::CHIP_GFX940.chip_class(), CHIP_CLASS::GFX9);
    assert_eq!(ASIC_NAME::CHIP_GFX1013.chip_class(), CHIP_CLASS::GFX10);
    assert_eq!(ASIC_NAME::CHIP_GFX1036.chip_class(), CHIP_CLASS::GFX10_3);
    assert_eq!(ASIC_NAME::CHIP_GFX1103_R2X.chip_class(), CHIP_CLASS::GFX11);
    assert_eq!(ASIC_NAME::CHIP_GFX1153.chip_class(), CHIP_CLASS::GFX11_5);
    assert_eq!(ASIC_NAME::CHIP_GFX1201.chip_class(), CHIP_CLASS::GFX12);
}

#[test]
fn every_variant_has_a_display_name() {
    for v in ALL_VARIANTS {
        assert!(!v.display_name().is_empty());
    }
    assert_eq!(ASIC_NAME::CHIP_UNKNOWN.display_name(), "Unknown");
    assert_eq!(ASIC_NAME::CHIP_NAVI21.display_name(), "Sienna Cichlid/Navi21");
    assert_eq!(ASIC_NAME::CHIP_JUNIPER.display_name(), "Jupiter");
}

#[test]
fn feature_predicates() {
    assert!(ASIC_NAME::CHIP_STONEY.rbplus_allowed());
    assert!(!ASIC_NAME::CHIP_VEGA10.rbplus_allowed());
    assert!(ASIC_NAME::CHIP_VEGA12.rbplus_allowed());
    assert!(!ASIC_NAME::CHIP_NAVI10.rbplus_allowed());
    assert!(ASIC_NAME::CHIP_NAVI21.rbplus_allowed());
    assert!(!ASIC_NAME::CHIP_FIJI.rbplus_allowed());
    assert!(ASIC_NAME::CHIP_VEGA10.has_packed_math_16bit());
    assert!(!ASIC_NAME::CHIP_VEGAM.has_packed_math_16bit());
    assert!(ASIC_NAME::CHIP_VEGA20.has_accelerated_dot_product());
    assert!(!ASIC_NAME::CHIP_VEGA10.has_accelerated_dot_product());
    assert!(!ASIC_NAME::CHIP_NAVI10.has_accelerated_dot_product());
    assert!(ASIC_NAME::CHIP_NAVI12.has_accelerated_dot_product());
    assert!(!ASIC_NAME::CHIP_UNKNOWN.rbplus_allowed());
}

#[test]
fn simd_layout_and_occupancy() {
    assert_eq!(ASIC_NAME::CHIP_NAVI21.max_wave64_per_simd(), 16);
    assert_eq!(ASIC_NAME::CHIP_NAVI10.max_wave64_per_simd(), 20);
    assert_eq!(ASIC_NAME::CHIP_POLARIS10.max_wave64_per_simd(), 8);
    assert_eq!(ASIC_NAME::CHIP_VEGAM.max_wave64_per_simd(), 8);
    assert_eq!(ASIC_NAME::CHIP_VEGA10.max_wave64_per_simd(), 10);
    assert_eq!(ASIC_NAME::CHIP_UNKNOWN.max_wave64_per_simd(), 10);
    assert_eq!(ASIC_NAME::CHIP_NAVI10.num_simd_per_cu(), 2);
    assert_eq!(ASIC_NAME::CHIP_GFX940.num_simd_per_cu(), 4);
    assert_eq!(ASIC_NAME::CHIP_NAVI10.cu_group(), 2);
    assert_eq!(ASIC_NAME::CHIP_GFX940.cu_group(), 1);
}

#[test]
fn cache_sizes() {
    assert_eq!(ASIC_NAME::CHIP_GFX1100.l1_cache_size(), 32 * 1024);
    assert_eq!(ASIC_NAME::CHIP_NAVI24.l1_cache_size(), 16 * 1024);
    assert_eq!(ASIC_NAME::CHIP_GFX1200.gl1_cache_size(), 0);
    assert_eq!(ASIC_NAME::CHIP_GFX1153.gl1_cache_size(), 256 * 1024);
    assert_eq!(ASIC_NAME::CHIP_NAVI10.gl1_cache_size(), 128 * 1024);
    assert_eq!(ASIC_NAME::CHIP_GFX940.gl1_cache_size(), 0);
    assert_eq!(ASIC_NAME::CHIP_TAHITI.l2_cache_size_per_block(), 64 * 1024);
    assert_eq!(ASIC_NAME::CHIP_VERDE.l2_cache_size_per_block(), 128 * 1024);
    assert_eq!(ASIC_NAME::CHIP_REMBRANDT.l2_cache_size_per_block(), 512 * 1024);
    assert_eq!(ASIC_NAME::CHIP_GFX1200.l2_cache_size_per_block(), 256 * 1024);
    assert_eq!(ASIC_NAME::CHIP_UNKNOWN.l2_cache_size_per_block(), 256 * 1024);
    assert_eq!(ASIC_NAME::CHIP_ALDEBARAN.l2_cache_line_size(), 128);
    assert_eq!(ASIC_NAME::CHIP_NAVI10.l2_cache_line_size(), 128);
    assert_eq!(ASIC_NAME::CHIP_TAHITI.l2_cache_line_size(), 64);
    assert_eq!(ASIC_NAME::CHIP_GFX940.l2_cache_line_size(), 64);
    assert_eq!(ASIC_NAME::CHIP_GFX1201.l2_cache_line_size(), 256);
    assert_eq!(ASIC_NAME::CHIP_NAVI21.l3_cache_size_mb_per_channel(), 8);
    assert_eq!(ASIC_NAME::CHIP_NAVI23.l3_cache_size_mb_per_channel(), 4);
    assert_eq!(ASIC_NAME::CHIP_GFX1151.l3_cache_size_mb_per_channel(), 2);
    assert_eq!(ASIC_NAME::CHIP_GFX1150.l3_cache_size_mb_per_channel(), 0);
}

#[test]
fn target_names() {
    assert_eq!(ASIC_NAME::CHIP_NAVI22.get_gfx_target_name(), "gfx1031");
    assert_eq!(ASIC_NAME::CHIP_UNKNOWN.get_gfx_target_name(), "");
    assert_eq!(ASIC_NAME::CHIP_GFX940.get_gfx_target_name(), "");
    assert_eq!(ASIC_NAME::CHIP_POLARIS11.get_gfx_target_name(), "gfx803");
    assert_eq!(ASIC_NAME::CHIP_ALDEBARAN.get_gfx_target_name(), "gfx90a");
}

#[test]
fn llvm_processor_names_follow_llvm_version() {
    assert_eq!(ASIC_NAME::CHIP_NAVI22.get_llvm_processor_name(12), "gfx1031");
    assert_eq!(ASIC_NAME::CHIP_NAVI22.get_llvm_processor_name(11), "gfx1030");
    assert_eq!(ASIC_NAME::CHIP_NAVI24.get_llvm_processor_name(13), "gfx1034");
    assert_eq!(ASIC_NAME::CHIP_NAVI24.get_llvm_processor_name(12), "gfx1030");
    assert_eq!(ASIC_NAME::CHIP_REMBRANDT.get_llvm_processor_name(12), "gfx1030");
    assert_eq!(ASIC_NAME::CHIP_VANGOGH.get_llvm_processor_name(15), "gfx1033");
    assert_eq!(ASIC_NAME::CHIP_VEGAM.get_llvm_processor_name(15), "polaris11");
    assert_eq!(ASIC_NAME::CHIP_GFX1036.get_llvm_processor_name(17), "gfx1030");
    assert_eq!(ASIC_NAME::CHIP_GFX1103_R1X.get_llvm_processor_name(17), "");
}

fn heap(total: u64) -> drm_amdgpu_heap_info {
    drm_amdgpu_heap_info {
        total_heap_size: total,
        usable_heap_size: total,
        heap_usage: 0,
        max_allocation: total,
    }
}

#[test]
fn resizable_bar() {
    let gib: u64 = 1 << 30;
    let on = drm_amdgpu_memory_info {
        vram: heap(16 * gib),
        cpu_accessible_vram: heap(16 * gib - 200 * (1 << 20)),
        gtt: heap(8 * gib),
    };
    assert!(on.check_resizable_bar());
    let off = drm_amdgpu_memory_info {
        vram: heap(16 * gib),
        cpu_accessible_vram: heap(256 * (1 << 20)),
        gtt: heap(8 * gib),
    };
    assert!(!off.check_resizable_bar());
    let exact = drm_amdgpu_memory_info { vram: heap(100), cpu_accessible_vram: heap(90), gtt: heap(0) };
    assert!(exact.check_resizable_bar());
    let below = drm_amdgpu_memory_info { vram: heap(100), cpu_accessible_vram: heap(89), gtt: heap(0) };
    assert!(!below.check_resizable_bar());
    let huge = drm_amdgpu_memory_info {
        vram: heap(u64::MAX),
        cpu_accessible_vram: heap(u64::MAX),
        gtt: heap(0),
    };
    assert!(huge.check_resizable_bar());
    assert_eq!(amdgpu_sw_info::address32_hi, amdgpu_sw_info::address32_hi);
}

#[test]
fn every_query_answers_for_every_variant() {
    for v in ALL_VARIANTS {
        assert!(v.rank() <= amdgpu_asic::asic::MAX_RANK);
        let _ = v.chip_class();
        let _ = v.rbplus_allowed();
        let _ = v.has_packed_math_16bit();
        let _ = v.has_accelerated_dot_product();
        assert!([8, 10, 16, 20].contains(&v.max_wave64_per_simd()));
        assert!([2, 4].contains(&v.num_simd_per_cu()));
        assert!([1, 2].contains(&v.cu_group()));
        assert!(v.l1_cache_size() > 0);
        let _ = v.gl1_cache_size();
        assert!(v.l2_cache_size_per_block() > 0);
        assert!(v.l2_cache_line_size() >= 64);
        let _ = v.l3_cache_size_mb_per_channel();
        let _ = v.get_llvm_processor_name(0);
        let _ = v.get_gfx_target_name();
    }
}

#[test]
fn release_order_comparisons() {
    assert!(ASIC_NAME::CHIP_NAVI21 > ASIC_NAME::CHIP_NAVI14);
    assert!(ASIC_NAME::CHIP_VANGOGH < ASIC_NAME::CHIP_NAVI23);
    assert!(ASIC_NAME::CHIP_GFX940 < ASIC_NAME::CHIP_NAVI10);
    assert!(ASIC_NAME::CHIP_UNKNOWN < ASIC_NAME::CHIP_R300);
    assert!(ASIC_NAME::CHIP_TAHITI >= ASIC_NAME::CHIP_TAHITI);
}
