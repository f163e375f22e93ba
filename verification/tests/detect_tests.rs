use memops_bench::detect::{
    __get_feature_list, feature_from_name, has_leaf7_subleaf, is_x86_feature_detected,
    osxsave_enabled, select_mask, CpuidLeaf, CpuidReadings, DetectedFeatures, X86Feature,
};

fn leaf(eax: u32, ebx: u32, ecx: u32, edx: u32) -> CpuidLeaf {
    CpuidLeaf { eax, ebx, ecx, edx }
}

fn readings_all_ones(xcr0: u64, leaf7_max: u32) -> CpuidReadings {
    let ones = leaf(u32::MAX, u32::MAX, u32::MAX, u32::MAX);
    CpuidReadings {
        leaf1: ones,
        leaf7_sub0: leaf(leaf7_max, u32::MAX, u32::MAX, u32::MAX),
        leaf7_sub1: ones,
        leaf7_sub2: ones,
        ext_leaf1: ones,
        leaf_d_sub0: ones,
        leaf_d_sub1: ones,
        leaf24_sub0: ones,
        leaf24_sub1: ones,
        xcr0,
    }
}

#[test]
fn select_mask_keeps_or_clears() {
    assert_eq!(select_mask(true, 0x10), u32::MAX);
    assert_eq!(select_mask(false, 0x10), !0x10u32);
    assert_eq!(0xFFu32 & select_mask(false, 0x10), 0xEF);
    assert_eq!(0xFFu32 & select_mask(true, 0x10), 0xFF);
}

#[test]
fn osxsave_and_subleaves() {
    assert!(osxsave_enabled(&leaf(0, 0, 1 << 27, 0)));
    assert!(!osxsave_enabled(&leaf(0, 0, !(1u32 << 27), 0)));
    assert!(has_leaf7_subleaf(&leaf(1, 0, 0, 0), 1));
    assert!(!has_leaf7_subleaf(&leaf(1, 0, 0, 0), 2));
    assert!(has_leaf7_subleaf(&leaf(2, 0, 0, 0), 2));
}

#[test]
fn full_os_support_keeps_every_bit() {
    let r = readings_all_ones(u64::MAX, 2);
    let list = __get_feature_list(&r);
    for i in 0..22 {
        if i == 12 || i == 13 || i == 19 {
            assert_eq!(list[i], 0);
        } else {
            assert_eq!(list[i], u32::MAX, "word {}", i);
        }
    }
    for i in 22..36 {
        assert_eq!(list[i], 0);
    }
}

#[test]
fn no_xsave_clears_avx_avx512_apx_bits() {
    let mut r = readings_all_ones(u64::MAX, 2);
    r.leaf1.ecx = !(1u32 << 27); // OSXSAVE clear: XCR0 is not read
    let list = __get_feature_list(&r);
    assert_eq!(list[0], !(1u32 << 27) & !(1u32 << 28));
    assert_eq!(list[2], !0x5842u32);
    assert_eq!(list[3], !0x80_010Cu32);
    assert_eq!(list[4], !0x20u32 & !0xD423_0000u32);
    assert_eq!(list[5], !0x20u32);
    assert_eq!(list[7], !0x20_0000u32);
    assert_eq!(list[1], u32::MAX);
    assert_eq!(list[6], u32::MAX);
}

#[test]
fn avx_state_without_avx512_state() {
    // XCR0 = x87 | SSE | AVX
    let r = readings_all_ones(0x7, 2);
    let list = __get_feature_list(&r);
    assert_eq!(list[0], u32::MAX);
    assert_eq!(list[4], !0xD423_0000u32);
    assert_eq!(list[2], !0x5842u32);
    // AVX-512 needs all of bits 5, 6 and 7
    let r = readings_all_ones(0x7 | 0x20 | 0x40, 2);
    assert_eq!(__get_feature_list(&r)[2], !0x5842u32);
    let r = readings_all_ones(0x7 | 0xE0, 2);
    assert_eq!(__get_feature_list(&r)[2], u32::MAX);
}

#[test]
fn absent_subleaves_read_as_zero() {
    let r = readings_all_ones(u64::MAX, 0);
    let list = __get_feature_list(&r);
    for i in 5..12 {
        assert_eq!(list[i], 0, "word {}", i);
    }
    let r = readings_all_ones(u64::MAX, 1);
    let list = __get_feature_list(&r);
    assert_eq!(list[6], u32::MAX);
    assert_eq!(list[9], 0);
    assert_eq!(list[10], 0);
    assert_eq!(list[11], 0);
}

#[test]
fn words_come_from_their_registers() {
    let r = CpuidReadings {
        leaf1: leaf(0, 0, 0x11, 0x12),
        leaf7_sub0: leaf(2, 0x13, 0x14, 0x15),
        leaf7_sub1: leaf(0x16, 0x17, 0x18, 0x19),
        leaf7_sub2: leaf(0x1A, 0x1B, 0x1C, 0x1D),
        ext_leaf1: leaf(0, 0, 0x1E, 0x1F),
        leaf_d_sub0: leaf(0x20, 0, 0, 0x21),
        leaf_d_sub1: leaf(0x22, 0, 0, 0),
        leaf24_sub0: leaf(0, 0x23, 0, 0),
        leaf24_sub1: leaf(0, 0, 0x24, 0),
        xcr0: 0,
    };
    let list = __get_feature_list(&r);
    let expected: [u32; 22] = [
        // word 3 loses bit 2, an AVX-512 bit, as the OS state is not enabled
        0x11, 0x12, 0x14, 0x11, 0x13, 0x16, 0x18, 0x19, 0x17, 0x1A, 0x1C, 0x1D, 0, 0, 0x1E, 0x1F,
        0x20, 0x21, 0x22, 0, 0x23, 0x24,
    ];
    for i in 0..22 {
        assert_eq!(list[i], expected[i], "word {}", i);
    }
}

#[test]
fn feature_names_and_positions() {
    assert_eq!(feature_from_name("avx"), Some(X86Feature::Avx));
    assert_eq!(feature_from_name("sse4.1"), Some(X86Feature::Sse41));
    assert_eq!(feature_from_name("cx8"), Some(X86Feature::Cx8));
    assert_eq!(feature_from_name("cmpxchg8b"), Some(X86Feature::Cmpxchg8b));
    assert_eq!(feature_from_name("cx16"), Some(X86Feature::Cx16));
    assert_eq!(feature_from_name("cmpxchg16b"), Some(X86Feature::Cmpxchg16b));
    assert_eq!(X86Feature::Cmpxchg8b.position(), X86Feature::Cx8.position());
    assert_eq!(X86Feature::Cmpxchg16b.position(), (0, 13));
    assert_eq!(feature_from_name("avx512bw"), Some(X86Feature::Avx512bw));
    assert_eq!(feature_from_name("avx3"), None);
    assert_eq!(feature_from_name(""), None);
    assert_eq!(X86Feature::X87.position(), (1, 0));
    assert_eq!(X86Feature::Sse2.position(), (1, 26));
    assert_eq!(X86Feature::Sse3.position(), (0, 0));
    assert_eq!(X86Feature::Avx.position(), (0, 28));
    assert_eq!(X86Feature::Avx2.position(), (4, 5));
    assert_eq!(X86Feature::Avx512f.position(), (4, 16));
    assert_eq!(X86Feature::Erms.position(), (4, 9));
    assert_eq!(X86Feature::Fsrm.position(), (3, 4));
    assert_eq!(X86Feature::Avx10.position(), (8, 19));
    assert_eq!(X86Feature::Avx512vl.position(), (4, 31));
}

#[test]
fn detection_by_table_or_build() {
    let mut words = [0u32; 36];
    words[4] = 1 << 9; // erms
    let features = DetectedFeatures { words, built_in: vec![X86Feature::Sse2] };
    assert!(features.detects(X86Feature::Erms));
    assert!(features.detects(X86Feature::Sse2));
    assert!(!features.detects(X86Feature::Avx));
    assert_eq!(is_x86_feature_detected(&features, "erms"), Some(true));
    assert_eq!(is_x86_feature_detected(&features, "sse2"), Some(true));
    assert_eq!(is_x86_feature_detected(&features, "avx512f"), Some(false));
    assert_eq!(is_x86_feature_detected(&features, "neon"), None);
}

#[test]
fn build_flag_counts_for_its_own_name_only() {
    let features = DetectedFeatures { words: [0; 36], built_in: vec![X86Feature::Cmpxchg16b] };
    assert_eq!(is_x86_feature_detected(&features, "cmpxchg16b"), Some(true));
    assert_eq!(is_x86_feature_detected(&features, "cx16"), Some(false));
    let mut words = [0u32; 36];
    words[0] = 1 << 13;
    let features = DetectedFeatures { words, built_in: vec![] };
    assert_eq!(is_x86_feature_detected(&features, "cx16"), Some(true));
    assert_eq!(is_x86_feature_detected(&features, "cmpxchg16b"), Some(true));
}

#[test]
fn avx_is_not_reported_without_os_state() {
    // the processor has AVX and AVX2, the OS saves only x87/SSE state
    let r = readings_all_ones(0x3, 2);
    let features = DetectedFeatures { words: __get_feature_list(&r), built_in: vec![] };
    assert!(!features.detects(X86Feature::Avx));
    assert!(!features.detects(X86Feature::Avx2));
    assert!(!features.detects(X86Feature::Avx512f));
    assert!(features.detects(X86Feature::Sse2));
    assert!(features.detects(X86Feature::Erms));
}
