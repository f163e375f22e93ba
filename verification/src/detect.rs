//! The x86 feature table: which `cpuid` bits are reported as usable, given
//! the raw `cpuid` leaves and the `XCR0` register that the OS enabled.

use vstd::prelude::*;
use crate::text::str_eq;

verus! {

/// The four registers that one `cpuid` query returns.
#[derive(Clone, Copy, Debug, PartialEq, Eq)]
pub struct CpuidLeaf {
    pub eax: u32,
    pub ebx: u32,
    pub ecx: u32,
    pub edx: u32,
}

/// Returns `u32::MAX` (keep every bit) when `sel` holds, and the complement
/// of `mask` (clear the bits of `mask`) when it does not.
pub fn select_mask(sel: bool, mask: u32) -> (r: u32)
    ensures
        r == if sel { u32::MAX } else { !mask },
{
    if sel {
        u32::MAX
    } else {
        !mask
    }
}


/// The `cpuid` leaves and the `XCR0` value from which the feature table is
/// built. A leaf that the processor does not offer may hold anything: the
/// table only reads it where the processor says the leaf exists.
#[derive(Clone, Copy, Debug, PartialEq, Eq)]
pub struct CpuidReadings {
    /// `cpuid(1)`
    pub leaf1: CpuidLeaf,
    /// `cpuid(7, 0)`
    pub leaf7_sub0: CpuidLeaf,
    /// `cpuid(7, 1)`, read only where `leaf7_sub0.eax >= 1`
    pub leaf7_sub1: CpuidLeaf,
    /// `cpuid(7, 2)`, read only where `leaf7_sub0.eax >= 2`
    pub leaf7_sub2: CpuidLeaf,
    /// `cpuid(0x8000_0001)`
    pub ext_leaf1: CpuidLeaf,
    /// `cpuid(0xD, 0)`
    pub leaf_d_sub0: CpuidLeaf,
    /// `cpuid(0xD, 1)`
    pub leaf_d_sub1: CpuidLeaf,
    /// `cpuid(0x24, 0)`
    pub leaf24_sub0: CpuidLeaf,
    /// `cpuid(0x24, 1)`
    pub leaf24_sub1: CpuidLeaf,
    /// `xgetbv(0)`, read only where the OS enabled `XSAVE` (OSXSAVE set)
    pub xcr0: u64,
}

/// Number of 32-bit words in the feature table.
pub const FEATURE_WORDS: usize = 36;

/// Bit of `cpuid(1).ecx` that tells that the OS enabled `XSAVE`/`xgetbv`.
pub const OSXSAVE_BIT: u32 = 0x0800_0000;
/// `XCR0` bit for the AVX (YMM) state.
pub const XCR0_AVX_STATE: u64 = 0x4;
/// `XCR0` bits 5..=7: the opmask, ZMM_Hi256 and Hi16_ZMM states of AVX-512.
pub const XCR0_AVX512_STATE: u64 = 0xE0;
/// `XCR0` bit 19: the APX state.
pub const XCR0_APX_STATE: u64 = 0x8_0000;

/// AVX bit of `cpuid(1).ecx`.
pub const AVX_MASK_LEAF1_ECX: u32 = 0x1000_0000;
/// AVX2 bit of `cpuid(7, 0).ebx`.
pub const AVX_MASK_LEAF7_0_EBX: u32 = 0x20;
/// APX bit of `cpuid(7, 1).edx`.
pub const APX_MASK_LEAF7_1_EDX: u32 = 0x20_0000;
/// AVX-512 bits of `cpuid(7, 0).ecx` (bits 1, 6, 11, 12, 14).
pub const AVX512_MASK_LEAF7_0_ECX: u32 = 0x5842;
/// AVX-512 bits of `cpuid(7, 0).edx` (bits 2, 3, 8, 23).
pub const AVX512_MASK_LEAF7_0_EDX: u32 = 0x80_010C;
/// AVX-512 bits of `cpuid(7, 0).ebx` (bits 16, 17, 21, 26, 28, 30, 31).
pub const AVX512_MASK_LEAF7_0_EBX: u32 = 0xD423_0000;
/// AVX-512 bit of `cpuid(7, 1).eax` (bit 5).
pub const AVX512_MASK_LEAF7_1_EAX: u32 = 0x20;

/// The leaf of all-zero registers, which stands for a leaf that is absent.
pub open spec fn zero_leaf() -> CpuidLeaf {
    CpuidLeaf { eax: 0, ebx: 0, ecx: 0, edx: 0 }
}

/// Whether the OS enabled `XSAVE`, so that `xgetbv` may be executed.
pub open spec fn spec_osxsave(leaf1: CpuidLeaf) -> bool {
    leaf1.ecx & OSXSAVE_BIT != 0
}

/// Whether `cpuid(7, sub)` exists: leaf 7, subleaf 0 reports the highest
/// subleaf in `eax`.
pub open spec fn spec_has_leaf7_subleaf(leaf7_sub0: CpuidLeaf, sub: u32) -> bool {
    leaf7_sub0.eax >= sub
}

/// The `XCR0` value that counts: zero unless the OS enabled `XSAVE`.
pub open spec fn effective_xcr0(r: CpuidReadings) -> u64 {
    if spec_osxsave(r.leaf1) { r.xcr0 } else { 0 }
}

/// Whether the OS saves all of the given `XCR0` state bits.
pub open spec fn xcr0_enables(xcr0: u64, state: u64) -> bool {
    xcr0 & state == state
}

pub open spec fn os_avx(r: CpuidReadings) -> bool {
    effective_xcr0(r) & XCR0_AVX_STATE != 0
}

pub open spec fn os_avx512(r: CpuidReadings) -> bool {
    xcr0_enables(effective_xcr0(r), XCR0_AVX512_STATE)
}

pub open spec fn os_apx(r: CpuidReadings) -> bool {
    effective_xcr0(r) & XCR0_APX_STATE != 0
}

/// `cpuid(7, 1)` where it exists, the zero leaf where it does not.
pub open spec fn effective_leaf7_sub1(r: CpuidReadings) -> CpuidLeaf {
    if spec_has_leaf7_subleaf(r.leaf7_sub0, 1) { r.leaf7_sub1 } else { zero_leaf() }
}

/// `cpuid(7, 2)` where it exists, the zero leaf where it does not.
pub open spec fn effective_leaf7_sub2(r: CpuidReadings) -> CpuidLeaf {
    if spec_has_leaf7_subleaf(r.leaf7_sub0, 2) { r.leaf7_sub2 } else { zero_leaf() }
}

pub open spec fn spec_select_mask(sel: bool, mask: u32) -> u32 {
    if sel { u32::MAX } else { !mask }
}

/// The feature table, word by word: the `cpuid` registers in a fixed order,
/// with the AVX, AVX-512 and APX bits cleared where the OS does not save the
/// matching register state, and zero in the reserved words.
pub open spec fn feature_words(r: CpuidReadings) -> Seq<u32> {
    let l71 = effective_leaf7_sub1(r);
    let l72 = effective_leaf7_sub2(r);
    seq![
        r.leaf1.ecx & spec_select_mask(os_avx(r), AVX_MASK_LEAF1_ECX),
        r.leaf1.edx,
        r.leaf7_sub0.ecx & spec_select_mask(os_avx512(r), AVX512_MASK_LEAF7_0_ECX),
        r.leaf7_sub0.edx & spec_select_mask(os_avx512(r), AVX512_MASK_LEAF7_0_EDX),
        r.leaf7_sub0.ebx & spec_select_mask(os_avx(r), AVX_MASK_LEAF7_0_EBX)
            & spec_select_mask(os_avx512(r), AVX512_MASK_LEAF7_0_EBX),
        l71.eax & spec_select_mask(os_avx512(r), AVX512_MASK_LEAF7_1_EAX),
        l71.ecx,
        l71.edx & spec_select_mask(os_apx(r), APX_MASK_LEAF7_1_EDX),
        l71.ebx,
        l72.eax,
        l72.ecx,
        l72.edx,
        0u32,
        0u32,
        r.ext_leaf1.ecx,
        r.ext_leaf1.edx,
        r.leaf_d_sub0.eax,
        r.leaf_d_sub0.edx,
        r.leaf_d_sub1.eax,
        0u32,
        r.leaf24_sub0.ebx,
        r.leaf24_sub1.ecx,
        0u32, 0u32, 0u32, 0u32, 0u32, 0u32, 0u32,
        0u32, 0u32, 0u32, 0u32, 0u32, 0u32, 0u32,
    ]
}

/// Whether the OS enabled `XSAVE`: only then may `xgetbv` be executed.
pub fn osxsave_enabled(leaf1: &CpuidLeaf) -> (r: bool)
    ensures
        r == spec_osxsave(*leaf1),
{
    leaf1.ecx & OSXSAVE_BIT != 0
}

/// Whether subleaf `sub` of leaf 7 exists, given subleaf 0.
pub fn has_leaf7_subleaf(leaf7_sub0: &CpuidLeaf, sub: u32) -> (r: bool)
    ensures
        r == spec_has_leaf7_subleaf(*leaf7_sub0, sub),
{
    leaf7_sub0.eax >= sub
}

/// Builds the feature table from the raw readings.
pub fn __get_feature_list(readings: &CpuidReadings) -> (list: [u32; 36])
    ensures
        list@ == feature_words(*readings),
{
    let leaf1 = readings.leaf1;
    let l70 = readings.leaf7_sub0;
    let l71 = if has_leaf7_subleaf(&l70, 1) {
        readings.leaf7_sub1
    } else {
        CpuidLeaf { eax: 0, ebx: 0, ecx: 0, edx: 0 }
    };
    let l72 = if has_leaf7_subleaf(&l70, 2) {
        readings.leaf7_sub2
    } else {
        CpuidLeaf { eax: 0, ebx: 0, ecx: 0, edx: 0 }
    };
    let getbv: u64 = if osxsave_enabled(&leaf1) {
        readings.xcr0
    } else {
        0
    };
    let use_avx512 = (getbv & XCR0_AVX512_STATE) == XCR0_AVX512_STATE;
    let use_avx = (getbv & XCR0_AVX_STATE) != 0;
    let use_apx = (getbv & XCR0_APX_STATE) != 0;

    let list: [u32; 36] = [
        leaf1.ecx & select_mask(use_avx, AVX_MASK_LEAF1_ECX),
        leaf1.edx,
        l70.ecx & select_mask(use_avx512, AVX512_MASK_LEAF7_0_ECX),
        l70.edx & select_mask(use_avx512, AVX512_MASK_LEAF7_0_EDX),
        l70.ebx & select_mask(use_avx, AVX_MASK_LEAF7_0_EBX) & select_mask(
            use_avx512,
            AVX512_MASK_LEAF7_0_EBX,
        ),
        l71.eax & select_mask(use_avx512, AVX512_MASK_LEAF7_1_EAX),
        l71.ecx,
        l71.edx & select_mask(use_apx, APX_MASK_LEAF7_1_EDX),
        l71.ebx,
        l72.eax,
        l72.ecx,
        l72.edx,
        0,
        0,
        readings.ext_leaf1.ecx,
        readings.ext_leaf1.edx,
        readings.leaf_d_sub0.eax,
        readings.leaf_d_sub0.edx,
        readings.leaf_d_sub1.eax,
        0,
        readings.leaf24_sub0.ebx,
        readings.leaf24_sub1.ecx,
        0, 0, 0, 0, 0, 0, 0,
        0, 0, 0, 0, 0, 0, 0,
    ];
    assert(list@ =~= feature_words(*readings));
    list
}


/// The x86 features that can be asked for by name.
#[derive(Clone, Copy, Debug, PartialEq, Eq, Structural)]
pub enum X86Feature {
    /// `"x87"`
    X87,
    /// `"sse"`
    Sse,
    /// `"sse2"`
    Sse2,
    /// `"sse3"`
    Sse3,
    /// `"ssse3"`
    Ssse3,
    /// `"sse4.1"`
    Sse41,
    /// `"sse4.2"`
    Sse42,
    /// `"xsave"`
    Xsave,
    /// `"avx"`
    Avx,
    /// `"f16c"`
    F16c,
    /// `"rdrand"`
    Rdrand,
    /// `"avx2"`
    Avx2,
    /// `"fsgsbase"`
    Fsgsbase,
    /// `"avx512f"`
    Avx512f,
    /// `"erms"`
    Erms,
    /// `"fsrm"`
    Fsrm,
    /// `"avx10"`
    Avx10,
    /// `"cx8"`
    Cx8,
    /// `"cmpxchg8b"`, the same bit as `"cx8"`
    Cmpxchg8b,
    /// `"cx16"`
    Cx16,
    /// `"cmpxchg16b"`, the same bit as `"cx16"`
    Cmpxchg16b,
    /// `"avx512dq"`
    Avx512dq,
    /// `"avx512bw"`
    Avx512bw,
    /// `"avx512vl"`
    Avx512vl,
}

/// Where a feature's bit stands in the feature table: the word and the bit.
pub open spec fn spec_position(f: X86Feature) -> (usize, u32) {
    match f {
        X86Feature::X87 => (1usize, 0u32),
        X86Feature::Sse => (1usize, 25u32),
        X86Feature::Sse2 => (1usize, 26u32),
        X86Feature::Sse3 => (0usize, 0u32),
        X86Feature::Ssse3 => (0usize, 9u32),
        X86Feature::Sse41 => (0usize, 19u32),
        X86Feature::Sse42 => (0usize, 20u32),
        X86Feature::Xsave => (0usize, 27u32),
        X86Feature::Avx => (0usize, 28u32),
        X86Feature::F16c => (0usize, 29u32),
        X86Feature::Rdrand => (0usize, 30u32),
        X86Feature::Avx2 => (4usize, 5u32),
        X86Feature::Fsgsbase => (4usize, 0u32),
        X86Feature::Avx512f => (4usize, 16u32),
        X86Feature::Erms => (4usize, 9u32),
        X86Feature::Fsrm => (3usize, 4u32),
        X86Feature::Avx10 => (8usize, 19u32),
        X86Feature::Cx8 => (1usize, 8u32),
        X86Feature::Cmpxchg8b => (1usize, 8u32),
        X86Feature::Cx16 => (0usize, 13u32),
        X86Feature::Cmpxchg16b => (0usize, 13u32),
        X86Feature::Avx512dq => (4usize, 17u32),
        X86Feature::Avx512bw => (4usize, 30u32),
        X86Feature::Avx512vl => (4usize, 31u32),
    }
}

/// The feature that a name denotes. `cmpxchg8b` and `cmpxchg16b` read the
/// same table bits as `cx8` and `cx16`, but the build may assume them apart.
pub open spec fn spec_feature_from_name(s: Seq<char>) -> Option<X86Feature> {
    if s == "x87"@ {
        Some(X86Feature::X87)
    } else if s == "sse"@ {
        Some(X86Feature::Sse)
    } else if s == "sse2"@ {
        Some(X86Feature::Sse2)
    } else if s == "sse3"@ {
        Some(X86Feature::Sse3)
    } else if s == "ssse3"@ {
        Some(X86Feature::Ssse3)
    } else if s == "sse4.1"@ {
        Some(X86Feature::Sse41)
    } else if s == "sse4.2"@ {
        Some(X86Feature::Sse42)
    } else if s == "xsave"@ {
        Some(X86Feature::Xsave)
    } else if s == "avx"@ {
        Some(X86Feature::Avx)
    } else if s == "f16c"@ {
        Some(X86Feature::F16c)
    } else if s == "rdrand"@ {
        Some(X86Feature::Rdrand)
    } else if s == "avx2"@ {
        Some(X86Feature::Avx2)
    } else if s == "fsgsbase"@ {
        Some(X86Feature::Fsgsbase)
    } else if s == "avx512f"@ {
        Some(X86Feature::Avx512f)
    } else if s == "erms"@ {
        Some(X86Feature::Erms)
    } else if s == "fsrm"@ {
        Some(X86Feature::Fsrm)
    } else if s == "avx10"@ {
        Some(X86Feature::Avx10)
    } else if s == "cx8"@ {
        Some(X86Feature::Cx8)
    } else if s == "cmpxchg8b"@ {
        Some(X86Feature::Cmpxchg8b)
    } else if s == "cx16"@ {
        Some(X86Feature::Cx16)
    } else if s == "cmpxchg16b"@ {
        Some(X86Feature::Cmpxchg16b)
    } else if s == "avx512dq"@ {
        Some(X86Feature::Avx512dq)
    } else if s == "avx512bw"@ {
        Some(X86Feature::Avx512bw)
    } else if s == "avx512vl"@ {
        Some(X86Feature::Avx512vl)
    } else {
        None
    }
}

/// Whether bit `bit` of `word` is set.
pub open spec fn bit_set(word: u32, bit: u32) -> bool {
    word & (1u32 << bit) != 0
}

/// Whether the feature table reports the feature.
pub open spec fn feature_reported(words: Seq<u32>, f: X86Feature) -> bool {
    let (index, bit) = spec_position(f);
    bit_set(words[index as int], bit)
}

impl X86Feature {
    /// The word and the bit of the feature table that report this feature.
    pub fn position(self) -> (r: (usize, u32))
        ensures
            r == spec_position(self),
            r.0 < FEATURE_WORDS,
            r.1 < 32,
    {
        match self {
            X86Feature::X87 => (1, 0),
            X86Feature::Sse => (1, 25),
            X86Feature::Sse2 => (1, 26),
            X86Feature::Sse3 => (0, 0),
            X86Feature::Ssse3 => (0, 9),
            X86Feature::Sse41 => (0, 19),
            X86Feature::Sse42 => (0, 20),
            X86Feature::Xsave => (0, 27),
            X86Feature::Avx => (0, 28),
            X86Feature::F16c => (0, 29),
            X86Feature::Rdrand => (0, 30),
            X86Feature::Avx2 => (4, 5),
            X86Feature::Fsgsbase => (4, 0),
            X86Feature::Avx512f => (4, 16),
            X86Feature::Erms => (4, 9),
            X86Feature::Fsrm => (3, 4),
            X86Feature::Avx10 => (8, 19),
            X86Feature::Cx8 => (1, 8),
            X86Feature::Cmpxchg8b => (1, 8),
            X86Feature::Cx16 => (0, 13),
            X86Feature::Cmpxchg16b => (0, 13),
            X86Feature::Avx512dq => (4, 17),
            X86Feature::Avx512bw => (4, 30),
            X86Feature::Avx512vl => (4, 31),
        }
    }
}

/// The feature that a name denotes, `None` for a name that is not known.
pub fn feature_from_name(name: &str) -> (r: Option<X86Feature>)
    ensures
        r == spec_feature_from_name(name@),
{
    if str_eq(name, "x87") {
        Some(X86Feature::X87)
    } else if str_eq(name, "sse") {
        Some(X86Feature::Sse)
    } else if str_eq(name, "sse2") {
        Some(X86Feature::Sse2)
    } else if str_eq(name, "sse3") {
        Some(X86Feature::Sse3)
    } else if str_eq(name, "ssse3") {
        Some(X86Feature::Ssse3)
    } else if str_eq(name, "sse4.1") {
        Some(X86Feature::Sse41)
    } else if str_eq(name, "sse4.2") {
        Some(X86Feature::Sse42)
    } else if str_eq(name, "xsave") {
        Some(X86Feature::Xsave)
    } else if str_eq(name, "avx") {
        Some(X86Feature::Avx)
    } else if str_eq(name, "f16c") {
        Some(X86Feature::F16c)
    } else if str_eq(name, "rdrand") {
        Some(X86Feature::Rdrand)
    } else if str_eq(name, "avx2") {
        Some(X86Feature::Avx2)
    } else if str_eq(name, "fsgsbase") {
        Some(X86Feature::Fsgsbase)
    } else if str_eq(name, "avx512f") {
        Some(X86Feature::Avx512f)
    } else if str_eq(name, "erms") {
        Some(X86Feature::Erms)
    } else if str_eq(name, "fsrm") {
        Some(X86Feature::Fsrm)
    } else if str_eq(name, "avx10") {
        Some(X86Feature::Avx10)
    } else if str_eq(name, "cx8") {
        Some(X86Feature::Cx8)
    } else if str_eq(name, "cmpxchg8b") {
        Some(X86Feature::Cmpxchg8b)
    } else if str_eq(name, "cx16") {
        Some(X86Feature::Cx16)
    } else if str_eq(name, "cmpxchg16b") {
        Some(X86Feature::Cmpxchg16b)
    } else if str_eq(name, "avx512dq") {
        Some(X86Feature::Avx512dq)
    } else if str_eq(name, "avx512bw") {
        Some(X86Feature::Avx512bw)
    } else if str_eq(name, "avx512vl") {
        Some(X86Feature::Avx512vl)
    } else {
        None
    }
}

/// What is known of the processor: the feature table read at run time and
/// the features that the build already assumes (enabled by `target_feature`).
#[derive(Debug)]
pub struct DetectedFeatures {
    pub words: [u32; 36],
    pub built_in: Vec<X86Feature>,
}

impl DetectedFeatures {
    /// A feature is detected when the build assumes it or the table reports it.
    pub open spec fn spec_detects(&self, f: X86Feature) -> bool {
        self.built_in@.contains(f) || feature_reported(self.words@, f)
    }

    /// Whether the feature may be used.
    pub fn detects(&self, f: X86Feature) -> (r: bool)
        ensures
            r == self.spec_detects(f),
    {
        let mut i: usize = 0;
        while i < self.built_in.len()
            invariant
                i <= self.built_in@.len(),
                forall|j: int| 0 <= j < i ==> self.built_in@[j] != f,
            decreases self.built_in@.len() - i,
        {
            if self.built_in[i] == f {
                return true;
            }
            i = i + 1;
        }
        let (index, bit) = f.position();
        self.words[index] & (1u32 << bit) != 0
    }
}

/// Whether the named feature is detected; `None` for a name that is not known.
pub fn is_x86_feature_detected(features: &DetectedFeatures, name: &str) -> (r: Option<bool>)
    ensures
        r == match spec_feature_from_name(name@) {
            Some(f) => Some(features.spec_detects(f)),
            None => None,
        },
{
    match feature_from_name(name) {
        Some(f) => Some(features.detects(f)),
        None => None,
    }
}


/// The table as the processor reports it, before any bit is cleared for
/// missing OS support (absent leaves still read as zero).
pub open spec fn raw_words(r: CpuidReadings) -> Seq<u32> {
    let l71 = effective_leaf7_sub1(r);
    let l72 = effective_leaf7_sub2(r);
    seq![
        r.leaf1.ecx, r.leaf1.edx, r.leaf7_sub0.ecx, r.leaf7_sub0.edx, r.leaf7_sub0.ebx,
        l71.eax, l71.ecx, l71.edx, l71.ebx, l72.eax, l72.ecx, l72.edx, 0u32, 0u32,
        r.ext_leaf1.ecx, r.ext_leaf1.edx, r.leaf_d_sub0.eax, r.leaf_d_sub0.edx,
        r.leaf_d_sub1.eax, 0u32, r.leaf24_sub0.ebx, r.leaf24_sub1.ecx,
        0u32, 0u32, 0u32, 0u32, 0u32, 0u32, 0u32,
        0u32, 0u32, 0u32, 0u32, 0u32, 0u32, 0u32,
    ]
}

/// A selected mask keeps every bit when selected, and otherwise clears
/// exactly the bits of the mask.
pub proof fn lemma_select_mask(x: u32, mask: u32)
    ensures
        x & spec_select_mask(true, mask) == x,
        x & spec_select_mask(false, mask) & mask == 0,
        x & spec_select_mask(false, mask) & !mask == x & !mask,
{
    assert(x & u32::MAX == x) by (bit_vector);
    assert(x & !mask & mask == 0) by (bit_vector);
    assert(x & !mask & !mask == x & !mask) by (bit_vector);
}

/// The table never reports a bit that the processor does not: each word is
/// a subset of the raw register it comes from.
pub proof fn lemma_reported_bits_are_raw_bits(r: CpuidReadings)
    ensures
        feature_words(r).len() == FEATURE_WORDS,
        raw_words(r).len() == FEATURE_WORDS,
        forall|i: int|
            0 <= i < FEATURE_WORDS ==> #[trigger] feature_words(r)[i] & raw_words(r)[i]
                == feature_words(r)[i],
{
    assert forall|x: u32, m: u32| #[trigger] (x & m & x) == x & m by {
        assert(x & m & x == x & m) by (bit_vector);
    }
    assert forall|x: u32, m: u32, n: u32| #[trigger] (x & m & n & x) == x & m & n by {
        assert(x & m & n & x == x & m & n) by (bit_vector);
    }
    assert forall|x: u32| #[trigger] (x & x) == x by {
        assert(x & x == x) by (bit_vector);
    }
    assert(0u32 & 0u32 == 0u32) by (bit_vector);
}

/// Where the OS saves the AVX, AVX-512 and APX state, the table is exactly
/// what the processor reports.
pub proof fn lemma_full_os_support_keeps_raw(r: CpuidReadings)
    requires
        os_avx(r),
        os_avx512(r),
        os_apx(r),
    ensures
        feature_words(r) == raw_words(r),
{
    assert forall|x: u32| #[trigger] (x & u32::MAX) == x by {
        assert(x & u32::MAX == x) by (bit_vector);
    }
    assert(feature_words(r) =~= raw_words(r));
}

/// AVX and AVX2 are reported only where the processor has them and the OS
/// has enabled `XSAVE` and saves the AVX state.
pub proof fn lemma_avx_needs_os_state(r: CpuidReadings)
    ensures
        feature_reported(feature_words(r), X86Feature::Avx) ==> {
            &&& spec_osxsave(r.leaf1)
            &&& os_avx(r)
            &&& bit_set(r.leaf1.ecx, 28)
        },
        feature_reported(feature_words(r), X86Feature::Avx2) ==> {
            &&& spec_osxsave(r.leaf1)
            &&& os_avx(r)
            &&& bit_set(r.leaf7_sub0.ebx, 5)
        },
{
    let w0 = feature_words(r)[0];
    let w4 = feature_words(r)[4];
    let ecx = r.leaf1.ecx;
    let ebx = r.leaf7_sub0.ebx;
    let m = spec_select_mask(os_avx512(r), AVX512_MASK_LEAF7_0_EBX);
    assert(ecx & !0x1000_0000u32 & (1u32 << 28u32) == 0) by (bit_vector);
    assert(ebx & !0x20u32 & m & (1u32 << 5u32) == 0) by (bit_vector);
    assert(ecx & u32::MAX & (1u32 << 28u32) == ecx & (1u32 << 28u32)) by (bit_vector);
    assert(ebx & u32::MAX & m & (1u32 << 5u32) != 0 ==> ebx & (1u32 << 5u32) != 0)
        by (bit_vector);
    assert(0u64 & 4u64 == 0) by (bit_vector);
}

/// The AVX-512 features are reported only where the OS saves all of the
/// AVX-512 state (opmask, ZMM_Hi256 and Hi16_ZMM).
pub proof fn lemma_avx512_needs_os_state(r: CpuidReadings)
    ensures
        feature_reported(feature_words(r), X86Feature::Avx512f) ==> os_avx512(r),
        feature_reported(feature_words(r), X86Feature::Avx512dq) ==> os_avx512(r),
        feature_reported(feature_words(r), X86Feature::Avx512bw) ==> os_avx512(r),
        feature_reported(feature_words(r), X86Feature::Avx512vl) ==> os_avx512(r),
{
    let ebx = r.leaf7_sub0.ebx;
    let m = spec_select_mask(os_avx(r), AVX_MASK_LEAF7_0_EBX);
    assert(ebx & m & !0xD423_0000u32 & (1u32 << 16u32) == 0) by (bit_vector);
    assert(ebx & m & !0xD423_0000u32 & (1u32 << 17u32) == 0) by (bit_vector);
    assert(ebx & m & !0xD423_0000u32 & (1u32 << 30u32) == 0) by (bit_vector);
    assert(ebx & m & !0xD423_0000u32 & (1u32 << 31u32) == 0) by (bit_vector);
}


/// A word under a selected mask: outside the mask it is the word itself;
/// inside, the word's own bits where selected and clear where not.
proof fn lemma_masked_word(x: u32, m: u32, sel: bool)
    ensures
        (x & spec_select_mask(sel, m)) & !m == x & !m,
        (x & spec_select_mask(sel, m)) & m == (if sel { x & m } else { 0u32 }),
{
    assert((x & u32::MAX) & !m == x & !m && (x & u32::MAX) & m == x & m) by (bit_vector);
    assert((x & !m) & !m == x & !m && (x & !m) & m == 0) by (bit_vector);
}

/// How the table's masked words follow from the registers and from `XCR0`
/// as the OS set it (read only where `OSXSAVE` is set): bits outside the
/// AVX, AVX-512 and APX masks are the register's own; bits inside a mask
/// are the register's where the OS saves that state and clear where it does
/// not. The unmasked words are the registers themselves, an absent subleaf
/// of leaf 7 reads as zero, and the reserved words are zero.
pub proof fn lemma_feature_table_from_registers(r: CpuidReadings)
    ensures
        ({
            let w = feature_words(r);
            let xcr0 = if r.leaf1.ecx & 0x0800_0000u32 != 0 { r.xcr0 } else { 0u64 };
            let avx = xcr0 & 0x4u64 != 0;
            let avx512 = xcr0 & 0xE0u64 == 0xE0u64;
            let apx = xcr0 & 0x8_0000u64 != 0;
            let has1 = r.leaf7_sub0.eax >= 1;
            let has2 = r.leaf7_sub0.eax >= 2;
            let ecx1 = r.leaf1.ecx;
            let ecx70 = r.leaf7_sub0.ecx;
            let edx70 = r.leaf7_sub0.edx;
            let ebx70 = r.leaf7_sub0.ebx;
            let eax71 = if has1 { r.leaf7_sub1.eax } else { 0u32 };
            let edx71 = if has1 { r.leaf7_sub1.edx } else { 0u32 };
            &&& w.len() == 36
            &&& w[0] & !0x1000_0000u32 == ecx1 & !0x1000_0000u32
            &&& w[0] & 0x1000_0000u32 == (if avx { ecx1 & 0x1000_0000u32 } else { 0u32 })
            &&& w[1] == r.leaf1.edx
            &&& w[2] & !0x5842u32 == ecx70 & !0x5842u32
            &&& w[2] & 0x5842u32 == (if avx512 { ecx70 & 0x5842u32 } else { 0u32 })
            &&& w[3] & !0x80_010Cu32 == edx70 & !0x80_010Cu32
            &&& w[3] & 0x80_010Cu32 == (if avx512 { edx70 & 0x80_010Cu32 } else { 0u32 })
            &&& w[4] & !0xD423_0020u32 == ebx70 & !0xD423_0020u32
            &&& w[4] & 0x20u32 == (if avx { ebx70 & 0x20u32 } else { 0u32 })
            &&& w[4] & 0xD423_0000u32 == (if avx512 { ebx70 & 0xD423_0000u32 } else { 0u32 })
            &&& w[5] & !0x20u32 == eax71 & !0x20u32
            &&& w[5] & 0x20u32 == (if avx512 { eax71 & 0x20u32 } else { 0u32 })
            &&& w[6] == (if has1 { r.leaf7_sub1.ecx } else { 0u32 })
            &&& w[7] & !0x20_0000u32 == edx71 & !0x20_0000u32
            &&& w[7] & 0x20_0000u32 == (if apx { edx71 & 0x20_0000u32 } else { 0u32 })
            &&& w[8] == (if has1 { r.leaf7_sub1.ebx } else { 0u32 })
            &&& w[9] == (if has2 { r.leaf7_sub2.eax } else { 0u32 })
            &&& w[10] == (if has2 { r.leaf7_sub2.ecx } else { 0u32 })
            &&& w[11] == (if has2 { r.leaf7_sub2.edx } else { 0u32 })
            &&& w[14] == r.ext_leaf1.ecx
            &&& w[15] == r.ext_leaf1.edx
            &&& w[16] == r.leaf_d_sub0.eax
            &&& w[17] == r.leaf_d_sub0.edx
            &&& w[18] == r.leaf_d_sub1.eax
            &&& w[20] == r.leaf24_sub0.ebx
            &&& w[21] == r.leaf24_sub1.ecx
            &&& w[12] == 0 && w[13] == 0 && w[19] == 0
            &&& forall|i: int| 22 <= i < 36 ==> w[i] == 0
        }),
{
    let l71 = effective_leaf7_sub1(r);
    lemma_masked_word(r.leaf1.ecx, AVX_MASK_LEAF1_ECX, os_avx(r));
    lemma_masked_word(r.leaf7_sub0.ecx, AVX512_MASK_LEAF7_0_ECX, os_avx512(r));
    lemma_masked_word(r.leaf7_sub0.edx, AVX512_MASK_LEAF7_0_EDX, os_avx512(r));
    lemma_masked_word(l71.eax, AVX512_MASK_LEAF7_1_EAX, os_avx512(r));
    lemma_masked_word(l71.edx, APX_MASK_LEAF7_1_EDX, os_apx(r));
    let ebx = r.leaf7_sub0.ebx;
    assert({
        let w = ebx & u32::MAX & u32::MAX;
        w & !0xD423_0020u32 == ebx & !0xD423_0020u32 && w & 0x20u32 == ebx & 0x20u32 && w
            & 0xD423_0000u32 == ebx & 0xD423_0000u32
    }) by (bit_vector);
    assert({
        let w = ebx & !0x20u32 & u32::MAX;
        w & !0xD423_0020u32 == ebx & !0xD423_0020u32 && w & 0x20u32 == 0u32 && w
            & 0xD423_0000u32 == ebx & 0xD423_0000u32
    }) by (bit_vector);
    assert({
        let w = ebx & u32::MAX & !0xD423_0000u32;
        w & !0xD423_0020u32 == ebx & !0xD423_0020u32 && w & 0x20u32 == ebx & 0x20u32 && w
            & 0xD423_0000u32 == 0u32
    }) by (bit_vector);
    assert({
        let w = ebx & !0x20u32 & !0xD423_0000u32;
        w & !0xD423_0020u32 == ebx & !0xD423_0020u32 && w & 0x20u32 == 0u32 && w
            & 0xD423_0000u32 == 0u32
    }) by (bit_vector);
    assert(0u32 & !0x20u32 == 0u32 & !0x20u32);
}


/// Each feature is read from its own `cpuid` bit: the feature table reports
/// it exactly where that register bit is set and, for AVX, AVX2 and the
/// AVX-512 features, the OS saves the matching register state (`XCR0` bit 2,
/// respectively bits 5 to 7, with `OSXSAVE` set); AVX10 needs subleaf 1 of
/// leaf 7.
pub proof fn lemma_feature_bits(r: CpuidReadings, avx: bool, avx512: bool)
    requires
        avx == ((if r.leaf1.ecx & 0x0800_0000u32 != 0 { r.xcr0 } else { 0u64 }) & 0x4u64 != 0),
        avx512 == ((if r.leaf1.ecx & 0x0800_0000u32 != 0 { r.xcr0 } else { 0u64 }) & 0xE0u64
            == 0xE0u64),
    ensures
        feature_reported(feature_words(r), X86Feature::X87) == bit_set(r.leaf1.edx, 0u32),
        feature_reported(feature_words(r), X86Feature::Sse) == bit_set(r.leaf1.edx, 25u32),
        feature_reported(feature_words(r), X86Feature::Sse2) == bit_set(r.leaf1.edx, 26u32),
        feature_reported(feature_words(r), X86Feature::Cx8) == bit_set(r.leaf1.edx, 8u32),
        feature_reported(feature_words(r), X86Feature::Cmpxchg8b) == bit_set(r.leaf1.edx, 8u32),
        feature_reported(feature_words(r), X86Feature::Sse3) == bit_set(r.leaf1.ecx, 0u32),
        feature_reported(feature_words(r), X86Feature::Ssse3) == bit_set(r.leaf1.ecx, 9u32),
        feature_reported(feature_words(r), X86Feature::Sse41) == bit_set(r.leaf1.ecx, 19u32),
        feature_reported(feature_words(r), X86Feature::Sse42) == bit_set(r.leaf1.ecx, 20u32),
        feature_reported(feature_words(r), X86Feature::Xsave) == bit_set(r.leaf1.ecx, 27u32),
        feature_reported(feature_words(r), X86Feature::F16c) == bit_set(r.leaf1.ecx, 29u32),
        feature_reported(feature_words(r), X86Feature::Rdrand) == bit_set(r.leaf1.ecx, 30u32),
        feature_reported(feature_words(r), X86Feature::Cx16) == bit_set(r.leaf1.ecx, 13u32),
        feature_reported(feature_words(r), X86Feature::Cmpxchg16b) == bit_set(r.leaf1.ecx, 13u32),
        feature_reported(feature_words(r), X86Feature::Avx) == (avx && bit_set(r.leaf1.ecx, 28u32)),
        feature_reported(feature_words(r), X86Feature::Fsgsbase) == bit_set(r.leaf7_sub0.ebx, 0u32),
        feature_reported(feature_words(r), X86Feature::Erms) == bit_set(r.leaf7_sub0.ebx, 9u32),
        feature_reported(feature_words(r), X86Feature::Avx2) == (avx && bit_set(r.leaf7_sub0.ebx, 5u32)),
        feature_reported(feature_words(r), X86Feature::Avx512f) == (avx512 && bit_set(r.leaf7_sub0.ebx, 16u32)),
        feature_reported(feature_words(r), X86Feature::Avx512dq) == (avx512 && bit_set(r.leaf7_sub0.ebx, 17u32)),
        feature_reported(feature_words(r), X86Feature::Avx512bw) == (avx512 && bit_set(r.leaf7_sub0.ebx, 30u32)),
        feature_reported(feature_words(r), X86Feature::Avx512vl) == (avx512 && bit_set(r.leaf7_sub0.ebx, 31u32)),
        feature_reported(feature_words(r), X86Feature::Fsrm) == bit_set(r.leaf7_sub0.edx, 4u32),
        feature_reported(feature_words(r), X86Feature::Avx10) == (r.leaf7_sub0.eax >= 1
            && bit_set(r.leaf7_sub1.ebx, 19u32)),
{
    lemma_feature_table_from_registers(r);
    let w = feature_words(r);
    let (w0, w1, w3, w4) = (w[0], w[1], w[3], w[4]);
    let (ecx, edx, edx70, ebx70) = (r.leaf1.ecx, r.leaf1.edx, r.leaf7_sub0.edx, r.leaf7_sub0.ebx);
    assert(bit_set(w0, 0u32) == bit_set(ecx, 0u32) && bit_set(w0, 9u32) == bit_set(ecx, 9u32)
        && bit_set(w0, 13u32) == bit_set(ecx, 13u32) && bit_set(w0, 19u32) == bit_set(ecx, 19u32)
        && bit_set(w0, 20u32) == bit_set(ecx, 20u32) && bit_set(w0, 27u32) == bit_set(ecx, 27u32)
        && bit_set(w0, 29u32) == bit_set(ecx, 29u32) && bit_set(w0, 30u32) == bit_set(ecx, 30u32))
        by (bit_vector)
        requires
            w0 & !0x1000_0000u32 == ecx & !0x1000_0000u32,
    ;
    assert(bit_set(w0, 28u32) == (avx && bit_set(ecx, 28u32))) by (bit_vector)
        requires
            w0 & 0x1000_0000u32 == (if avx { ecx & 0x1000_0000u32 } else { 0u32 }),
    ;
    assert(!bit_set(0u32, 19u32)) by (bit_vector);
    assert(bit_set(w3, 4u32) == bit_set(edx70, 4u32)) by (bit_vector)
        requires
            w3 & !0x80_010Cu32 == edx70 & !0x80_010Cu32,
    ;
    assert(bit_set(w4, 0u32) == bit_set(ebx70, 0u32) && bit_set(w4, 9u32) == bit_set(ebx70, 9u32))
        by (bit_vector)
        requires
            w4 & !0xD423_0020u32 == ebx70 & !0xD423_0020u32,
    ;
    assert(bit_set(w4, 5u32) == (avx && bit_set(ebx70, 5u32))) by (bit_vector)
        requires
            w4 & 0x20u32 == (if avx { ebx70 & 0x20u32 } else { 0u32 }),
    ;
    assert(bit_set(w4, 16u32) == (avx512 && bit_set(ebx70, 16u32)) && bit_set(w4, 17u32) == (
    avx512 && bit_set(ebx70, 17u32)) && bit_set(w4, 30u32) == (avx512 && bit_set(ebx70, 30u32))
        && bit_set(w4, 31u32) == (avx512 && bit_set(ebx70, 31u32))) by (bit_vector)
        requires
            w4 & 0xD423_0000u32 == (if avx512 { ebx70 & 0xD423_0000u32 } else { 0u32 }),
    ;
}


/// A number that tells the known feature names apart: the length and the
/// last two characters.
spec fn name_key(s: Seq<char>) -> int {
    s.len() * 0x10000 + (s.last() as int) * 0x100 + (s[s.len() - 2] as int)
}

/// Each known name stands for its own feature (the `cmpxchg` names for the
/// `cx` features' bits, under names of their own).
pub proof fn lemma_feature_names()
    ensures
        spec_feature_from_name("x87"@) == Some(X86Feature::X87),
        spec_feature_from_name("sse"@) == Some(X86Feature::Sse),
        spec_feature_from_name("sse2"@) == Some(X86Feature::Sse2),
        spec_feature_from_name("sse3"@) == Some(X86Feature::Sse3),
        spec_feature_from_name("ssse3"@) == Some(X86Feature::Ssse3),
        spec_feature_from_name("sse4.1"@) == Some(X86Feature::Sse41),
        spec_feature_from_name("sse4.2"@) == Some(X86Feature::Sse42),
        spec_feature_from_name("xsave"@) == Some(X86Feature::Xsave),
        spec_feature_from_name("avx"@) == Some(X86Feature::Avx),
        spec_feature_from_name("f16c"@) == Some(X86Feature::F16c),
        spec_feature_from_name("rdrand"@) == Some(X86Feature::Rdrand),
        spec_feature_from_name("avx2"@) == Some(X86Feature::Avx2),
        spec_feature_from_name("fsgsbase"@) == Some(X86Feature::Fsgsbase),
        spec_feature_from_name("avx512f"@) == Some(X86Feature::Avx512f),
        spec_feature_from_name("erms"@) == Some(X86Feature::Erms),
        spec_feature_from_name("fsrm"@) == Some(X86Feature::Fsrm),
        spec_feature_from_name("avx10"@) == Some(X86Feature::Avx10),
        spec_feature_from_name("cx8"@) == Some(X86Feature::Cx8),
        spec_feature_from_name("cmpxchg8b"@) == Some(X86Feature::Cmpxchg8b),
        spec_feature_from_name("cx16"@) == Some(X86Feature::Cx16),
        spec_feature_from_name("cmpxchg16b"@) == Some(X86Feature::Cmpxchg16b),
        spec_feature_from_name("avx512dq"@) == Some(X86Feature::Avx512dq),
        spec_feature_from_name("avx512bw"@) == Some(X86Feature::Avx512bw),
        spec_feature_from_name("avx512vl"@) == Some(X86Feature::Avx512vl),
{
    reveal_strlit("x87");
    assert(name_key("x87"@) == 210744);
    reveal_strlit("sse");
    assert(name_key("sse"@) == 222579);
    reveal_strlit("sse2");
    assert(name_key("sse2"@) == 275045);
    reveal_strlit("sse3");
    assert(name_key("sse3"@) == 275301);
    reveal_strlit("ssse3");
    assert(name_key("ssse3"@) == 340837);
    reveal_strlit("sse4.1");
    assert(name_key("sse4.1"@) == 405806);
    reveal_strlit("sse4.2");
    assert(name_key("sse4.2"@) == 406062);
    reveal_strlit("xsave");
    assert(name_key("xsave"@) == 353654);
    reveal_strlit("avx");
    assert(name_key("avx"@) == 227446);
    reveal_strlit("f16c");
    assert(name_key("f16c"@) == 287542);
    reveal_strlit("rdrand");
    assert(name_key("rdrand"@) == 418926);
    reveal_strlit("avx2");
    assert(name_key("avx2"@) == 275064);
    reveal_strlit("fsgsbase");
    assert(name_key("fsgsbase"@) == 550259);
    reveal_strlit("avx512f");
    assert(name_key("avx512f"@) == 484914);
    reveal_strlit("erms");
    assert(name_key("erms"@) == 291693);
    reveal_strlit("fsrm");
    assert(name_key("fsrm"@) == 290162);
    reveal_strlit("avx10");
    assert(name_key("avx10"@) == 340017);
    reveal_strlit("cx8");
    assert(name_key("cx8"@) == 211064);
    reveal_strlit("cmpxchg8b");
    assert(name_key("cmpxchg8b"@) == 614968);
    reveal_strlit("cx16");
    assert(name_key("cx16"@) == 276017);
    reveal_strlit("cmpxchg16b");
    assert(name_key("cmpxchg16b"@) == 680502);
    reveal_strlit("avx512dq");
    assert(name_key("avx512dq"@) == 553316);
    reveal_strlit("avx512bw");
    assert(name_key("avx512bw"@) == 554850);
    reveal_strlit("avx512vl");
    assert(name_key("avx512vl"@) == 552054);
}

} // verus!
