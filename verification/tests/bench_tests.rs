use memops_bench::bench::{
    prepare_copy, prepare_fill, select_implementation, Implementation, Operation,
};
use memops_bench::detect::{DetectedFeatures, X86Feature};
use memops_bench::bench::CopyBuffers;
use memops_bench::supply::{BufferSupplier, Zeroed};

fn features(bits: &[(usize, u32)]) -> DetectedFeatures {
    let mut words = [0u32; 36];
    for &(i, b) in bits {
        words[i] |= 1 << b;
    }
    DetectedFeatures { words, built_in: vec![] }
}

#[test]
fn generic_is_always_selected() {
    let none = features(&[]);
    assert_eq!(
        select_implementation(Operation::Memcpy, "generic", &none),
        Some(Implementation::Generic)
    );
    assert_eq!(
        select_implementation(Operation::Memset, "generic", &none),
        Some(Implementation::Generic)
    );
}

#[test]
fn vector_implementations_need_features() {
    let none = features(&[]);
    for name in ["sse", "sse4", "avx", "avx512", "erms"] {
        assert_eq!(select_implementation(Operation::Memcpy, name, &none), None);
        assert_eq!(select_implementation(Operation::Memset, name, &none), None);
    }
    let all = features(&[(1, 26), (0, 0), (0, 28), (4, 16), (4, 30), (4, 9)]);
    assert_eq!(select_implementation(Operation::Memcpy, "sse", &all), Some(Implementation::Sse));
    assert_eq!(select_implementation(Operation::Memcpy, "avx", &all), Some(Implementation::Avx));
    assert_eq!(
        select_implementation(Operation::Memcpy, "avx512", &all),
        Some(Implementation::Avx512)
    );
    assert_eq!(select_implementation(Operation::Memcpy, "erms", &all), Some(Implementation::Erms));
    assert_eq!(select_implementation(Operation::Memset, "sse4", &all), Some(Implementation::Sse4));
    assert_eq!(
        select_implementation(Operation::Memset, "avx512", &all),
        Some(Implementation::Avx512)
    );
    assert_eq!(select_implementation(Operation::Memcpy, "unknown", &all), None);
}

#[test]
fn memset_has_no_implementation_named_sse() {
    let all = features(&[(1, 26), (0, 0), (0, 28), (4, 16), (4, 30), (4, 9)]);
    assert_eq!(select_implementation(Operation::Memset, "sse", &all), None);
    assert_eq!(select_implementation(Operation::Memcpy, "sse4", &all), None);
}

#[test]
fn memset_avx512_needs_avx512bw_too() {
    let f_only = features(&[(4, 16)]);
    assert_eq!(select_implementation(Operation::Memset, "avx512", &f_only), None);
    assert_eq!(
        select_implementation(Operation::Memcpy, "avx512", &f_only),
        Some(Implementation::Avx512)
    );
    let built = DetectedFeatures { words: [0; 36], built_in: vec![X86Feature::Avx512f, X86Feature::Avx512bw] };
    assert_eq!(
        select_implementation(Operation::Memset, "avx512", &built),
        Some(Implementation::Avx512)
    );
}

#[test]
fn prepared_buffers_and_generic_runs() {
    let supplier = Zeroed(37);
    let mut copy = prepare_copy(&supplier).unwrap();
    assert_eq!(copy.dest.len(), 37);
    assert_eq!(copy.src.len(), 37);
    copy.src[3] = 9;
    copy.run_generic();
    assert_eq!(copy.dest[3], 9);
    assert_eq!(copy.dest, copy.src);
    let mut fill = prepare_fill(&supplier).unwrap();
    assert_eq!(fill.dest.len(), 37);
    assert_eq!(fill.val, 0);
    fill.val = 0x155;
    fill.run_generic();
    assert!(fill.dest.iter().all(|&b| b == 0x55));
}

#[test]
fn prepared_zeroed_buffers_are_zero() {
    let supplier = Zeroed(5);
    let copy = prepare_copy(&&supplier).unwrap();
    assert_eq!(&*copy.dest, &[0u8; 5]);
    assert_eq!(&*copy.src, &[0u8; 5]);
    let fill = prepare_fill(&&supplier).unwrap();
    assert_eq!(&*fill.dest, &[0u8; 5]);
    assert_eq!(fill.val, 0);
}

#[test]
fn generic_copy_into_longer_destination() {
    let mut bufs = CopyBuffers {
        dest: vec![9u8; 6].into_boxed_slice(),
        src: vec![1u8, 2, 3].into_boxed_slice(),
    };
    bufs.run_generic();
    assert_eq!(&*bufs.dest, &[1, 2, 3, 9, 9, 9]);
    assert_eq!(&*bufs.src, &[1, 2, 3]);
}

#[test]
fn suppliers_behind_trait_objects() {
    let z = Zeroed(2);
    let d: &dyn BufferSupplier = &z;
    let copy = prepare_copy(&d).unwrap();
    assert_eq!(&*copy.dest, &[0u8, 0]);
    let fill = prepare_fill(&d).unwrap();
    assert_eq!(fill.val, 0);
}
