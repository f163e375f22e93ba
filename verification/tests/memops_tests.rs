use memops_bench::memops::{
    __memchr_generic, __memcmp_generic, __memcpy_generic, __memmove_generic, __memset_generic,
};

#[test]
fn memcpy_all_tail_sizes() {
    for len in 0..40usize {
        let src: Vec<u8> = (0..48u8).map(|i| i.wrapping_mul(7).wrapping_add(1)).collect();
        let mut dest = vec![0xAAu8; 48];
        __memcpy_generic(&mut dest, &src, len);
        assert_eq!(&dest[..len], &src[..len]);
        assert!(dest[len..].iter().all(|&b| b == 0xAA));
    }
}

#[test]
fn memcpy_then_memcmp_is_zero() {
    let src = [9u8, 8, 7, 6, 5, 4, 3, 2, 1, 0, 250];
    let mut dest = [0u8; 11];
    __memcpy_generic(&mut dest, &src, 11);
    assert_eq!(__memcmp_generic(&dest, &src, 11), 0);
}

#[test]
fn memmove_disjoint_and_backward_overlap() {
    let mut buf = [1u8, 2, 3, 4, 5, 6, 7, 8];
    __memmove_generic(&mut buf, 4, 0, 3);
    assert_eq!(buf, [1, 2, 3, 4, 1, 2, 3, 8]);
    let mut buf = [1u8, 2, 3, 4, 5, 6, 7, 8];
    __memmove_generic(&mut buf, 0, 2, 5);
    assert_eq!(buf, [3, 4, 5, 6, 7, 6, 7, 8]);
    let mut buf = [1u8, 2, 3];
    __memmove_generic(&mut buf, 1, 1, 2);
    assert_eq!(buf, [1, 2, 3]);
}

#[test]
fn memmove_forward_overlap_repeats_bytes() {
    // the copy runs front to back, so a destination after the source
    // rereads bytes it already wrote
    let mut buf = [1u8, 2, 3, 4, 5];
    __memmove_generic(&mut buf, 1, 0, 4);
    assert_eq!(buf, [1, 1, 1, 1, 1]);
}

#[test]
fn memset_truncates_value() {
    let mut dest = [7u8; 6];
    __memset_generic(&mut dest, 0x1FF, 4);
    assert_eq!(dest, [0xFF, 0xFF, 0xFF, 0xFF, 7, 7]);
    __memset_generic(&mut dest, -1, 6);
    assert_eq!(dest, [0xFF; 6]);
    __memset_generic(&mut dest, 0, 0);
    assert_eq!(dest, [0xFF; 6]);
}

#[test]
fn memset_then_memchr_finds_first() {
    let mut dest = [3u8; 10];
    __memset_generic(&mut dest, 42, 5);
    assert_eq!(__memchr_generic(&dest, 42, 10), Some(0));
}

#[test]
fn memchr_cases() {
    let s = [5u8, 1, 9, 1, 0];
    assert_eq!(__memchr_generic(&s, 1, 5), Some(1));
    assert_eq!(__memchr_generic(&s, 0, 4), None);
    assert_eq!(__memchr_generic(&s, 0, 5), Some(4));
    assert_eq!(__memchr_generic(&s, 0x109, 5), Some(2));
    assert_eq!(__memchr_generic(&s, 5, 0), None);
}

#[test]
fn memcmp_cases() {
    let a = [1u8, 2, 3, 200];
    let b = [1u8, 2, 4, 0];
    assert_eq!(__memcmp_generic(&a, &b, 2), 0);
    assert_eq!(__memcmp_generic(&a, &b, 4), -1);
    assert_eq!(__memcmp_generic(&b, &a, 4), 1);
    let c = [1u8, 2, 3, 100];
    assert_eq!(__memcmp_generic(&a, &c, 4), 1);
    assert_eq!(__memcmp_generic(&a, &a, 4), 0);
    assert_eq!(__memcmp_generic(&a, &b, 0), 0);
}
