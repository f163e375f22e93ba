use memops_bench::supply::{zeroed_slice, BufferSupplier, Random, Zeroed};

#[test]
fn zeroed_supplies_zero_buffers() {
    let z = Zeroed(100);
    let a = z.get().unwrap();
    let b = z.get().unwrap();
    assert_eq!(a.len(), 100);
    assert_eq!(b.len(), 100);
    assert!(a.iter().all(|&x| x == 0));
    assert_ne!(a.as_ptr(), b.as_ptr());
    assert_eq!(z.get_single_byte(), Ok(0));
    assert_eq!(Zeroed(0).get().unwrap().len(), 0);
}

#[test]
fn zeroed_slice_lengths() {
    assert_eq!(zeroed_slice(0).len(), 0);
    let s = zeroed_slice(257);
    assert_eq!(s.len(), 257);
    assert!(s.iter().all(|&x| x == 0));
}

#[test]
fn random_supplies_filled_buffers_of_one_length() {
    let r = Random(256);
    let a = r.get().unwrap();
    let b = r.get().unwrap();
    assert_eq!(a.len(), 256);
    assert_eq!(b.len(), 256);
    // 256 zero bytes from the random source would be a 2^-2048 event
    assert!(a.iter().any(|&x| x != 0));
    assert_ne!(a, b);
    assert_eq!(Random(0).get().unwrap().len(), 0);
}

#[test]
fn random_single_bytes_vary() {
    let r = Random(1);
    let bytes: Vec<u8> = (0..64).map(|_| r.get_single_byte().unwrap()).collect();
    assert!(bytes.iter().any(|&x| x != bytes[0]));
}

#[test]
fn suppliers_by_reference() {
    let z = Zeroed(8);
    let by_ref = &z;
    assert_eq!(by_ref.get().unwrap().len(), 8);
    assert_eq!(by_ref.get_single_byte(), Ok(0));
}

#[test]
fn empty_random_buffer_is_always_handed_out() {
    let r = Random(0);
    let by_ref = &r;
    assert_eq!(by_ref.get().unwrap().len(), 0);
}

#[test]
fn reference_forwards_to_supplier() {
    let z = Zeroed(4);
    let r = &z;
    assert_eq!(&*BufferSupplier::get(&r).unwrap(), &[0u8; 4]);
    let z3 = Zeroed(3);
    assert_eq!(BufferSupplier::get_single_byte(&&z3), Ok(0));
}
