//! Suppliers of the buffers that a benchmark run works on: zero-filled or
//! filled from the operating system's random source.

use vstd::prelude::*;

verus! {

/// The error type of `getrandom`, carried through as an opaque value.
#[verifier::external_type_specification]
#[verifier::external_body]
pub struct ExRandomError(getrandom::Error);

/// Why a supplier could not hand out a buffer.
#[derive(Clone, Copy, Debug, PartialEq, Eq, Structural)]
pub enum SupplyError {
    /// The operating system's random source failed.
    RandomSourceFailed,
}

/// Calls `getrandom::fill`, which overwrites `dest` with random bytes.
/// Claimed: the slice keeps its length, and an empty slice is always
/// filled successfully (the crate returns `Ok` without asking the OS).
/// Not claimed: which bytes were written; on an error the contents are
/// unspecified.
#[verifier::external_body]
fn fill_random(dest: &mut [u8]) -> (r: Result<(), getrandom::Error>)
    ensures
        final(dest)@.len() == old(dest)@.len(),
        old(dest)@.len() == 0 ==> r is Ok,
{
    getrandom::fill(dest)
}

/// Calls `Vec::into_boxed_slice`, which keeps the elements in order.
#[verifier::external_body]
fn into_boxed(v: Vec<u8>) -> (b: Box<[u8]>)
    ensures
        b@ == v@,
{
    v.into_boxed_slice()
}

/// A vector of `len` zero bytes.
fn zeroed_vec(len: usize) -> (v: Vec<u8>)
    ensures
        v@ == Seq::new(len as nat, |i: int| 0u8),
{
    let mut v: Vec<u8> = Vec::with_capacity(len);
    let mut k: usize = 0;
    while k < len
        invariant
            k <= len,
            v@ == Seq::new(k as nat, |i: int| 0u8),
        decreases len - k,
    {
        v.push(0);
        k = k + 1;
        assert(v@ =~= Seq::new(k as nat, |i: int| 0u8));
    }
    v
}

/// A boxed slice of `len` zero bytes.
pub fn zeroed_slice(len: usize) -> (b: Box<[u8]>)
    ensures
        b@ == Seq::new(len as nat, |i: int| 0u8),
{
    into_boxed(zeroed_vec(len))
}

/// A source of equally long buffers, and of single bytes, for a benchmark
/// run. Every buffer that one supplier hands out has the same length, and
/// each call returns a buffer of its own.
pub trait BufferSupplier {
    /// The length of every buffer that this supplier hands out.
    spec fn buffer_len(&self) -> nat;

    /// The buffer that `get` is sure to hand out, where the supplier fixes
    /// it in advance; `None` where it depends on something outside.
    spec fn known_buffer(&self) -> Option<Seq<u8>>;

    /// The byte that `get_single_byte` is sure to hand out, where the
    /// supplier fixes it in advance; `None` where it depends on something
    /// outside.
    spec fn known_byte(&self) -> Option<u8>;

    /// A fresh buffer of `buffer_len()` bytes: the known buffer where there
    /// is one.
    fn get(&self) -> (r: Result<Box<[u8]>, SupplyError>)
        ensures
            r matches Ok(b) ==> b@.len() == self.buffer_len(),
            self.known_buffer() matches Some(c) ==> (r matches Ok(b) && b@ == c),
    ;

    /// A single byte, used as the fill value of `memset`: the known byte
    /// where there is one.
    fn get_single_byte(&self) -> (r: Result<u8, SupplyError>)
        ensures
            self.known_byte() matches Some(v) ==> r == Ok::<u8, SupplyError>(v),
    ;
}

impl<B: BufferSupplier + ?Sized> BufferSupplier for &B {
    open spec fn buffer_len(&self) -> nat {
        (**self).buffer_len()
    }

    open spec fn known_buffer(&self) -> Option<Seq<u8>> {
        (**self).known_buffer()
    }

    open spec fn known_byte(&self) -> Option<u8> {
        (**self).known_byte()
    }

    /// Hands out what the referenced supplier's `get` returns.
    fn get(&self) -> (r: Result<Box<[u8]>, SupplyError>)
        ensures
            call_ensures(B::get, (*self,), r),
    {
        (**self).get()
    }

    /// Hands out what the referenced supplier's `get_single_byte` returns.
    fn get_single_byte(&self) -> (r: Result<u8, SupplyError>)
        ensures
            call_ensures(B::get_single_byte, (*self,), r),
    {
        (**self).get_single_byte()
    }
}

/// Hands out zero-filled buffers of the given length, and the byte 0.
pub struct Zeroed(pub usize);

impl BufferSupplier for Zeroed {
    open spec fn buffer_len(&self) -> nat {
        self.0 as nat
    }

    open spec fn known_buffer(&self) -> Option<Seq<u8>> {
        Some(Seq::new(self.0 as nat, |i: int| 0u8))
    }

    open spec fn known_byte(&self) -> Option<u8> {
        Some(0u8)
    }

    fn get(&self) -> (r: Result<Box<[u8]>, SupplyError>)
        ensures
            r matches Ok(b) && b@ == Seq::new(self.0 as nat, |i: int| 0u8),
    {
        Ok(zeroed_slice(self.0))
    }

    fn get_single_byte(&self) -> (r: Result<u8, SupplyError>)
        ensures
            r == Ok::<u8, SupplyError>(0u8),
    {
        Ok(0)
    }
}

/// Hands out buffers of the given length filled from the operating system's
/// random source, and random single bytes.
pub struct Random(pub usize);

impl BufferSupplier for Random {
    open spec fn buffer_len(&self) -> nat {
        self.0 as nat
    }

    /// Only the empty buffer is known in advance.
    open spec fn known_buffer(&self) -> Option<Seq<u8>> {
        if self.0 == 0 {
            Some(Seq::<u8>::empty())
        } else {
            None
        }
    }

    open spec fn known_byte(&self) -> Option<u8> {
        None
    }

    fn get(&self) -> (r: Result<Box<[u8]>, SupplyError>)
        ensures
            self.0 == 0 ==> (r matches Ok(b) && b@.len() == 0),
            r matches Err(e) ==> e == SupplyError::RandomSourceFailed,
    {
        let mut buffer = zeroed_vec(self.0);
        match fill_random(buffer.as_mut_slice()) {
            Ok(()) => {
                assert(self.0 == 0 ==> buffer@ =~= Seq::<u8>::empty());
                Ok(into_boxed(buffer))
            },
            Err(_) => Err(SupplyError::RandomSourceFailed),
        }
    }

    fn get_single_byte(&self) -> (r: Result<u8, SupplyError>)
        ensures
            r matches Err(e) ==> e == SupplyError::RandomSourceFailed,
    {
        let mut byte: Vec<u8> = Vec::new();
        byte.push(0);
        match fill_random(byte.as_mut_slice()) {
            Ok(()) => Ok(byte[0]),
            Err(_) => Err(SupplyError::RandomSourceFailed),
        }
    }
}

} // verus!
