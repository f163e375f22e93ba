//! Portable byte routines (`memcpy`, `memmove`, `memset`, `memchr`,
//! `memcmp`) over slices, the baseline that the vectorised routines are
//! measured against.

use vstd::prelude::*;

verus! {

/// Bytes moved per step of the word loop of `__memcpy_generic`.
pub const WORD_BYTES: usize = 8;

/// `dest` after its first `n` bytes were replaced by the first `n` bytes of `src`.
pub open spec fn spec_memcpy(dest: Seq<u8>, src: Seq<u8>, n: int) -> Seq<u8> {
    Seq::new(dest.len(), |i: int| if i < n { src[i] } else { dest[i] })
}

/// `dest` after its first `n` bytes were set to `val` truncated to a byte.
pub open spec fn spec_memset(dest: Seq<u8>, val: i32, n: int) -> Seq<u8> {
    Seq::new(dest.len(), |i: int| if i < n { val as u8 } else { dest[i] })
}

/// `buf` after the `n` bytes at `src` were copied to `dest` as if through a
/// temporary buffer.
pub open spec fn spec_memmove(buf: Seq<u8>, dest: int, src: int, n: int) -> Seq<u8> {
    Seq::new(buf.len(), |i: int| if dest <= i < dest + n { buf[src + (i - dest)] } else { buf[i] })
}

/// `buf` after `k` steps of a front-to-back byte copy from `src` to `dest`:
/// step `j` writes the byte that then stands at `src + j` to `dest + j`.
pub open spec fn forward_copy(buf: Seq<u8>, dest: int, src: int, k: nat) -> Seq<u8>
    decreases k,
{
    if k == 0 {
        buf
    } else {
        let prev = forward_copy(buf, dest, src, (k - 1) as nat);
        prev.update(dest + k - 1, prev[src + k - 1])
    }
}

/// The comparison of `a[pos..n]` with `b[pos..n]`: the sign of the first
/// byte that differs, 0 where none does.
pub open spec fn compare_from(a: Seq<u8>, b: Seq<u8>, pos: int, n: int) -> int
    decreases n - pos,
{
    if pos >= n {
        0
    } else if a[pos] < b[pos] {
        -1
    } else if a[pos] > b[pos] {
        1
    } else {
        compare_from(a, b, pos + 1, n)
    }
}

/// The result of comparing the first `n` bytes of `a` and `b`.
pub open spec fn byte_order(a: Seq<u8>, b: Seq<u8>, n: usize) -> int {
    compare_from(a, b, 0, n as int)
}

/// The comparison of the bytes `pos..n` of `a` and `b`.
pub open spec fn order_from(a: Seq<u8>, b: Seq<u8>, pos: usize, n: usize) -> int {
    compare_from(a, b, pos as int, n as int)
}

/// What `__memchr_generic` returns: the first position below `n` that holds
/// `val` truncated to a byte, or `None` where no such position exists.
pub open spec fn memchr_result(src: Seq<u8>, val: i32, n: int, r: Option<usize>) -> bool {
    match r {
        Some(i) => {
            &&& i < n
            &&& src[i as int] == val as u8
            &&& forall|j: int| 0 <= j < i ==> src[j] != val as u8
        },
        None => forall|j: int| 0 <= j < n ==> src[j] != val as u8,
    }
}

/// Calls `<[u8]>::copy_from_slice`, which copies all of `src` into `dest`
/// in one move; the two slices must have the same length (it panics
/// otherwise).
#[verifier::external_body]
fn copy_chunk(dest: &mut [u8], src: &[u8])
    requires
        old(dest)@.len() == src@.len(),
    ensures
        final(dest)@ == src@,
{
    dest.copy_from_slice(src)
}

/// Copies the `width` bytes at offset `at` of `src` to the same offset of
/// `dest` as one move.
fn copy_block(dest: &mut [u8], src: &[u8], at: usize, width: usize)
    requires
        at + width <= old(dest)@.len(),
        at + width <= src@.len(),
    ensures
        final(dest)@.len() == old(dest)@.len(),
        forall|i: int|
            0 <= i < final(dest)@.len() ==> #[trigger] final(dest)@[i] == if at <= i < at + width {
                src@[i]
            } else {
                old(dest)@[i]
            },
{
    let (_, src_rest) = src.split_at(at);
    let (src_chunk, _) = src_rest.split_at(width);
    let (head, rest) = dest.split_at_mut(at);
    let (chunk, tail) = rest.split_at_mut(width);
    copy_chunk(chunk, src_chunk);
}

/// Copies the first `len` bytes of `src` into `dest`, a word at a time and
/// then in 4-, 2- and 1-byte steps for the tail.
pub fn __memcpy_generic(dest: &mut [u8], src: &[u8], len: usize)
    requires
        len <= old(dest)@.len(),
        len <= src@.len(),
    ensures
        final(dest)@ == spec_memcpy(old(dest)@, src@, len as int),
{
    let mut pos: usize = 0;
    let mut left: usize = len;
    while left >= WORD_BYTES
        invariant
            pos + left == len,
            len <= src@.len(),
            dest@.len() == old(dest)@.len(),
            len <= dest@.len(),
            forall|i: int|
                0 <= i < dest@.len() ==> #[trigger] dest@[i] == if i < pos {
                    src@[i]
                } else {
                    old(dest)@[i]
                },
        decreases left,
    {
        copy_block(dest, src, pos, WORD_BYTES);
        pos = pos + WORD_BYTES;
        left = left - WORD_BYTES;
    }
    if left >= 4 {
        copy_block(dest, src, pos, 4);
        pos = pos + 4;
        left = left - 4;
    }
    if left >= 2 {
        copy_block(dest, src, pos, 2);
        pos = pos + 2;
        left = left - 2;
    }
    if left == 1 {
        copy_block(dest, src, pos, 1);
        pos = pos + 1;
        left = left - 1;
    }
    assert(pos == len);
    assert(dest@ =~= spec_memcpy(old(dest)@, src@, len as int));
}


/// Copies `len` bytes from offset `src` to offset `dest` of `buf`, one byte
/// at a time from the front. Where the ranges overlap and `dest` lies after
/// `src`, bytes already written are read again (see `forward_copy`).
pub fn __memmove_generic(buf: &mut [u8], dest: usize, src: usize, len: usize)
    requires
        dest + len <= old(buf)@.len(),
        src + len <= old(buf)@.len(),
    ensures
        final(buf)@ == forward_copy(old(buf)@, dest as int, src as int, len as nat),
{
    let n = buf.len();
    let mut k: usize = 0;
    while k < len
        invariant
            n == buf@.len(),
            n == old(buf)@.len(),
            dest + len <= n,
            src + len <= n,
            k <= len,
            buf@ == forward_copy(old(buf)@, dest as int, src as int, k as nat),
        decreases len - k,
    {
        proof {
            lemma_forward_copy_len(old(buf)@, dest as int, src as int, k as nat);
        }
        let byte = buf[src + k];
        buf[dest + k] = byte;
        k = k + 1;
    }
}

/// A forward copy keeps the length of the buffer.
pub proof fn lemma_forward_copy_len(buf: Seq<u8>, dest: int, src: int, k: nat)
    requires
        0 <= dest,
        dest + k <= buf.len(),
    ensures
        forward_copy(buf, dest, src, k).len() == buf.len(),
    decreases k,
{
    if k > 0 {
        lemma_forward_copy_len(buf, dest, src, (k - 1) as nat);
    }
}

/// Sets the first `len` bytes of `dest` to `val` truncated to a byte.
pub fn __memset_generic(dest: &mut [u8], val: i32, len: usize)
    requires
        len <= old(dest)@.len(),
    ensures
        final(dest)@ == spec_memset(old(dest)@, val, len as int),
{
    let byte = val as u8;
    let mut k: usize = 0;
    while k < len
        invariant
            k <= len,
            len <= dest@.len(),
            byte == val as u8,
            dest@.len() == old(dest)@.len(),
            forall|i: int|
                0 <= i < dest@.len() ==> #[trigger] dest@[i] == if i < k {
                    byte
                } else {
                    old(dest)@[i]
                },
        decreases len - k,
    {
        dest[k] = byte;
        k = k + 1;
    }
    assert(dest@ =~= spec_memset(old(dest)@, val, len as int));
}

/// The position of the first of the first `len` bytes of `src` that equals
/// `val` truncated to a byte, `None` where there is no such byte.
pub fn __memchr_generic(src: &[u8], val: i32, len: usize) -> (r: Option<usize>)
    requires
        len <= src@.len(),
    ensures
        memchr_result(src@, val, len as int, r),
{
    let byte = val as u8;
    let mut k: usize = 0;
    while k < len
        invariant
            k <= len,
            len <= src@.len(),
            byte == val as u8,
            forall|j: int| 0 <= j < k ==> src@[j] != byte,
        decreases len - k,
    {
        if src[k] == byte {
            return Some(k);
        }
        k = k + 1;
    }
    None
}

/// Compares the first `len` bytes of `a` and `b`: -1 or 1 after the sign of
/// the first difference, as unsigned bytes, and 0 where they are equal.
pub fn __memcmp_generic(a: &[u8], b: &[u8], len: usize) -> (r: i32)
    requires
        len <= a@.len(),
        len <= b@.len(),
    ensures
        r == byte_order(a@, b@, len),
{
    let mut pos: usize = 0;
    while pos < len
        invariant
            pos <= len,
            len <= a@.len(),
            len <= b@.len(),
            byte_order(a@, b@, len) == order_from(a@, b@, pos, len),
        decreases len - pos,
    {
        let x = a[pos];
        let y = b[pos];
        if x < y {
            return -1;
        } else if x > y {
            return 1;
        }
        pos = pos + 1;
    }
    0
}


/// The state of `buf` after `k` forward steps, where no step reads a byte
/// that an earlier step wrote.
proof fn lemma_forward_copy_prefix(buf: Seq<u8>, dest: int, src: int, n: int, k: nat)
    requires
        0 <= dest,
        0 <= src,
        k <= n,
        dest + n <= buf.len(),
        src + n <= buf.len(),
        dest <= src || src + n <= dest,
    ensures
        forward_copy(buf, dest, src, k) == Seq::new(
            buf.len(),
            |i: int| if dest <= i < dest + k { buf[src + (i - dest)] } else { buf[i] },
        ),
    decreases k,
{
    if k > 0 {
        lemma_forward_copy_prefix(buf, dest, src, n, (k - 1) as nat);
        let prev = forward_copy(buf, dest, src, (k - 1) as nat);
        assert(prev[src + k - 1] == buf[src + k - 1]);
        assert(forward_copy(buf, dest, src, k) =~= Seq::new(
            buf.len(),
            |i: int| if dest <= i < dest + k { buf[src + (i - dest)] } else { buf[i] },
        ));
    }
}

/// The front-to-back copy of `__memmove_generic` moves the bytes as if
/// through a temporary buffer wherever the destination does not start inside
/// the source range after its first byte.
pub proof fn lemma_memmove_is_exact(buf: Seq<u8>, dest: int, src: int, n: int)
    requires
        0 <= dest,
        0 <= src,
        0 <= n,
        dest + n <= buf.len(),
        src + n <= buf.len(),
        dest <= src || src + n <= dest,
    ensures
        forward_copy(buf, dest, src, n as nat) == spec_memmove(buf, dest, src, n),
{
    lemma_forward_copy_prefix(buf, dest, src, n, n as nat);
    assert(forward_copy(buf, dest, src, n as nat) =~= spec_memmove(buf, dest, src, n));
}

/// The comparison is -1, 0 or 1.
proof fn lemma_compare_from_range(a: Seq<u8>, b: Seq<u8>, pos: int, n: int)
    ensures
        -1 <= compare_from(a, b, pos, n) <= 1,
    decreases n - pos,
{
    if pos < n {
        lemma_compare_from_range(a, b, pos + 1, n);
    }
}

/// Swapping the operands negates the comparison.
proof fn lemma_compare_from_antisymmetric(a: Seq<u8>, b: Seq<u8>, pos: int, n: int)
    ensures
        compare_from(a, b, pos, n) == -compare_from(b, a, pos, n),
    decreases n - pos,
{
    if pos < n {
        lemma_compare_from_antisymmetric(a, b, pos + 1, n);
    }
}

/// The comparison is 0 exactly where the compared bytes agree.
proof fn lemma_compare_from_zero(a: Seq<u8>, b: Seq<u8>, pos: int, n: int)
    requires
        0 <= pos,
    ensures
        (compare_from(a, b, pos, n) == 0) == (forall|i: int| pos <= i < n ==> a[i] == b[i]),
    decreases n - pos,
{
    if pos < n {
        lemma_compare_from_zero(a, b, pos + 1, n);
        if a[pos] == b[pos] {
            assert forall|i: int| pos <= i < n && (forall|j: int| pos + 1 <= j < n ==> a[j] == b[j])
                implies a[i] == b[i] by {
                if i > pos {
                    assert(pos + 1 <= i < n);
                }
            }
        }
    }
}

/// `memcmp` is -1, 0 or 1; swapping its operands negates it; and it is 0
/// exactly where the first `n` bytes agree.
pub proof fn lemma_byte_order(a: Seq<u8>, b: Seq<u8>, n: usize)
    ensures
        -1 <= byte_order(a, b, n) <= 1,
        byte_order(a, b, n) == -byte_order(b, a, n),
        (byte_order(a, b, n) == 0) == (forall|i: int| 0 <= i < n ==> a[i] == b[i]),
        byte_order(a, a, n) == 0,
{
    lemma_compare_from_range(a, b, 0, n as int);
    lemma_compare_from_antisymmetric(a, b, 0, n as int);
    lemma_compare_from_zero(a, b, 0, n as int);
    lemma_compare_from_zero(a, a, 0, n as int);
}

/// After copying `n` bytes of `src` into `dest`, the first `n` bytes of the
/// two compare equal.
pub proof fn lemma_copy_then_compare(dest: Seq<u8>, src: Seq<u8>, n: usize)
    requires
        n <= dest.len(),
        n <= src.len(),
    ensures
        byte_order(spec_memcpy(dest, src, n as int), src, n) == 0,
{
    lemma_compare_from_zero(spec_memcpy(dest, src, n as int), src, 0, n as int);
}

/// After setting `n > 0` bytes to `val`, searching the first `n` bytes for
/// `val` finds position 0, and every searched byte holds it.
pub proof fn lemma_set_then_search(dest: Seq<u8>, val: i32, n: usize, r: Option<usize>)
    requires
        0 < n <= dest.len(),
        memchr_result(spec_memset(dest, val, n as int), val, n as int, r),
    ensures
        r == Some(0usize),
        forall|i: int| 0 <= i < n ==> spec_memset(dest, val, n as int)[i] == val as u8,
{
    let s = spec_memset(dest, val, n as int);
    assert(s[0] == val as u8);
}

} // verus!
