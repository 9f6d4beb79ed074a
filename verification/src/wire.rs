//! Readers for the scalar fields of a kernel record.
//!
//! A buffer is read as if it went on for ever with zero bytes: the kernel may
//! write less than a record's full size, and what it did not write reads as
//! zero. Multi-byte fields are little-endian, the byte order of every host
//! the kernel runs on.

use vstd::prelude::*;

verus! {

/// The byte at position `at`, zero outside the buffer.
pub open spec fn byte_at(b: Seq<u8>, at: int) -> u8 {
    if 0 <= at < b.len() {
        b[at]
    } else {
        0
    }
}

/// The unsigned 16-bit field that starts at `at`.
pub open spec fn u16_at(b: Seq<u8>, at: int) -> u16 {
    (byte_at(b, at) + 0x100 * byte_at(b, at + 1)) as u16
}

/// The unsigned 32-bit field that starts at `at`.
pub open spec fn u32_at(b: Seq<u8>, at: int) -> u32 {
    (u16_at(b, at) + 0x1_0000 * u16_at(b, at + 2)) as u32
}

/// The unsigned 64-bit field that starts at `at`.
pub open spec fn u64_at(b: Seq<u8>, at: int) -> u64 {
    (u32_at(b, at) + 0x1_0000_0000 * u32_at(b, at + 4)) as u64
}

/// The signed 8-bit field at `at`, in two's complement.
pub open spec fn i8_at(b: Seq<u8>, at: int) -> i8 {
    let v = byte_at(b, at);
    if v < 0x80 {
        v as i8
    } else {
        (v - 0x100) as i8
    }
}

/// The signed 16-bit field that starts at `at`, in two's complement.
pub open spec fn i16_at(b: Seq<u8>, at: int) -> i16 {
    let v = u16_at(b, at);
    if v < 0x8000 {
        v as i16
    } else {
        (v - 0x1_0000) as i16
    }
}

/// The signed 32-bit field that starts at `at`, in two's complement.
pub open spec fn i32_at(b: Seq<u8>, at: int) -> i32 {
    let v = u32_at(b, at);
    if v < 0x8000_0000 {
        v as i32
    } else {
        (v - 0x1_0000_0000) as i32
    }
}

/// The signed 64-bit field that starts at `at`, in two's complement.
pub open spec fn i64_at(b: Seq<u8>, at: int) -> i64 {
    let v = u64_at(b, at);
    if v < 0x8000_0000_0000_0000 {
        v as i64
    } else {
        (v - 0x1_0000_0000_0000_0000) as i64
    }
}

/// The `n` bytes that start at `at`.
pub open spec fn u8s_at(b: Seq<u8>, at: int, n: nat) -> Seq<u8> {
    Seq::new(n, |k: int| byte_at(b, at + k))
}

/// The `n` signed bytes that start at `at`.
pub open spec fn i8s_at(b: Seq<u8>, at: int, n: nat) -> Seq<i8> {
    Seq::new(n, |k: int| i8_at(b, at + k))
}

/// The array whose elements are those of `s`, where `s` has `N` of them.
pub open spec fn array_of<T: Copy, const N: usize>(s: Seq<T>) -> [T; N] {
    choose|a: [T; N]| a@ == s
}

/// An array that agrees with `s` in its first `k` places.
spec fn filled<T: Copy, const N: usize>(s: Seq<T>, k: nat) -> [T; N]
    decreases k,
{
    if k == 0 {
        vstd::array::spec_array_fill_for_copy_type::<T, N>(arbitrary())
    } else {
        vstd::array::spec_array_update(filled::<T, N>(s, (k - 1) as nat), k - 1, s[k - 1])
    }
}

proof fn lemma_filled<T: Copy, const N: usize>(s: Seq<T>, k: nat)
    requires
        s.len() == N,
        k <= N,
    ensures
        forall|j: int| 0 <= j < k ==> filled::<T, N>(s, k)@[j] == s[j],
    decreases k,
{
    if k > 0 {
        lemma_filled::<T, N>(s, (k - 1) as nat);
    }
}

/// `array_of` is the array with the given elements: its view is `s`.
pub proof fn lemma_array_of<T: Copy, const N: usize>(s: Seq<T>)
    requires
        s.len() == N,
    ensures
        array_of::<T, N>(s)@ == s,
{
    let w = filled::<T, N>(s, N as nat);
    lemma_filled::<T, N>(s, N as nat);
    assert(w@ =~= s);
}

/// An array is the `array_of` its own elements.
pub proof fn lemma_array_of_view<T: Copy, const N: usize>(a: [T; N])
    ensures
        array_of::<T, N>(a@) == a,
{
    let c = array_of::<T, N>(a@);
    assert(c@ == a@);
    assert(c =~= a);
}

/// Past the end of a buffer every field reads as zero.
pub proof fn lemma_zero_past_end(b: Seq<u8>, at: int)
    requires
        b.len() <= at,
    ensures
        byte_at(b, at) == 0,
        u16_at(b, at) == 0,
        u32_at(b, at) == 0,
        u64_at(b, at) == 0,
        i8_at(b, at) == 0,
        i16_at(b, at) == 0,
        i32_at(b, at) == 0,
        i64_at(b, at) == 0,
{
}

/// A buffer reads the same with zero bytes added at its end: it makes no
/// difference whether the kernel wrote zeros or stopped writing.
pub proof fn lemma_zero_padding(b: Seq<u8>, n: nat, at: int)
    ensures
        byte_at(b + Seq::new(n, |k: int| 0u8), at) == byte_at(b, at),
        u16_at(b + Seq::new(n, |k: int| 0u8), at) == u16_at(b, at),
        u32_at(b + Seq::new(n, |k: int| 0u8), at) == u32_at(b, at),
        u64_at(b + Seq::new(n, |k: int| 0u8), at) == u64_at(b, at),
        i8_at(b + Seq::new(n, |k: int| 0u8), at) == i8_at(b, at),
        i16_at(b + Seq::new(n, |k: int| 0u8), at) == i16_at(b, at),
        i32_at(b + Seq::new(n, |k: int| 0u8), at) == i32_at(b, at),
        i64_at(b + Seq::new(n, |k: int| 0u8), at) == i64_at(b, at),
{
    let padded = b + Seq::new(n, |k: int| 0u8);
    assert(forall|k: int| byte_at(padded, k) == byte_at(b, k));
}

/// Reads the byte `k` places after `at`.
pub fn read_byte(b: &[u8], at: usize, k: usize) -> (r: u8)
    ensures
        r == byte_at(b@, at + k),
{
    if at < b.len() && k < b.len() - at {
        b[at + k]
    } else {
        0
    }
}

/// Reads the unsigned 8-bit field at `at`.
pub fn read_u8(b: &[u8], at: usize) -> (r: u8)
    ensures
        r == byte_at(b@, at as int),
{
    read_byte(b, at, 0)
}

/// Reads the unsigned 16-bit field that starts at `at`.
pub fn read_u16(b: &[u8], at: usize) -> (r: u16)
    ensures
        r == u16_at(b@, at as int),
{
    let lo: u16 = read_byte(b, at, 0) as u16;
    let hi: u16 = read_byte(b, at, 1) as u16;
    lo + 0x100 * hi
}

/// Reads the unsigned 32-bit field that starts at `at`.
pub fn read_u32(b: &[u8], at: usize) -> (r: u32)
    ensures
        r == u32_at(b@, at as int),
{
    let b0: u32 = read_byte(b, at, 0) as u32;
    let b1: u32 = read_byte(b, at, 1) as u32;
    let b2: u32 = read_byte(b, at, 2) as u32;
    let b3: u32 = read_byte(b, at, 3) as u32;
    (b0 + 0x100 * b1) + 0x1_0000 * (b2 + 0x100 * b3)
}

/// Reads the unsigned 64-bit field that starts at `at`.
pub fn read_u64(b: &[u8], at: usize) -> (r: u64)
    ensures
        r == u64_at(b@, at as int),
{
    let b0: u64 = read_byte(b, at, 0) as u64;
    let b1: u64 = read_byte(b, at, 1) as u64;
    let b2: u64 = read_byte(b, at, 2) as u64;
    let b3: u64 = read_byte(b, at, 3) as u64;
    let b4: u64 = read_byte(b, at, 4) as u64;
    let b5: u64 = read_byte(b, at, 5) as u64;
    let b6: u64 = read_byte(b, at, 6) as u64;
    let b7: u64 = read_byte(b, at, 7) as u64;
    let lo: u64 = (b0 + 0x100 * b1) + 0x1_0000 * (b2 + 0x100 * b3);
    let hi: u64 = (b4 + 0x100 * b5) + 0x1_0000 * (b6 + 0x100 * b7);
    lo + 0x1_0000_0000 * hi
}

/// Reads the signed 8-bit field `k` places after `at`.
pub fn read_i8(b: &[u8], at: usize, k: usize) -> (r: i8)
    ensures
        r == i8_at(b@, at + k),
{
    let v: u8 = read_byte(b, at, k);
    if v < 0x80 {
        v as i8
    } else {
        (v - 0x80) as i8 + i8::MIN
    }
}

/// Reads the signed 16-bit field that starts at `at`.
pub fn read_i16(b: &[u8], at: usize) -> (r: i16)
    ensures
        r == i16_at(b@, at as int),
{
    let v: u16 = read_u16(b, at);
    if v < 0x8000 {
        v as i16
    } else {
        (v - 0x8000) as i16 + i16::MIN
    }
}

/// Reads the signed 32-bit field that starts at `at`.
pub fn read_i32(b: &[u8], at: usize) -> (r: i32)
    ensures
        r == i32_at(b@, at as int),
{
    let v: u32 = read_u32(b, at);
    if v < 0x8000_0000 {
        v as i32
    } else {
        (v - 0x8000_0000) as i32 + i32::MIN
    }
}

/// Reads the signed 64-bit field that starts at `at`.
pub fn read_i64(b: &[u8], at: usize) -> (r: i64)
    ensures
        r == i64_at(b@, at as int),
{
    let v: u64 = read_u64(b, at);
    if v < 0x8000_0000_0000_0000 {
        v as i64
    } else {
        (v - 0x8000_0000_0000_0000) as i64 + i64::MIN
    }
}

/// Reads the `N` bytes that start at `at`.
pub fn read_u8_array<const N: usize>(b: &[u8], at: usize) -> (r: [u8; N])
    ensures
        r@ == u8s_at(b@, at as int, N as nat),
        r == array_of::<u8, N>(u8s_at(b@, at as int, N as nat)),
{
    let mut r: [u8; N] = [0u8; N];
    let mut k: usize = 0;
    while k < N
        invariant
            k <= N,
            r@.len() == N,
            forall|j: int| 0 <= j < k ==> r@[j] == byte_at(b@, at + j),
        decreases N - k,
    {
        r[k] = read_byte(b, at, k);
        k = k + 1;
    }
    proof {
        assert(r@ =~= u8s_at(b@, at as int, N as nat));
        lemma_array_of_view::<u8, N>(r);
    }
    r
}

/// Reads the `N` signed bytes that start at `at`.
pub fn read_i8_array<const N: usize>(b: &[u8], at: usize) -> (r: [i8; N])
    ensures
        r@ == i8s_at(b@, at as int, N as nat),
        r == array_of::<i8, N>(i8s_at(b@, at as int, N as nat)),
{
    let mut r: [i8; N] = [0i8; N];
    let mut k: usize = 0;
    while k < N
        invariant
            k <= N,
            r@.len() == N,
            forall|j: int| 0 <= j < k ==> r@[j] == i8_at(b@, at + j),
        decreases N - k,
    {
        r[k] = read_i8(b, at, k);
        k = k + 1;
    }
    proof {
        assert(r@ =~= i8s_at(b@, at as int, N as nat));
        lemma_array_of_view::<i8, N>(r);
    }
    r
}

} // verus!
