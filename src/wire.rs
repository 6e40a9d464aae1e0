//! Little-endian field extraction and the length guards shared by every decoder.

use vstd::prelude::*;
use byteorder::{ByteOrder, LittleEndian};
use crate::error::EventError;

verus! {

/// The 16-bit little-endian integer stored at `b[i]`, `b[i + 1]`.
pub open spec fn le16(b: Seq<u8>, i: int) -> int {
    b[i] as int + 256 * b[i + 1] as int
}

/// The 32-bit little-endian integer stored at `b[i]` to `b[i + 3]`.
pub open spec fn le32(b: Seq<u8>, i: int) -> int {
    le16(b, i) + 65536 * le16(b, i + 2)
}

/// The 64-bit little-endian integer stored at `b[i]` to `b[i + 7]`.
pub open spec fn le64(b: Seq<u8>, i: int) -> int {
    le32(b, i) + 4294967296 * le32(b, i + 4)
}

/// Relies on byteorder's `LittleEndian::read_u16`: the integer whose low byte is the first of the
/// slice. It panics on fewer than two bytes, which `requires` leaves out.
#[verifier::external_body]
pub(crate) fn read_u16(buffer: &[u8], at: usize) -> (r: u16)
    requires
        at + 2 <= buffer@.len(),
    ensures
        r as int == le16(buffer@, at as int),
{
    LittleEndian::read_u16(&buffer[at..])
}

/// Relies on byteorder's `LittleEndian::read_u32`: the integer whose low byte is the first of the
/// slice. It panics on fewer than four bytes, which `requires` leaves out.
#[verifier::external_body]
pub(crate) fn read_u32(buffer: &[u8], at: usize) -> (r: u32)
    requires
        at + 4 <= buffer@.len(),
    ensures
        r as int == le32(buffer@, at as int),
{
    LittleEndian::read_u32(&buffer[at..])
}

/// Relies on byteorder's `LittleEndian::read_u64`: the integer whose low byte is the first of the
/// slice. It panics on fewer than eight bytes, which `requires` leaves out.
#[verifier::external_body]
pub(crate) fn read_u64(buffer: &[u8], at: usize) -> (r: u64)
    requires
        at + 8 <= buffer@.len(),
    ensures
        r as int == le64(buffer@, at as int),
{
    LittleEndian::read_u64(&buffer[at..])
}

/// The length error for a buffer that must be exactly `n` bytes long, if it is not.
pub open spec fn exact_len_error(b: Seq<u8>, n: usize) -> Option<EventError> {
    if b.len() != n {
        Some(EventError::BadLength(b.len() as usize, n))
    } else {
        None
    }
}

/// The length error for a buffer that must hold at least `n` bytes, if it does not.
pub open spec fn min_len_error(b: Seq<u8>, n: usize) -> Option<EventError> {
    if b.len() < n {
        Some(EventError::BadLength(b.len() as usize, n))
    } else {
        None
    }
}

/// The first of two checks that fails: `a` if it is an error, else `b`.
pub open spec fn first_error(a: Option<EventError>, b: Option<EventError>) -> Option<EventError> {
    if a is Some {
        a
    } else {
        b
    }
}

/// Checks that the buffer is exactly `n` bytes long.
pub(crate) fn require_len(buffer: &[u8], n: usize) -> (r: Result<(), EventError>)
    ensures
        r is Ok <==> exact_len_error(buffer@, n) is None,
        r matches Err(e) ==> exact_len_error(buffer@, n) == Some(e),
{
    if buffer.len() != n {
        Err(EventError::BadLength(buffer.len(), n))
    } else {
        Ok(())
    }
}

/// Checks that the buffer holds at least `n` bytes.
pub(crate) fn require_len_at_least(buffer: &[u8], n: usize) -> (r: Result<(), EventError>)
    ensures
        r is Ok <==> min_len_error(buffer@, n) is None,
        r matches Err(e) ==> min_len_error(buffer@, n) == Some(e),
{
    if buffer.len() < n {
        Err(EventError::BadLength(buffer.len(), n))
    } else {
        Ok(())
    }
}

/// `s` followed by zero bytes up to the length `n`, or the first `n` bytes of `s`.
pub open spec fn zero_padded(s: Seq<u8>, n: nat) -> Seq<u8> {
    Seq::new(n, |i: int| if i < s.len() { s[i] } else { 0u8 })
}

/// A fixed-capacity copy of `buffer[from..from + n]`, with the unused capacity zeroed.
pub(crate) fn copy_padded<const N: usize>(buffer: &[u8], from: usize, n: usize) -> (r: [u8; N])
    requires
        from + n <= buffer@.len(),
        from + n <= usize::MAX,
        n <= N,
    ensures
        r@ == zero_padded(buffer@.subrange(from as int, from + n), N as nat),
{
    let mut r = [0u8; N];
    let mut i: usize = 0;
    while i < n
        invariant
            i <= n,
            n <= N,
            from + n <= buffer@.len(),
            from + n <= usize::MAX,
            r@.len() == N,
            forall|j: int| 0 <= j < i ==> r@[j] == buffer@[from + j],
            forall|j: int| i <= j < N ==> r@[j] == 0,
        decreases n - i,
    {
        r[i] = buffer[from + i];
        i += 1;
    }
    assert(r@ =~= zero_padded(buffer@.subrange(from as int, from + n), N as nat));
    r
}

/// A copy of the `N` bytes of `buffer` that start at `from`.
pub(crate) fn copy_array<const N: usize>(buffer: &[u8], from: usize) -> (r: [u8; N])
    requires
        from + N <= buffer@.len(),
        from + N <= usize::MAX,
    ensures
        r@ == buffer@.subrange(from as int, from + N),
{
    let r: [u8; N] = copy_padded(buffer, from, N);
    assert(r@ =~= buffer@.subrange(from as int, from + N));
    r
}

} // verus!
