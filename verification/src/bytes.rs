//! Byte strings: joining, slicing and big-endian integers.

use vstd::prelude::*;

verus! {

/// Whether every byte is zero.
pub open spec fn all_zero(bytes: Seq<u8>) -> bool {
    forall|i: int| 0 <= i < bytes.len() ==> bytes[i] == 0
}

/// The four bytes of `n`, most significant first.
pub open spec fn u32_be(n: u32) -> Seq<u8> {
    seq![
        (n / 0x100_0000) as u8,
        (n / 0x1_0000 % 0x100) as u8,
        (n / 0x100 % 0x100) as u8,
        (n % 0x100) as u8,
    ]
}

/// The number that four bytes spell, most significant first.
pub open spec fn u32_of_be(bytes: Seq<u8>) -> int {
    bytes[0] * 0x100_0000 + bytes[1] * 0x1_0000 + bytes[2] * 0x100 + bytes[3]
}

/// The eight bytes of `n`, most significant first.
pub open spec fn u64_be(n: u64) -> Seq<u8> {
    u32_be((n / 0x1_0000_0000) as u32) + u32_be((n % 0x1_0000_0000) as u32)
}

/// Appends `tail` to `bytes`.
pub fn append(bytes: &mut Vec<u8>, tail: &[u8])
    ensures
        final(bytes)@ == old(bytes)@ + tail@,
{
    bytes.extend_from_slice(tail);
    assert(bytes@ =~= old(bytes)@ + tail@);
}

/// The 32 bytes of `bytes` that start at `at`.
pub fn array_32(bytes: &[u8], at: usize) -> (res: [u8; 32])
    requires
        at + 32 <= bytes@.len(),
    ensures
        res@ == bytes@.subrange(at as int, at + 32),
{
    let mut res: [u8; 32] = [0u8; 32];
    let len: usize = bytes.len();
    let mut i: usize = 0;
    while i < 32
        invariant
            i <= 32,
            at + 32 <= len,
            len == bytes@.len(),
            forall|j: int| 0 <= j < i ==> res@[j] == bytes@[at + j],
        decreases 32 - i,
    {
        res[i] = bytes[at + i];
        i = i + 1;
    }
    assert(res@ =~= bytes@.subrange(at as int, at + 32));
    res
}

/// Whether every byte of `bytes` is zero.
pub fn is_all_zero(bytes: &[u8]) -> (res: bool)
    ensures
        res == all_zero(bytes@),
{
    let mut i: usize = 0;
    while i < bytes.len()
        invariant
            i <= bytes@.len(),
            forall|j: int| 0 <= j < i ==> bytes@[j] == 0,
        decreases bytes@.len() - i,
    {
        if bytes[i] != 0 {
            return false;
        }
        i = i + 1;
    }
    true
}

/// Writes `n` in four bytes, most significant first.
pub fn encode_u32(n: u32) -> (res: [u8; 4])
    ensures
        res@ == u32_be(n),
{
    let res: [u8; 4] = [
        (n / 0x100_0000) as u8,
        (n / 0x1_0000 % 0x100) as u8,
        (n / 0x100 % 0x100) as u8,
        (n % 0x100) as u8,
    ];
    assert(res@ =~= u32_be(n));
    res
}

/// Reads four bytes as a number, most significant first.
pub fn decode_u32(bytes: &[u8; 4]) -> (res: u32)
    ensures
        res == u32_of_be(bytes@),
{
    bytes[0] as u32 * 0x100_0000 + bytes[1] as u32 * 0x1_0000 + bytes[2] as u32 * 0x100
        + bytes[3] as u32
}

/// Writing a number and reading it back gives the number.
pub proof fn u32_be_reads_back(n: u32)
    ensures
        u32_be(n).len() == 4,
        u32_of_be(u32_be(n)) == n,
{
}

/// Different numbers are written differently.
pub proof fn u64_be_is_injective(m: u64, n: u64)
    requires
        u64_be(m) == u64_be(n),
    ensures
        m == n,
{
    let mh = (m / 0x1_0000_0000) as u32;
    let nh = (n / 0x1_0000_0000) as u32;
    let ml = (m % 0x1_0000_0000) as u32;
    let nl = (n % 0x1_0000_0000) as u32;
    assert(u32_be(mh) =~= u64_be(m).subrange(0, 4));
    assert(u32_be(nh) =~= u64_be(n).subrange(0, 4));
    assert(u32_be(ml) =~= u64_be(m).subrange(4, 8));
    assert(u32_be(nl) =~= u64_be(n).subrange(4, 8));
    u32_be_reads_back(mh);
    u32_be_reads_back(nh);
    u32_be_reads_back(ml);
    u32_be_reads_back(nl);
}

} // verus!
