//! CRC-32 (reflected, polynomial 0xEDB88320, init and final xor 0xFFFFFFFF),
//! the checksum that guards every frame of the wire format.
//!
//! The bit-by-bit definition below is the algorithm itself; the executable
//! function is proved to compute exactly this definition.

use vstd::prelude::*;

verus! {

/// One shift-and-conditional-xor round of the reflected CRC-32 polynomial.
pub open spec fn crc32_bit_step(crc: u32) -> u32 {
    if crc & 1 == 1 {
        (crc >> 1) ^ 0xEDB88320u32
    } else {
        crc >> 1
    }
}

/// `n` rounds of `crc32_bit_step`.
pub open spec fn crc32_bit_steps(crc: u32, n: nat) -> u32
    decreases n,
{
    if n == 0 {
        crc
    } else {
        crc32_bit_step(crc32_bit_steps(crc, (n - 1) as nat))
    }
}

/// Folding one byte into the running remainder: xor it in, then eight rounds.
pub open spec fn crc32_feed_byte(crc: u32, b: u8) -> u32 {
    crc32_bit_steps(crc ^ (b as u32), 8)
}

/// Folding a whole byte sequence into the running remainder, first byte first.
pub open spec fn crc32_feed(crc: u32, s: Seq<u8>) -> u32
    decreases s.len(),
{
    if s.len() == 0 {
        crc
    } else {
        crc32_feed_byte(crc32_feed(crc, s.drop_last()), s.last())
    }
}

/// The CRC-32 of a byte sequence.
pub open spec fn spec_crc32(s: Seq<u8>) -> u32 {
    crc32_feed(0xFFFFFFFFu32, s) ^ 0xFFFFFFFFu32
}

/// Computes the CRC-32 of `data`.
pub fn crc32(data: &[u8]) -> (r: u32)
    ensures
        r == spec_crc32(data@),
{
    let mut crc: u32 = 0xFFFFFFFF;
    let mut i: usize = 0;
    while i < data.len()
        invariant
            i <= data@.len(),
            crc == crc32_feed(0xFFFFFFFFu32, data@.take(i as int)),
        decreases data@.len() - i,
    {
        let b = data[i];
        let ghost fed = crc;
        crc = crc ^ (b as u32);
        let mut k: usize = 0;
        let ghost start = crc;
        while k < 8
            invariant
                k <= 8,
                crc == crc32_bit_steps(start, k as nat),
            decreases 8 - k,
        {
            if crc & 1 == 1 {
                crc = (crc >> 1) ^ 0xEDB88320;
            } else {
                crc = crc >> 1;
            }
            k = k + 1;
        }
        proof {
            assert(crc == crc32_feed_byte(fed, b));
            assert(data@.take(i + 1).drop_last() =~= data@.take(i as int));
            assert(data@.take(i + 1).last() == data@[i as int]);
        }
        i = i + 1;
    }
    proof {
        assert(data@.take(data@.len() as int) =~= data@);
    }
    crc ^ 0xFFFFFFFF
}

} // verus!
