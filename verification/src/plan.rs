//! Pure planning of flash operations: splitting a write into page-bounded
//! chunks and decomposing a byte range into the minimal covering set of
//! aligned sectors. The drivers and the host transport both follow these
//! plans, so the coverage laws proved here hold of the calls they make.

use vstd::prelude::*;
use vstd::arithmetic::div_mod::{
    lemma_fundamental_div_mod, lemma_mod_multiples_basic, lemma_mod_add_multiples_vanish,
    lemma_mod_decreases,
};

verus! {

/// One contiguous piece of a planned write.
#[derive(Debug, Clone, Copy, PartialEq, Eq, Structural)]
pub struct WriteChunk {
    /// First byte address of the chunk.
    pub addr: u32,
    /// Number of bytes in the chunk.
    pub len: u32,
}

/// Whether `chunks` covers exactly `[address, address + len)`, in address
/// order, with no gaps and no overlaps, each chunk non-empty and none
/// crossing a `unit` boundary.
pub open spec fn spec_chunks_cover(chunks: Seq<WriteChunk>, address: int, len: int, unit: int) -> bool {
    &&& (len == 0 <==> chunks.len() == 0)
    &&& (chunks.len() > 0 ==> chunks[0].addr == address)
    &&& (chunks.len() > 0 ==> chunks.last().addr + chunks.last().len == address + len)
    &&& (forall|i: int|
        0 <= i < chunks.len() - 1 ==> #[trigger] chunks[i + 1].addr == chunks[i].addr
            + chunks[i].len)
    &&& (forall|i: int| 0 <= i < chunks.len() ==> #[trigger] chunks[i].len > 0)
    &&& (forall|i: int|
        0 <= i < chunks.len() ==> #[trigger] (chunks[i].addr as int) % unit + chunks[i].len <= unit)
    &&& (forall|i: int|
        0 <= i < chunks.len() ==> address <= #[trigger] chunks[i].addr && chunks[i].addr
            + chunks[i].len <= address + len)
}

/// Splits the byte range `[address, address + len)` into the chunks of at
/// most one `unit` each that a unit-bounded operation (a page program, a
/// packet payload) allows: the chunks are in address order, cover the range
/// exactly with no gaps or overlaps, and none crosses a `unit` boundary.
pub fn plan_chunks(address: u32, len: u32, unit: u32) -> (chunks: Vec<WriteChunk>)
    requires
        unit > 0,
        address + len <= u32::MAX,
    ensures
        spec_chunks_cover(chunks@, address as int, len as int, unit as int),
{
    let mut chunks: Vec<WriteChunk> = Vec::new();
    let end = address + len;
    let mut cur = address;
    while cur < end
        invariant
            unit > 0,
            address <= cur <= end,
            end == address + len,
            cur < end ==> chunks@.len() > 0 ==> chunks@.last().addr + chunks@.last().len == cur,
            cur == address ==> chunks@.len() == 0,
            cur > address ==> chunks@.len() > 0,
            chunks@.len() > 0 ==> chunks@[0].addr == address,
            chunks@.len() > 0 ==> chunks@.last().addr + chunks@.last().len == cur,
            forall|i: int|
                0 <= i < chunks@.len() - 1 ==> #[trigger] chunks@[i + 1].addr == chunks@[i].addr
                    + chunks@[i].len,
            forall|i: int| 0 <= i < chunks@.len() ==> #[trigger] chunks@[i].len > 0,
            forall|i: int|
                0 <= i < chunks@.len() ==> #[trigger] (chunks@[i].addr as int) % (unit as int)
                    + chunks@[i].len <= unit,
            forall|i: int|
                0 <= i < chunks@.len() ==> address <= #[trigger] chunks@[i].addr && chunks@[i].addr
                    + chunks@[i].len <= cur,
        decreases end - cur,
    {
        let offset = cur % unit;
        let room = unit - offset;
        let remaining = end - cur;
        let take = if remaining < room {
            remaining
        } else {
            room
        };
        chunks.push(WriteChunk { addr: cur, len: take });
        cur = cur + take;
    }
    chunks
}

/// Whether `sectors` is the minimal set of `sector`-aligned erase addresses
/// covering `[address, address + size)`: consecutive aligned sectors, the
/// first at or below `address` by less than one sector, the last reaching the
/// end of the range by less than one sector past it, and none at all for an
/// empty range.
pub open spec fn spec_sectors_cover(
    sectors: Seq<u32>,
    address: int,
    size: int,
    sector: int,
) -> bool {
    &&& (size == 0 <==> sectors.len() == 0)
    &&& (forall|i: int| 0 <= i < sectors.len() ==> #[trigger] (sectors[i] as int) % sector == 0)
    &&& (sectors.len() > 0 ==> sectors[0] == address - address % sector)
    &&& (forall|i: int|
        0 < i < sectors.len() ==> #[trigger] sectors[i] == sectors[i - 1] + sector)
    &&& (sectors.len() > 0 ==> sectors.last() < address + size <= sectors.last() + sector)
    &&& (forall|i: int|
        0 <= i < sectors.len() ==> address - sector < #[trigger] sectors[i] < address + size)
}

/// Decomposes the byte range `[address, address + size)` into the minimal
/// covering set of sector-aligned erase addresses, in ascending order: each
/// is aligned, they are consecutive, the first begins at or below `address`
/// within one sector, and the last reaches the end of the range without a
/// whole spare sector beyond it.
pub fn plan_erase_sectors(address: u32, size: u32, sector: u32) -> (sectors: Vec<u32>)
    requires
        sector > 0,
        address + size + sector <= u32::MAX,
    ensures
        spec_sectors_cover(sectors@, address as int, size as int, sector as int),
{
    let mut sectors: Vec<u32> = Vec::new();
    if size == 0 {
        return sectors;
    }
    proof {
        lemma_mod_decreases(address as nat, sector as nat);
    }
    let first = address - address % sector;
    proof {
        lemma_fundamental_div_mod(address as int, sector as int);
        lemma_mod_multiples_basic((address as int) / (sector as int), sector as int);
        assert(first as int == (sector as int) * ((address as int) / (sector as int)));
        assert((sector as int) * ((address as int) / (sector as int)) == ((address as int) / (
        sector as int)) * (sector as int)) by (nonlinear_arith);
    }
    let end = address + size;
    let mut cur = first;
    while cur < end
        invariant
            sector > 0,
            first == address - address % sector,
            first <= address,
            end == address + size,
            end + sector <= u32::MAX,
            cur % sector == 0,
            first <= cur <= end + sector,
            cur == first ==> sectors@.len() == 0,
            cur > first ==> sectors@.len() > 0,
            sectors@.len() > 0 ==> sectors@[0] == first,
            sectors@.len() > 0 ==> sectors@.last() + sector == cur,
            sectors@.len() > 0 ==> sectors@.last() < end,
            forall|i: int| 0 <= i < sectors@.len() ==> #[trigger] (sectors@[i] as int) % (sector as int) == 0,
            forall|i: int|
                0 < i < sectors@.len() ==> #[trigger] sectors@[i] == sectors@[i - 1] + sector,
            forall|i: int|
                0 <= i < sectors@.len() ==> address - sector < #[trigger] sectors@[i] < end,
        decreases end + sector - cur,
    {
        sectors.push(cur);
        proof {
            lemma_mod_add_multiples_vanish(cur as int, sector as int);
        }
        cur = cur + sector;
    }
    proof {
        assert(sectors@.len() > 0);
    }
    sectors
}

} // verus!
