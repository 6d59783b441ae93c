use vstd::prelude::*;

verus! {

/// A memory region that the DMA controller can address without a bus fault.
///
/// The region is the half-open address range `[START_ADDR, END_ADDR)`. The bounds are
/// hardware data, taken from the chip's reference manual.
pub trait DmaAccessible {
    /// First address of the region.
    const START_ADDR: usize;

    /// First address past the end of the region.
    const END_ADDR: usize;

    /// Every region holds at least one address: an implementation whose bounds are
    /// out of order does not verify.
    proof fn lemma_bounds_ordered()
        ensures
            Self::START_ADDR < Self::END_ADDR,
    ;
}

/// SRAM1 region (0x3000_0000 - 0x3002_0000), reached through the AXI bus.
pub struct Sram1;

/// DTCM-RAM region (0x2000_0000 - 0x2001_0000).
pub struct Dtcm;

/// ITCM-RAM region (0x0000_0000 - 0x0001_0000).
pub struct Itcm;

impl DmaAccessible for Sram1 {
    const START_ADDR: usize = 0x3000_0000;
    const END_ADDR: usize = 0x3002_0000;

    proof fn lemma_bounds_ordered() {
    }
}

impl DmaAccessible for Dtcm {
    const START_ADDR: usize = 0x2000_0000;
    const END_ADDR: usize = 0x2001_0000;

    proof fn lemma_bounds_ordered() {
    }
}

impl DmaAccessible for Itcm {
    const START_ADDR: usize = 0x0000_0000;
    const END_ADDR: usize = 0x0001_0000;

    proof fn lemma_bounds_ordered() {
    }
}

/// The bounds of the three regions: SRAM1 `[0x3000_0000, 0x3002_0000)`, DTCM
/// `[0x2000_0000, 0x2001_0000)` and ITCM `[0x0000_0000, 0x0001_0000)`.
pub proof fn lemma_region_bounds()
    ensures
        Sram1::START_ADDR == 0x3000_0000 && Sram1::END_ADDR == 0x3002_0000,
        Dtcm::START_ADDR == 0x2000_0000 && Dtcm::END_ADDR == 0x2001_0000,
        Itcm::START_ADDR == 0x0000_0000 && Itcm::END_ADDR == 0x0001_0000,
{
}

/// The bytes `[base, base + bytes)` all lie inside the region.
pub open spec fn span_within<Region: DmaAccessible>(base: int, bytes: int) -> bool {
    Region::START_ADDR <= base && base + bytes <= Region::END_ADDR
}

/// Tests whether `count` elements of `elem_size` bytes each, starting at address `base`,
/// lie wholly inside the region: `base >= START_ADDR` and
/// `base + count * elem_size <= END_ADDR`, computed without overflow.
pub fn span_in_region<Region: DmaAccessible>(base: usize, count: usize, elem_size: usize) -> (r:
    bool)
    ensures
        r == span_within::<Region>(base as int, count * elem_size),
{
    if base < Region::START_ADDR {
        return false;
    }
    match count.checked_mul(elem_size) {
        Some(bytes) => bytes <= Region::END_ADDR && base <= Region::END_ADDR - bytes,
        None => false,
    }
}

} // verus!
