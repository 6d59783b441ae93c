//! Buffers for a DMA controller that can reach only some physical memory regions.
//!
//! A region is a zero-sized marker type that implements [`DmaAccessible`] with the
//! half-open address range `[START_ADDR, END_ADDR)` of the memory it stands for. A
//! [`DmaBuffer`] binds a run of `LEN` elements to one region, and checks once, when it
//! is built, that the whole run lies inside that range.

mod buffer;
mod region;

pub use buffer::{DmaBuffer, RegionMismatch};
pub use region::{lemma_region_bounds, span_in_region, span_within, DmaAccessible, Dtcm, Itcm, Sram1};
