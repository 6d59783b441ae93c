use core::marker::PhantomData;
use vstd::layout::size_of;
use vstd::prelude::*;

use crate::region::{span_in_region, span_within, DmaAccessible};

verus! {

/// Returned when the storage handed to [`DmaBuffer::new`] does not lie wholly inside the
/// chosen region. The placement is fixed when the program is built, so a caller is
/// expected to treat this as fatal.
#[derive(Debug, Clone, Copy, PartialEq, Eq, Structural)]
pub struct RegionMismatch {
    /// Base address of the storage that was refused.
    pub addr: usize,
}

impl RegionMismatch {
    /// The text that reports the failure.
    pub fn message(&self) -> (r: &'static str)
        ensures
            r@ == "Buffer not in DMA-accessible region"@,
    {
        "Buffer not in DMA-accessible region"
    }
}

/// `LEN` elements of `T` that lie inside the memory region `Region`.
///
/// The buffer holds the only reference to its storage for the rest of the program. The
/// range check is made once, in [`DmaBuffer::new`]; base address and length never change
/// afterwards.
pub struct DmaBuffer<T: 'static, const LEN: usize, Region: DmaAccessible> {
    storage: &'static mut [T; LEN],
    addr: usize,
    _region: PhantomData<Region>,
}

impl<T: 'static, const LEN: usize, Region: DmaAccessible> View for DmaBuffer<T, LEN, Region> {
    type V = Seq<T>;

    /// The elements of the buffer, in order.
    closed spec fn view(&self) -> Seq<T> {
        self.storage@
    }
}

impl<T: 'static, const LEN: usize, Region: DmaAccessible> DmaBuffer<T, LEN, Region> {
    /// The storage lies wholly inside the region.
    #[verifier::type_invariant]
    spec fn placed(&self) -> bool {
        span_within::<Region>(self.addr as int, LEN * size_of::<T>())
    }
}

impl<T: Copy + 'static, const LEN: usize, Region: DmaAccessible> DmaBuffer<T, LEN, Region> {
    /// Base address of the storage.
    pub closed spec fn addr(&self) -> usize {
        self.addr
    }

    /// Takes over `storage`, of `LEN` elements at address `addr`, for `Region`.
    ///
    /// `addr` is the address at which the storage provider placed `storage`. Every
    /// element is first set to `initialize_value`; then the byte range
    /// `[addr, addr + LEN * size_of::<T>())` is checked against the region's bounds.
    /// Where it is not wholly inside them, the result is `RegionMismatch`.
    pub fn new(storage: &'static mut [T; LEN], addr: usize, initialize_value: T) -> (r: Result<
        Self,
        RegionMismatch,
    >)
        ensures
            r is Ok <==> span_within::<Region>(addr as int, LEN * size_of::<T>()),
            r matches Ok(b) ==> b.addr() == addr && b@ == Seq::new(
                LEN as nat,
                |i: int| initialize_value,
            ),
            r matches Err(e) ==> e == (RegionMismatch { addr }),
    {
        let mut i: usize = 0;
        while i < LEN
            invariant
                i <= LEN,
                storage@.len() == LEN,
                forall|j: int| 0 <= j < i ==> storage@[j] == initialize_value,
            decreases LEN - i,
        {
            storage[i] = initialize_value;
            i = i + 1;
        }
        if !span_in_region::<Region>(addr, LEN, core::mem::size_of::<T>()) {
            return Err(RegionMismatch { addr });
        }
        let b = DmaBuffer { storage, addr, _region: PhantomData };
        assert(b@ =~= Seq::new(LEN as nat, |j: int| initialize_value));
        Ok(b)
    }

    /// Number of elements; always `LEN`.
    pub fn len(&self) -> (r: usize)
        ensures
            r == LEN,
    {
        LEN
    }

    /// Whether the buffer holds no element.
    pub fn is_empty(&self) -> (r: bool)
        ensures
            r == (LEN == 0),
    {
        LEN == 0
    }

    /// All elements, for a transfer that reads the buffer. No DMA transfer may write
    /// the buffer while the view is held.
    pub fn as_slice(&self) -> (r: &[T])
        ensures
            r@ == self@,
    {
        self.storage.as_slice()
    }

    /// All elements, for writing. No DMA transfer may use the buffer while the view is
    /// held. What the view holds when it is released is what the buffer then holds.
    pub fn as_mut_slice(&mut self) -> (r: &mut [T])
        ensures
            r@ == old(self)@,
            final(self)@ == final(r)@,
            final(self).addr() == old(self).addr(),
    {
        proof {
            use_type_invariant(&*self);
        }
        self.storage
    }

    /// Base address of the buffer, for a DMA driver. The whole buffer lies inside the
    /// region; synchronising with transfers is up to the caller.
    pub fn as_ptr(&self) -> (r: usize)
        ensures
            r == self.addr(),
            span_within::<Region>(r as int, LEN * size_of::<T>()),
    {
        proof {
            use_type_invariant(self);
        }
        self.addr
    }

    /// Base address of the buffer, for a DMA driver that writes it. The whole buffer lies
    /// inside the region; synchronising with transfers is up to the caller.
    pub fn as_mut_ptr(&mut self) -> (r: usize)
        ensures
            r == old(self).addr(),
            span_within::<Region>(r as int, LEN * size_of::<T>()),
            *final(self) == *old(self),
    {
        proof {
            use_type_invariant(&*self);
        }
        self.addr
    }
}

} // verus!
