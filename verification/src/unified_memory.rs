//! Page-aligned shared-memory buffer management.
//!
//! A [`UmaBuffer`] owns one contiguous memory region sized for the CPU/GPU
//! shared-memory model: the caller-requested logical length is rounded up to
//! the 4096-byte page size, and the region starts on a page boundary.  Reads
//! and writes are bounded by the logical length, so the slack bytes
//! introduced by rounding are never observable.  The allocation is carried
//! by the buffer itself and released exactly once when the buffer is
//! dropped, by the ownership rules of the language.

use vstd::prelude::*;

use crate::error::Error;
use crate::text::dec_u64;
use crate::text::spec_dec;

verus! {

/// Page size for buffer alignment (4096 bytes).
pub const PAGE_SIZE: usize = 4096;

/// Maximum allocation size in bytes (16 GiB).
pub const MAX_ALLOCATION: u64 = 17_179_869_184;

/// The logical length rounded up to the next multiple of the page size.
pub open spec fn spec_round_up(n: int) -> int {
    n + ((4096 - (n % 4096)) % 4096)
}

proof fn lemma_round_up_props(n: int)
    by (nonlinear_arith)
    requires
        1 <= n,
    ensures
        n <= spec_round_up(n),
        spec_round_up(n) % 4096 == 0,
        spec_round_up(n) < n + 4096,
        n <= 17_179_869_184 ==> spec_round_up(n) <= 17_179_869_184,
{
}

proof fn lemma_pad_to_multiple(x: int)
    by (nonlinear_arith)
    requires
        0 <= x,
    ensures
        0 <= (4096 - (x % 4096)) % 4096 < 4096,
        (x + ((4096 - (x % 4096)) % 4096)) % 4096 == 0,
{
}

/// Address of the backing storage of a byte vector.
///
/// Relies on `Vec::as_ptr`, whose result is documented to be non-null,
/// and on the rule that an allocated object never wraps the address
/// space: the vector's bytes all lie at addresses from this one on.
/// Nothing else can be promised of an address the allocator chose.
#[verifier::external_body]
fn vec_addr(data: &Vec<u8>) -> (r: usize)
    ensures
        r != 0,
        r + data@.len() <= usize::MAX,
{
    data.as_ptr() as usize
}

/// A shared-memory buffer usable from both CPU and GPU contexts.
///
/// The buffer may be moved between execution contexts but is owned by one
/// context at a time; nothing hands out simultaneous mutable access.
///
/// [`UmaBuffer::well_formed`] holds of every buffer the allocator returns
/// and is preserved by every method: the logical length is positive and at
/// most [`MAX_ALLOCATION`]; the allocated size is the logical length rounded
/// up to a multiple of [`PAGE_SIZE`]; and the start address lies on a page
/// boundary.
#[derive(Debug)]
pub struct UmaBuffer {
    data: Vec<u8>,
    offset: usize,
    len: usize,
    allocated: usize,
    start: usize,
}

impl View for UmaBuffer {
    type V = Seq<u8>;

    closed spec fn view(&self) -> Seq<u8> {
        self.data@.subrange(self.offset as int, self.offset + self.len)
    }
}

impl UmaBuffer {
    /// Size and alignment invariants of a buffer, established at
    /// allocation and preserved by every method.
    pub closed spec fn well_formed(&self) -> bool {
        &&& 1 <= self.len <= MAX_ALLOCATION
        &&& self.allocated == spec_round_up(self.len as int)
        &&& self.len <= self.allocated
        &&& self.offset + self.allocated <= self.data@.len()
        &&& self.offset + self.allocated <= usize::MAX
        &&& self.start % 4096 == 0
        &&& self.start != 0
    }

    /// The allocated (page-rounded) size, as seen by specifications.
    pub closed spec fn spec_allocated(&self) -> usize {
        self.allocated
    }

    /// The start address of the aligned region, as seen by specifications.
    pub closed spec fn spec_start(&self) -> usize {
        self.start
    }

    /// The full allocated region, slack bytes included.
    pub closed spec fn allocated_region(&self) -> Seq<u8> {
        self.data@.subrange(self.offset as int, self.offset + self.allocated)
    }

    /// Allocate a new buffer of `len` bytes.
    ///
    /// The length is rounded up to the page size and the region starts on
    /// a page boundary.  Succeeds exactly when the length is positive, at
    /// most [`MAX_ALLOCATION`], and small enough that the padded region
    /// fits the machine's address space; a zero length and a length above
    /// the maximum are rejected as invalid input, and a length beyond the
    /// address space as an internal error.
    pub fn new(len: usize) -> (r: Result<UmaBuffer, Error>)
        ensures
            r matches Ok(_) <==> (1 <= len <= MAX_ALLOCATION && len + 2 * 4096 - 1 <= usize::MAX),
            (r matches Err(e) && e matches Error::InvalidInput { .. }) <==> (len == 0 || len
                > MAX_ALLOCATION),
            len == 0 ==> (r matches Err(e) && e matches Error::InvalidInput { reason } && reason@
                == "buffer length cannot be zero"@),
            len > MAX_ALLOCATION ==> (r matches Err(e) && e matches Error::InvalidInput { reason }
                && reason@ == "allocation size "@ + spec_dec(len as nat) + " exceeds maximum "@
                + spec_dec(MAX_ALLOCATION as nat) + " bytes"@),
            r matches Ok(b) ==> {
                &&& b.well_formed()
                &&& 1 <= len <= MAX_ALLOCATION
                &&& b@.len() == len
                &&& b.spec_allocated() == spec_round_up(len as int)
                &&& b.spec_allocated() % 4096 == 0
                &&& len <= b.spec_allocated()
                &&& b.spec_start() % 4096 == 0
                &&& b.spec_start() != 0
            },
    {
        if len == 0 {
            return Err(Error::invalid_input("buffer length cannot be zero"));
        }
        if (len as u64) > MAX_ALLOCATION {
            let mut reason = "allocation size ".to_owned();
            reason.append(dec_u64(len as u64).as_str());
            reason.append(" exceeds maximum ");
            reason.append(dec_u64(MAX_ALLOCATION).as_str());
            reason.append(" bytes");
            proof {
                assert(reason@ =~= "allocation size "@ + spec_dec(len as nat)
                    + " exceeds maximum "@ + spec_dec(MAX_ALLOCATION as nat) + " bytes"@);
            }
            return Err(Error::invalid_input(reason.as_str()));
        }
        proof {
            lemma_round_up_props(len as int);
        }
        if len > usize::MAX - (2 * PAGE_SIZE - 1) {
            return Err(Error::internal("allocation size exceeds the address space"));
        }
        let pad: usize = (PAGE_SIZE - (len % PAGE_SIZE)) % PAGE_SIZE;
        let allocated: usize = len + pad;
        let backing_len: usize = allocated + (PAGE_SIZE - 1);
        let data: Vec<u8> = vec![0u8; backing_len];
        let addr = vec_addr(&data);
        proof {
            lemma_pad_to_multiple(addr as int);
        }
        let offset: usize = (PAGE_SIZE - (addr % PAGE_SIZE)) % PAGE_SIZE;
        let start: usize = addr + offset;
        Ok(UmaBuffer { data, offset, len, allocated, start })
    }

    /// Allocate a buffer of `len` bytes and zero-fill the full allocated
    /// region, slack bytes included, so no residual memory content is
    /// observable.
    pub fn zeroed(len: usize) -> (r: Result<UmaBuffer, Error>)
        ensures
            r matches Ok(_) <==> (1 <= len <= MAX_ALLOCATION && len + 2 * 4096 - 1 <= usize::MAX),
            (r matches Err(e) && e matches Error::InvalidInput { .. }) <==> (len == 0 || len
                > MAX_ALLOCATION),
            r matches Ok(b) ==> {
                &&& b.well_formed()
                &&& 1 <= len <= MAX_ALLOCATION
                &&& b@.len() == len
                &&& forall|i: int| 0 <= i < b@.len() ==> b@[i] == 0
                &&& forall|i: int| 0 <= i < b.allocated_region().len() ==> b.allocated_region()[i]
                    == 0
                &&& b.spec_allocated() == spec_round_up(len as int)
                &&& b.spec_allocated() % 4096 == 0
                &&& len <= b.spec_allocated()
                &&& b.spec_start() % 4096 == 0
            },
    {
        let mut buffer = match UmaBuffer::new(len) {
            Ok(buffer) => buffer,
            Err(e) => {
                return Err(e);
            },
        };
        let ghost shape = buffer;
        let end = buffer.offset + buffer.allocated;
        let mut j: usize = buffer.offset;
        while j < end
            invariant
                buffer.well_formed(),
                shape.offset <= j <= end,
                end == buffer.offset + buffer.allocated,
                buffer.offset == shape.offset,
                buffer.len == shape.len,
                buffer.allocated == shape.allocated,
                buffer.start == shape.start,
                buffer.data@.len() == shape.data@.len(),
                forall|k: int| buffer.offset <= k < j ==> buffer.data@[k] == 0,
            decreases end - j,
        {
            buffer.data[j] = 0;
            j = j + 1;
        }
        proof {
            assert forall|k: int|
                0 <= k < buffer.allocated_region().len() implies buffer.allocated_region()[k]
                == 0 by {
                assert(buffer.allocated_region()[k] == buffer.data@[buffer.offset + k]);
            }
            assert forall|k: int| 0 <= k < buffer@.len() implies buffer@[k] == 0 by {
                assert(buffer@[k] == buffer.data@[buffer.offset + k]);
            }
        }
        Ok(buffer)
    }

    /// The logical length in bytes: positive and at most [`MAX_ALLOCATION`].
    pub fn len(&self) -> (r: usize)
        requires
            self.well_formed(),
        ensures
            r == self@.len(),
            1 <= r <= MAX_ALLOCATION,
    {
        self.len
    }

    /// Check if the buffer is empty; always false, since a zero-length
    /// buffer cannot be allocated.
    pub fn is_empty(&self) -> (r: bool)
        requires
            self.well_formed(),
        ensures
            r == (self@.len() == 0),
            !r,
    {
        self.len == 0
    }

    /// The allocated size: the logical length rounded up to the page size.
    pub fn allocated_size(&self) -> (r: usize)
        requires
            self.well_formed(),
        ensures
            r == self.spec_allocated(),
            r % 4096 == 0,
            self@.len() <= r < self@.len() + 4096,
    {
        proof {
            lemma_round_up_props(self.len as int);
        }
        self.allocated
    }

    /// The start address of the buffer: non-zero and page-aligned.
    pub fn as_ptr(&self) -> (r: usize)
        requires
            self.well_formed(),
        ensures
            r == self.spec_start(),
            r % 4096 == 0,
            r != 0,
    {
        self.start
    }

    /// The start address of the buffer for mutation; the same address
    /// [`UmaBuffer::as_ptr`] reports.
    pub fn as_mut_ptr(&mut self) -> (r: usize)
        requires
            old(self).well_formed(),
        ensures
            *final(self) == *old(self),
            r == final(self).spec_start(),
            r % 4096 == 0,
            r != 0,
    {
        self.start
    }

    /// View of the logical contents, bounded by the logical length.
    pub fn as_slice(&self) -> (r: &[u8])
        requires
            self.well_formed(),
        ensures
            r@ == self@,
    {
        vstd::slice::slice_subrange(self.data.as_slice(), self.offset, self.offset + self.len)
    }

    /// Read one byte of the logical contents.
    pub fn byte_at(&self, index: usize) -> (r: u8)
        requires
            self.well_formed(),
            index < self@.len(),
        ensures
            r == self@[index as int],
    {
        self.data[self.offset + index]
    }

    /// Write one byte of the logical contents.
    pub fn set_byte(&mut self, index: usize, value: u8)
        requires
            old(self).well_formed(),
            index < old(self)@.len(),
        ensures
            final(self).well_formed(),
            final(self)@ == old(self)@.update(index as int, value),
            final(self).spec_start() == old(self).spec_start(),
            final(self).spec_allocated() == old(self).spec_allocated(),
    {
        let j = self.offset + index;
        self.data[j] = value;
        proof {
            assert(self@ =~= old(self)@.update(index as int, value));
        }
    }

    /// Check that the buffer start lies on a page boundary.  This holds by
    /// the buffer's invariant, so the check always passes.
    pub fn is_aligned(&self) -> (r: bool)
        requires
            self.well_formed(),
        ensures
            r == (self.spec_start() % 4096 == 0),
            r,
    {
        self.start % PAGE_SIZE == 0
    }

    /// Copy `src` into the start of the buffer.
    ///
    /// Fails with invalid input when `src` is longer than the logical
    /// length, leaving the buffer unchanged; otherwise the prefix of the
    /// contents becomes `src` and the remainder is unchanged.
    pub fn copy_from_slice(&mut self, src: &[u8]) -> (r: Result<(), Error>)
        requires
            old(self).well_formed(),
        ensures
            final(self).well_formed(),
            r matches Ok(_) <==> src@.len() <= old(self)@.len(),
            (r matches Err(e) && e matches Error::InvalidInput { .. }) <==> src@.len() > old(
                self,
            )@.len(),
            r matches Err(_) ==> *final(self) == *old(self),
            r matches Ok(_) ==> {
                &&& final(self)@ == src@ + old(self)@.skip(src@.len() as int)
                &&& final(self)@.len() == old(self)@.len()
                &&& final(self).spec_start() == old(self).spec_start()
                &&& final(self).spec_allocated() == old(self).spec_allocated()
            },
    {
        if src.len() > self.len {
            let mut reason = "source length ".to_owned();
            reason.append(dec_u64(src.len() as u64).as_str());
            reason.append(" exceeds buffer length ");
            reason.append(dec_u64(self.len as u64).as_str());
            return Err(Error::invalid_input(reason.as_str()));
        }
        let ghost before = *self;
        let mut i: usize = 0;
        while i < src.len()
            invariant
                self.well_formed(),
                i <= src@.len(),
                src@.len() <= self.len,
                self.offset == before.offset,
                self.len == before.len,
                self.allocated == before.allocated,
                self.start == before.start,
                self.data@.len() == before.data@.len(),
                forall|k: int| self.offset <= k < self.offset + i ==> self.data@[k] == src@[k
                    - self.offset],
                forall|k: int|
                    self.offset + i <= k < self.data@.len() ==> self.data@[k] == before.data@[k],
            decreases src@.len() - i,
        {
            let j = self.offset + i;
            let value = src[i];
            self.data[j] = value;
            i = i + 1;
        }
        proof {
            assert(self@ =~= src@ + old(self)@.skip(src@.len() as int));
        }
        Ok(())
    }

    /// Check if a unified CPU/GPU memory architecture is present.  This
    /// build does not target such a platform, so the probe reports `false`.
    pub fn is_uma_available() -> (r: bool)
        ensures
            !r,
    {
        false
    }
}

/// Check if unified memory is available; same answer as
/// [`UmaBuffer::is_uma_available`].
pub fn is_available() -> (r: bool)
    ensures
        !r,
{
    UmaBuffer::is_uma_available()
}

} // verus!
