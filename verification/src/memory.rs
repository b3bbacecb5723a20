//! Growable, bounds-checked linear byte storage. Byte length is always
//! an exact multiple of the page size, growth is monotonic and
//! all-or-nothing, and every read or write is bounds-checked against
//! the current length.
use vstd::prelude::*;

use crate::types::GrowError;
use crate::types::Limits;
use crate::types::Trap;
use crate::types::MAX_MEMORY_PAGES;
use crate::types::PAGE_SIZE;

verus! {

/// A linear memory: `data` always holds exactly `pages * PAGE_SIZE`
/// bytes, and `pages` never exceeds `max_pages`.
pub struct Memory {
    pub data: Vec<u8>,
    pub pages: u32,
    pub max_pages: u32,
}

/// The mathematical value of a memory.
#[verifier::ext_equal]
pub ghost struct MemV {
    pub bytes: Seq<u8>,
    pub pages: u32,
    pub max_pages: u32,
}

impl View for Memory {
    type V = MemV;

    open spec fn view(&self) -> MemV {
        MemV { bytes: self.data@, pages: self.pages, max_pages: self.max_pages }
    }
}

/// A vector of `n` zero bytes.
fn zeroed_bytes(n: usize) -> (v: Vec<u8>)
    ensures
        v@.len() == n,
        forall|i: int| 0 <= i < n ==> v@[i] == 0u8,
{
    let mut v: Vec<u8> = Vec::new();
    let mut j: usize = 0;
    while j < n
        invariant
            j <= n,
            v@.len() == j,
            forall|i: int| 0 <= i < j ==> v@[i] == 0u8,
        decreases n - j,
    {
        v.push(0u8);
        j = j + 1;
    }
    v
}

impl Memory {
    /// Structural invariant: length is page-aligned, current size is
    /// within the maximum, and the maximum is within the engine ceiling.
    pub open spec fn wf(&self) -> bool {
        &&& self.data@.len() == self.pages as int * PAGE_SIZE as int
        &&& self.pages <= self.max_pages
        &&& self.max_pages <= MAX_MEMORY_PAGES
    }

    /// Current byte length.
    pub open spec fn size_bytes(&self) -> int {
        self.data@.len() as int
    }

    /// Allocate a memory at its initial size, zero-filled.
    pub fn new(limits: &Limits) -> (m: Memory)
        requires
            limits.valid_spec(MAX_MEMORY_PAGES),
        ensures
            m.wf(),
            m.pages == limits.initial,
            m.max_pages == limits.effective_max_spec(MAX_MEMORY_PAGES),
            m.data@.len() == limits.initial as int * PAGE_SIZE as int,
            forall|i: int| 0 <= i < m.data@.len() ==> m.data@[i] == 0u8,
    {
        let max_pages = limits.effective_max(MAX_MEMORY_PAGES);
        let nbytes: usize = (limits.initial as usize) * PAGE_SIZE;
        Memory { data: zeroed_bytes(nbytes), pages: limits.initial, max_pages }
    }

    /// Current size in pages.
    pub fn size(&self) -> (p: u32)
        ensures
            p == self.pages,
    {
        self.pages
    }

    /// Grow by `delta` pages. All-or-nothing: succeeds and returns the
    /// size before growth iff `pages + delta <= max_pages`; new bytes
    /// are zero and old bytes are untouched. On failure the memory is
    /// byte-for-byte unchanged.
    pub fn grow(&mut self, delta: u32) -> (r: Result<u32, GrowError>)
        requires
            old(self).wf(),
        ensures
            final(self).wf(),
            final(self).max_pages == old(self).max_pages,
            match r {
                Ok(before) => {
                    &&& old(self).pages + delta <= old(self).max_pages
                    &&& before == old(self).pages
                    &&& final(self).pages == old(self).pages + delta
                    &&& final(self).data@.len() == old(self).data@.len() + delta as int * PAGE_SIZE as int
                    &&& final(self).data@.subrange(0, old(self).data@.len() as int) == old(self).data@
                    &&& forall|i: int|
                        old(self).data@.len() <= i < final(self).data@.len()
                            ==> final(self).data@[i] == 0u8
                },
                Err(e) => {
                    &&& e == GrowError::ExceedsMaximum
                    &&& old(self).pages + delta > old(self).max_pages
                    &&& *final(self) == *old(self)
                },
            },
    {
        if delta > self.max_pages - self.pages {
            return Err(GrowError::ExceedsMaximum);
        }
        let before = self.pages;
        let added: usize = (delta as usize) * PAGE_SIZE;
        let ghost orig = self.data@;
        let mut j: usize = 0;
        while j < added
            invariant
                j <= added,
                self.pages == old(self).pages,
                self.max_pages == old(self).max_pages,
                self.data@.len() == orig.len() + j,
                forall|i: int| 0 <= i < orig.len() ==> self.data@[i] == orig[i],
                forall|i: int| orig.len() <= i < self.data@.len() ==> self.data@[i] == 0u8,
            decreases added - j,
        {
            self.data.push(0u8);
            j = j + 1;
        }
        self.pages = before + delta;
        proof {
            assert(self.data@.subrange(0, orig.len() as int) =~= orig);
        }
        Ok(before)
    }

    /// A byte-for-byte copy, used when a provided memory import is
    /// moved into an instance's exclusively owned storage.
    pub fn duplicate(&self) -> (m: Memory)
        ensures
            m.data@ == self.data@,
            m.pages == self.pages,
            m.max_pages == self.max_pages,
    {
        let mut data: Vec<u8> = Vec::new();
        let mut j: usize = 0;
        while j < self.data.len()
            invariant
                j <= self.data@.len(),
                data@ == self.data@.subrange(0, j as int),
            decreases self.data@.len() - j,
        {
            data.push(self.data[j]);
            proof {
                assert(data@ =~= self.data@.subrange(0, j + 1));
            }
            j = j + 1;
        }
        proof {
            assert(data@ =~= self.data@);
        }
        Memory { data, pages: self.pages, max_pages: self.max_pages }
    }

    /// Read `len` bytes starting at `offset`. Succeeds iff
    /// `offset + len <= size_bytes()`; an access even one byte past the
    /// end traps with `Trap::MemoryOutOfBounds`.
    pub fn read(&self, offset: usize, len: usize) -> (r: Result<Vec<u8>, Trap>)
        ensures
            match r {
                Ok(bytes) => {
                    &&& offset + len <= self.data@.len()
                    &&& bytes@ == self.data@.subrange(offset as int, offset as int + len as int)
                },
                Err(t) => {
                    &&& t == Trap::MemoryOutOfBounds
                    &&& offset + len > self.data@.len()
                },
            },
    {
        if offset > self.data.len() || len > self.data.len() - offset {
            return Err(Trap::MemoryOutOfBounds);
        }
        let mut out: Vec<u8> = Vec::new();
        let mut j: usize = 0;
        while j < len
            invariant
                j <= len,
                offset + len <= self.data@.len(),
                self.data@.len() <= usize::MAX,
                out@.len() == j,
                forall|i: int| 0 <= i < j ==> out@[i] == self.data@[offset + i],
            decreases len - j,
        {
            out.push(self.data[offset + j]);
            j = j + 1;
        }
        proof {
            assert(out@ =~= self.data@.subrange(offset as int, offset as int + len as int));
        }
        Ok(out)
    }

    /// Write all of `bytes` starting at `offset`. Succeeds iff
    /// `offset + bytes.len() <= size_bytes()`; on failure the memory is
    /// byte-for-byte unchanged (no partial write).
    pub fn write(&mut self, offset: usize, bytes: &Vec<u8>) -> (r: Result<(), Trap>)
        ensures
            final(self).pages == old(self).pages,
            final(self).max_pages == old(self).max_pages,
            final(self).data@.len() == old(self).data@.len(),
            match r {
                Ok(()) => {
                    &&& offset + bytes@.len() <= old(self).data@.len()
                    &&& forall|i: int|
                        0 <= i < old(self).data@.len() ==> final(self).data@[i] == (if offset <= i
                            < offset + bytes@.len() {
                            bytes@[i - offset]
                        } else {
                            old(self).data@[i]
                        })
                },
                Err(t) => {
                    &&& t == Trap::MemoryOutOfBounds
                    &&& offset + bytes@.len() > old(self).data@.len()
                    &&& final(self).data@ == old(self).data@
                },
            },
    {
        if offset > self.data.len() || bytes.len() > self.data.len() - offset {
            return Err(Trap::MemoryOutOfBounds);
        }
        let mut j: usize = 0;
        while j < bytes.len()
            invariant
                j <= bytes@.len(),
                offset + bytes@.len() <= self.data@.len(),
                self.data@.len() <= usize::MAX,
                self.data@.len() == old(self).data@.len(),
                self.pages == old(self).pages,
                self.max_pages == old(self).max_pages,
                forall|i: int|
                    0 <= i < self.data@.len() ==> self.data@[i] == (if offset <= i < offset + j {
                        bytes@[i - offset]
                    } else {
                        old(self).data@[i]
                    }),
            decreases bytes@.len() - j,
        {
            self.data[offset + j] = bytes[j];
            j = j + 1;
        }
        Ok(())
    }
}

} // verus!
