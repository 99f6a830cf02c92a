//! The thread control block and the mapping that holds it.
//!
//! One anonymous mapping serves a thread: the region of its local storage,
//! rounded up to whole pages, and directly behind it the control block,
//! rounded up likewise. The storage starts where the mapping starts, and
//! the control block begins where the region ends, at the address that the
//! thread pointer is set to.

use crate::errno::{classifiable, error_of_code, ErrorNumber};
use crate::syscall::SyscallResult;
use crate::tls::{lemma_round_up, mmap_len, round_up, Template, PAGE_SIZE, TCB_SIZE};
use vstd::prelude::*;

verus! {

/// Per-thread state found at the thread pointer: the block's own address and
/// the thread's pending error code.
#[derive(Clone, Copy, Debug, PartialEq, Eq, Structural)]
pub struct ThreadControlBlock {
    pub self_addr: usize,
    pub errno: i32,
}

/// Length of the storage part of the mapping for an optional template.
pub open spec fn storage_len(template: Option<&Template>) -> int {
    match template {
        Some(t) => t.total_len(),
        None => 0,
    }
}

/// Whether the optional template, where there is one, keeps its invariant.
pub open spec fn template_wf(template: Option<&Template>) -> bool {
    match template {
        Some(t) => t.wf(),
        None => true,
    }
}

/// Exclusive owner of the mapping behind one thread control block. It is
/// neither copied nor cloned, and giving it up yields the one request that
/// releases the mapping.
#[derive(Debug)]
pub struct TCBBox {
    tcb_addr: usize,
    tls_len: usize,
    tls_mmap_len: usize,
}

impl TCBBox {
    /// Address of the control block.
    pub closed spec fn tcb(self) -> int {
        self.tcb_addr as int
    }

    /// Length of the thread's local storage.
    pub closed spec fn storage(self) -> int {
        self.tls_len as int
    }

    /// Address at which the mapping starts.
    pub closed spec fn mapping_start(self) -> int {
        self.tcb_addr - self.tls_mmap_len
    }

    /// Address at which the thread's local storage starts: the start of its
    /// region, which is the start of the mapping.
    pub open spec fn storage_start(self) -> int {
        self.mapping_start()
    }

    /// Length of the whole mapping.
    pub closed spec fn mapping_len(self) -> int {
        self.tls_mmap_len + round_up(TCB_SIZE as int, PAGE_SIZE as int)
    }

    /// The handle's invariant: the storage part is a whole number of pages
    /// that holds the storage, and the mapping lies inside the address space.
    pub closed spec fn wf(self) -> bool {
        &&& self.tls_mmap_len == round_up(self.tls_len as int, PAGE_SIZE as int)
        &&& self.tls_mmap_len <= self.tcb_addr
        &&& self.tcb_addr + PAGE_SIZE <= usize::MAX
    }

    /// Whether the handle owns the mapping that starts at `base` and lays it
    /// out for `template`: the storage at the start of its region, which is
    /// a whole number of pages from `base` on, and directly behind the
    /// region the control block.
    pub open spec fn lays_out(self, template: Option<&Template>, base: int) -> bool {
        &&& self.wf()
        &&& self.mapping_start() == base
        &&& self.storage_start() == base
        &&& self.storage_start() + self.storage() <= self.tcb()
        &&& self.mapping_len() == round_up(storage_len(template), PAGE_SIZE as int) + round_up(
            TCB_SIZE as int,
            PAGE_SIZE as int,
        )
        &&& self.storage() == storage_len(template)
        &&& self.tcb() == base + round_up(storage_len(template), PAGE_SIZE as int)
    }

    /// Length of the mapping to ask for: the storage rounded up to whole
    /// pages, then the control block rounded up to whole pages.
    pub fn mmap_len(template: Option<&Template>) -> (r: usize)
        requires
            template_wf(template),
        ensures
            r == round_up(storage_len(template), PAGE_SIZE as int) + round_up(
                TCB_SIZE as int,
                PAGE_SIZE as int,
            ),
            r % PAGE_SIZE == 0,
            r >= storage_len(template) + TCB_SIZE,
    {
        proof {
            lemma_round_up(storage_len(template), PAGE_SIZE as int);
        }
        let storage: usize = match template {
            Some(t) => mmap_len(t),
            None => 0,
        };
        storage + PAGE_SIZE
    }

    /// Whether a mapping of the length asked for, placed where the
    /// page-mapping primitive says, lies inside the address space.
    pub open spec fn placeable(template: Option<&Template>, mapped: isize) -> bool {
        !mapped.failed() ==> (mapped as usize) as int + round_up(
            storage_len(template),
            PAGE_SIZE as int,
        ) + PAGE_SIZE <= usize::MAX
    }

    /// Takes ownership of the mapping that the page-mapping primitive
    /// returned for a request of [`TCBBox::mmap_len`] bytes, and lays it out:
    /// the storage at the start of the mapping, and the control block
    /// directly behind the whole pages that hold the storage.
    ///
    /// A failed request is reported as its member of the taxonomy, and then
    /// there is nothing to own.
    pub fn new(template: Option<&Template>, mapped: isize) -> (r: Result<TCBBox, ErrorNumber>)
        requires
            template_wf(template),
            classifiable(mapped),
            TCBBox::placeable(template, mapped),
        ensures
            mapped.failed() ==> r == Err::<TCBBox, ErrorNumber>(error_of_code(-mapped)->Some_0),
            !mapped.failed() ==> (r matches Ok(b) && b.lays_out(template, (mapped as usize) as int)),
    {
        if let Some(e) = ErrorNumber::from_failure(mapped) {
            return Err(e);
        }
        let base: usize = #[verifier::truncate] (mapped as usize);
        let (tls_len, tls_mmap_len): (usize, usize) = match template {
            Some(t) => (crate::tls::len(t), mmap_len(t)),
            None => (0, 0),
        };
        proof {
            lemma_round_up(storage_len(template), PAGE_SIZE as int);
        }
        Ok(TCBBox { tcb_addr: base + tls_mmap_len, tls_len, tls_mmap_len })
    }

    /// Address of the control block: what the thread pointer is set to.
    pub fn tcb_addr(&self) -> (r: usize)
        ensures
            r == self.tcb(),
    {
        self.tcb_addr
    }

    /// The control block as it is first written: it names its own address
    /// and holds no pending error.
    pub fn initial_block(&self) -> (r: ThreadControlBlock)
        ensures
            r.self_addr == self.tcb(),
            r.errno == 0,
    {
        ThreadControlBlock { self_addr: self.tcb_addr, errno: 0 }
    }

    /// Address and length of the thread's local storage: it starts where
    /// the mapping starts, and ends at or before the control block.
    pub fn storage_span(&self) -> (r: (usize, usize))
        requires
            self.wf(),
        ensures
            r.0 == self.storage_start(),
            r.0 == self.mapping_start(),
            r.1 == self.storage(),
            r.0 + r.1 <= self.tcb(),
    {
        proof {
            lemma_round_up(self.tls_len as int, PAGE_SIZE as int);
        }
        (self.tcb_addr - self.tls_mmap_len, self.tls_len)
    }

    /// Gives the mapping up: address and length of the one release to make,
    /// which is exactly the span that was taken over.
    pub fn into_unmap_request(self) -> (r: (usize, usize))
        requires
            self.wf(),
        ensures
            r.0 == self.mapping_start(),
            r.1 == self.mapping_len(),
    {
        (self.tcb_addr - self.tls_mmap_len, self.tls_mmap_len + PAGE_SIZE)
    }
}

} // verus!
