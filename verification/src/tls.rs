//! The thread-local-storage template of the running image, and the layout of
//! the mapping that holds one thread's storage and its control block.

use crate::elf::ProgramHeader;
use vstd::prelude::*;

verus! {

/// Granule of the page-mapping primitive.
pub const PAGE_SIZE: usize = 4096;

/// Size in bytes of a thread control block: its own address, then the
/// pending error code, padded to the alignment of the address.
pub const TCB_SIZE: usize = 16;

/// The least multiple of `multiple` that is not below `x`.
pub open spec fn round_up(x: int, multiple: int) -> int
    recommends
        multiple > 0,
{
    if x % multiple != 0 {
        x + (multiple - x % multiple)
    } else {
        x
    }
}

/// `round_up` yields a multiple of `multiple`, and the only one from `x` up
/// to `x + multiple`, so the nearest.
pub proof fn lemma_round_up(x: int, multiple: int)
    requires
        x >= 0,
        multiple > 0,
    ensures
        round_up(x, multiple) % multiple == 0,
        x <= round_up(x, multiple) < x + multiple,
{
    let r = round_up(x, multiple);
    let q = x / multiple;
    assert(x == multiple * q + x % multiple && 0 <= x % multiple < multiple) by {
        vstd::arithmetic::div_mod::lemma_fundamental_div_mod(x, multiple);
        vstd::arithmetic::div_mod::lemma_mod_bound(x, multiple);
    }
    if x % multiple != 0 {
        assert(r == multiple * (q + 1)) by (nonlinear_arith)
            requires
                r == x + (multiple - x % multiple),
                x == multiple * q + x % multiple,
        ;
        vstd::arithmetic::div_mod::lemma_mod_multiples_basic(q + 1, multiple);
        assert(((q + 1) * multiple) % multiple == 0);
        assert((q + 1) * multiple == multiple * (q + 1)) by (nonlinear_arith);
    }
}

/// Rounds `x` up to the nearest multiple of `multiple`.
pub fn round_up_to_nearest_multiple(x: usize, multiple: usize) -> (r: usize)
    requires
        multiple > 0,
        round_up(x as int, multiple as int) <= usize::MAX,
    ensures
        r == round_up(x as int, multiple as int),
        r % multiple == 0,
        x <= r < x + multiple,
{
    proof {
        lemma_round_up(x as int, multiple as int);
    }
    if x % multiple != 0 {
        x + (multiple - x % multiple)
    } else {
        x
    }
}

/// Whether `x` is a power of two.
pub open spec fn is_power_of_two(x: int) -> bool
    decreases x,
{
    if x <= 0 {
        false
    } else if x == 1 {
        true
    } else {
        x % 2 == 0 && is_power_of_two(x / 2)
    }
}

/// Tests whether `x` is a power of two.
pub fn check_power_of_two(x: usize) -> (r: bool)
    ensures
        r == is_power_of_two(x as int),
{
    if x == 0 {
        return false;
    }
    let mut n: usize = x;
    while n % 2 == 0
        invariant
            n > 0,
            is_power_of_two(n as int) == is_power_of_two(x as int),
        decreases n,
    {
        n = n / 2;
    }
    n == 1
}

/// Why a program-header row cannot serve as the thread-local-storage
/// template.
#[derive(Clone, Copy, Debug, PartialEq, Eq, Structural)]
pub enum TemplateError {
    /// The initialised bytes do not lie inside the image.
    OutOfImage,
    /// The segment occupies less memory than it has initialised bytes.
    MemoryTooSmall,
    /// The alignment is zero, no power of two, or beyond the address space.
    BadAlignment,
    /// The storage, rounded up to whole pages, cannot be addressed.
    TooLarge,
}

impl TemplateError {
    /// The sentence that reports the error.
    pub open spec fn text(self) -> Seq<char> {
        match self {
            TemplateError::OutOfImage => "initialized bytes lie outside the image"@,
            TemplateError::MemoryTooSmall => "memory size is below file size"@,
            TemplateError::BadAlignment => "alignment is no power of two"@,
            TemplateError::TooLarge => "storage is too large"@,
        }
    }

    /// The sentence that reports the error.
    pub fn describe(self) -> (r: &'static str)
        ensures
            r@ == self.text(),
    {
        match self {
            TemplateError::OutOfImage => "initialized bytes lie outside the image",
            TemplateError::MemoryTooSmall => "memory size is below file size",
            TemplateError::BadAlignment => "alignment is no power of two",
            TemplateError::TooLarge => "storage is too large",
        }
    }
}

/// The template from which each thread's local storage is made: the
/// initialised bytes, the length of the zero-filled tail, and the alignment.
#[derive(Clone, Copy, Debug)]
pub struct Template<'a> {
    pub initialized: &'a [u8],
    pub uninitialized_len: usize,
    pub alignment: usize,
}

impl<'a> Template<'a> {
    /// The template's invariant: the alignment is a power of two, and the
    /// storage rounded up to whole pages, with the control block behind it,
    /// fits the address space.
    pub open spec fn wf(self) -> bool {
        &&& is_power_of_two(self.alignment as int)
        &&& self.initialized@.len() + self.uninitialized_len + 2 * PAGE_SIZE <= usize::MAX
    }

    /// Total length of one thread's storage.
    pub open spec fn total_len(self) -> int {
        self.initialized@.len() + self.uninitialized_len
    }

    /// The template of an image without thread-local state.
    pub fn empty() -> (t: Template<'a>)
        ensures
            t.wf(),
            t.total_len() == 0,
            t.alignment == 1,
            t.initialized@ == Seq::<u8>::empty(),
    {
        Template { initialized: &[], uninitialized_len: 0, alignment: 1 }
    }

    /// What `row` describes inside `image`, or the reason why it describes no
    /// template; the checks are made in the order of the variants.
    pub open spec fn describe(row: ProgramHeader, image: Seq<u8>) -> Result<
        (int, int, int, int),
        TemplateError,
    > {
        if row.p_offset as int + row.p_filesz as int > image.len() {
            Err(TemplateError::OutOfImage)
        } else if row.p_memsz < row.p_filesz {
            Err(TemplateError::MemoryTooSmall)
        } else if !is_power_of_two(row.p_align as int) || row.p_align as int > usize::MAX {
            Err(TemplateError::BadAlignment)
        } else if row.p_memsz as int + 2 * PAGE_SIZE > usize::MAX {
            Err(TemplateError::TooLarge)
        } else {
            Ok(
                (
                    row.p_offset as int,
                    row.p_filesz as int,
                    row.p_memsz as int - row.p_filesz as int,
                    row.p_align as int,
                ),
            )
        }
    }

    /// Whether the template is the one that `row` describes inside
    /// `image`.
    pub open spec fn captures(self, row: ProgramHeader, image: Seq<u8>) -> bool {
        match Template::describe(row, image) {
            Ok((offset, filesz, tail, align)) => {
                &&& self.wf()
                &&& self.initialized@ == image.subrange(offset, offset + filesz)
                &&& self.uninitialized_len == tail
                &&& self.alignment == align
            },
            Err(_) => false,
        }
    }

    /// Captures the template that a thread-local-storage row describes. The
    /// initialised bytes stay where they are in `image`: the template borrows
    /// them, so it cannot outlive the image.
    pub fn from_program_header(row: &ProgramHeader, image: &'a [u8]) -> (r: Result<
        Template<'a>,
        TemplateError,
    >)
        ensures
            match Template::describe(*row, image@) {
                Ok(_) => r matches Ok(t) && t.captures(*row, image@),
                Err(e) => r == Err::<Template<'a>, TemplateError>(e),
            },
    {
        let len: u64 = image.len() as u64;
        if row.p_offset > len || row.p_filesz > len - row.p_offset {
            return Err(TemplateError::OutOfImage);
        }
        if row.p_memsz < row.p_filesz {
            return Err(TemplateError::MemoryTooSmall);
        }
        if row.p_align > usize::MAX as u64 || !check_power_of_two(row.p_align as usize) {
            return Err(TemplateError::BadAlignment);
        }
        if row.p_memsz > (usize::MAX - 2 * PAGE_SIZE) as u64 {
            return Err(TemplateError::TooLarge);
        }
        let start: usize = row.p_offset as usize;
        let end: usize = (row.p_offset + row.p_filesz) as usize;
        Ok(
            Template {
                initialized: vstd::slice::slice_subrange(image, start, end),
                uninitialized_len: (row.p_memsz - row.p_filesz) as usize,
                alignment: row.p_align as usize,
            },
        )
    }
}

/// Total length of one thread's storage: the initialised bytes and the
/// zero-filled tail.
pub fn len(template: &Template) -> (r: usize)
    requires
        template.wf(),
    ensures
        r == template.total_len(),
{
    template.initialized.len() + template.uninitialized_len
}

/// Length of the part of the mapping that holds one thread's storage: its
/// total length rounded up to whole pages.
pub fn mmap_len(template: &Template) -> (r: usize)
    requires
        template.wf(),
    ensures
        r == round_up(template.total_len(), PAGE_SIZE as int),
        r % PAGE_SIZE == 0,
        template.total_len() <= r < template.total_len() + PAGE_SIZE,
{
    proof {
        lemma_round_up(template.total_len(), PAGE_SIZE as int);
    }
    round_up_to_nearest_multiple(len(template), PAGE_SIZE)
}

/// Fills a fresh thread's storage from the template: the initialised bytes
/// go to its start, and the tail is left as it is (a fresh anonymous mapping
/// is zero already).
pub fn initialize(template: &Template, tls: &mut [u8])
    requires
        template.wf(),
        old(tls)@.len() == template.total_len(),
    ensures
        final(tls)@ == template.initialized@ + old(tls)@.subrange(
            template.initialized@.len() as int,
            template.total_len(),
        ),
{
    let n: usize = template.initialized.len();
    let mut i: usize = 0;
    while i < n
        invariant
            i <= n,
            n == template.initialized@.len(),
            tls@.len() == old(tls)@.len(),
            n <= tls@.len(),
            forall|k: int| 0 <= k < i ==> tls@[k] == template.initialized@[k],
            forall|k: int| i <= k < tls@.len() ==> tls@[k] == old(tls)@[k],
        decreases n - i,
    {
        tls[i] = template.initialized[i];
        i = i + 1;
    }
    assert(tls@ =~= template.initialized@ + old(tls)@.subrange(
        template.initialized@.len() as int,
        template.total_len(),
    ));
}

} // verus!
