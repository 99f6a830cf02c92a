//! The allocator interface: layouts, the choice of the allocator's entry
//! point for a layout, and an owning pointer.
//!
//! The heap itself is an outside allocator with plain entry points, which
//! align as they please up to the width of a pointer, and aligned entry
//! points, which take an alignment that is a multiple of that width.

use crate::tls::{is_power_of_two, check_power_of_two, lemma_round_up, round_up};
use vstd::prelude::*;

verus! {

/// Width of a pointer in bytes.
pub const POINTER_SIZE: usize = 8;

/// Size and alignment of a block of memory. The alignment is a power of two,
/// and the size rounded up to the alignment fits a signed machine word.
#[derive(Clone, Copy, Debug, PartialEq, Eq)]
pub struct Layout {
    size: usize,
    align: usize,
}

/// The parameters given describe no layout.
#[derive(Clone, Copy, Debug, PartialEq, Eq, Structural)]
pub struct LayoutError;

/// Whether a size and an alignment describe a layout.
pub open spec fn is_layout(size: int, align: int) -> bool {
    &&& 0 <= size
    &&& is_power_of_two(align)
    &&& round_up(size, align) <= isize::MAX
}

/// A power of two that is at least 8 is a multiple of 8, and a smaller one
/// is at most 4.
pub proof fn lemma_power_of_two_and_eight(x: int)
    requires
        is_power_of_two(x),
    ensures
        x >= 8 ==> x % 8 == 0,
        x < 8 ==> x == 1 || x == 2 || x == 4,
        is_power_of_two(8),
{
    reveal_with_fuel(is_power_of_two, 5);
}

impl Layout {
    #[verifier::type_invariant]
    closed spec fn valid(self) -> bool {
        is_layout(self.size as int, self.align as int)
    }

    /// The size in bytes.
    pub closed spec fn bytes(self) -> int {
        self.size as int
    }

    /// The alignment in bytes.
    pub closed spec fn alignment(self) -> int {
        self.align as int
    }

    /// The layout of `size` bytes aligned to `align`, where there is one.
    pub fn from_size_align(size: usize, align: usize) -> (r: Result<Layout, LayoutError>)
        ensures
            is_layout(size as int, align as int) ==> (r matches Ok(l) && l.bytes() == size
                && l.alignment() == align),
            !is_layout(size as int, align as int) ==> r is Err,
    {
        if !check_power_of_two(align) {
            return Err(LayoutError);
        }
        proof {
            lemma_round_up(size as int, align as int);
        }
        let limit: usize = isize::MAX as usize;
        if size > limit {
            return Err(LayoutError);
        }
        let over: usize = size % align;
        if over != 0 && align - over > limit - size {
            return Err(LayoutError);
        }
        Ok(Layout { size, align })
    }

    /// The size in bytes.
    pub fn size(&self) -> (r: usize)
        ensures
            r == self.bytes(),
            is_layout(self.bytes(), self.alignment()),
    {
        proof {
            use_type_invariant(self);
        }
        self.size
    }

    /// The alignment in bytes.
    pub fn align(&self) -> (r: usize)
        ensures
            r == self.alignment(),
            is_layout(self.bytes(), self.alignment()),
    {
        proof {
            use_type_invariant(self);
        }
        self.align
    }

    /// The layout with the size rounded up to the alignment.
    pub fn pad_to_align(&self) -> (r: Layout)
        ensures
            r.alignment() == self.alignment(),
            r.bytes() == round_up(self.bytes(), self.alignment()),
    {
        proof {
            use_type_invariant(self);
            lemma_round_up(self.size as int, self.align as int);
        }
        let over: usize = self.size % self.align;
        let size: usize = if over != 0 {
            self.size + (self.align - over)
        } else {
            self.size
        };
        Layout { size, align: self.align }
    }

    /// The layout of `len` elements of layout `element` in a row, each
    /// padded to its alignment; an error where the whole does not fit.
    pub fn array(element: Layout, len: usize) -> (r: Result<Layout, LayoutError>)
        ensures
            match r {
                Ok(l) => l.alignment() == element.alignment() && l.bytes() == round_up(
                    element.bytes(),
                    element.alignment(),
                ) * len && l.bytes() <= isize::MAX,
                Err(_) => round_up(element.bytes(), element.alignment()) * len > isize::MAX,
            },
    {
        let padded = element.pad_to_align();
        let each: usize = padded.size();
        let align: usize = padded.align();
        let limit: usize = isize::MAX as usize;
        proof {
            lemma_round_up(element.bytes(), element.alignment());
        }
        let ghost q: int = if each != 0 {
            limit as int / each as int
        } else {
            0
        };
        proof {
            if each != 0 {
                vstd::arithmetic::div_mod::lemma_fundamental_div_mod(limit as int, each as int);
                vstd::arithmetic::div_mod::lemma_mod_bound(limit as int, each as int);
            }
        }
        if each != 0 && len > limit / each {
            proof {
                assert(each * len > limit) by (nonlinear_arith)
                    requires
                        each > 0,
                        len >= q + 1,
                        limit < each * q + each,
                ;
            }
            return Err(LayoutError);
        }
        proof {
            if each != 0 {
                assert(each * len <= limit) by (nonlinear_arith)
                    requires
                        each > 0,
                        0 <= len <= q,
                        each * q <= limit,
                ;
            } else {
                assert(each * len == 0) by (nonlinear_arith)
                    requires
                        each == 0,
                ;
            }
        }
        let size: usize = each * len;
        proof {
            // A multiple of a multiple of the alignment is one itself.
            let a = align as int;
            let k = each as int / a;
            vstd::arithmetic::div_mod::lemma_fundamental_div_mod(each as int, a);
            assert(each as int == a * k);
            assert(each * len == (k * len) * a) by (nonlinear_arith)
                requires
                    each as int == a * k,
            ;
            vstd::arithmetic::div_mod::lemma_mod_multiples_basic(k * len, a);
        }
        Ok(Layout { size, align })
    }
}

/// The entry point of the allocator to call for a new block.
#[derive(Clone, Copy, Debug, PartialEq, Eq, Structural)]
pub enum AllocCall {
    /// The plain entry point, with the size.
    Plain { size: usize },
    /// The aligned entry point, with the alignment and the padded size.
    Aligned { alignment: usize, size: usize },
}

/// The entry point of the allocator to call to resize a block.
#[derive(Clone, Copy, Debug, PartialEq, Eq, Structural)]
pub enum ReallocCall {
    /// The plain entry point, with the new size.
    Plain { size: usize },
    /// The aligned entry point, with the alignment, the padded new size and
    /// the padded size that the block was allocated with.
    Aligned { alignment: usize, size: usize, old_size: usize },
}

/// The call that allocates a block of layout `layout`.
///
/// An alignment that does not exceed the width of a pointer is what the
/// plain entry point gives anyway. A larger one goes to the aligned entry
/// point, with the size padded to the alignment.
pub open spec fn alloc_call(layout: Layout) -> AllocCall {
    if layout.alignment() <= POINTER_SIZE {
        AllocCall::Plain { size: layout.bytes() as usize }
    } else {
        AllocCall::Aligned {
            alignment: layout.alignment() as usize,
            size: round_up(layout.bytes(), layout.alignment()) as usize,
        }
    }
}

/// The call that resizes a block of layout `layout` to `new_size` bytes.
pub open spec fn realloc_call(layout: Layout, new_size: int) -> ReallocCall {
    if layout.alignment() <= POINTER_SIZE {
        ReallocCall::Plain { size: new_size as usize }
    } else {
        ReallocCall::Aligned {
            alignment: layout.alignment() as usize,
            size: round_up(new_size, layout.alignment()) as usize,
            old_size: round_up(layout.bytes(), layout.alignment()) as usize,
        }
    }
}

/// The layout that the aligned entry points are called with: the alignment
/// rounded up to a multiple of the pointer width, and the size padded to
/// that alignment.
pub fn aligned_alloc_layout(layout: Layout) -> (r: Layout)
    requires
        round_up(layout.bytes(), 8) <= isize::MAX,
    ensures
        r.alignment() == round_up(layout.alignment(), POINTER_SIZE as int),
        r.alignment() % (POINTER_SIZE as int) == 0,
        r.alignment() >= layout.alignment(),
        r.bytes() == round_up(layout.bytes(), r.alignment()),
{
    let align: usize = layout.align();
    let size: usize = layout.size();
    proof {
        lemma_power_of_two_and_eight(align as int);
        lemma_round_up(align as int, 8);
    }
    let wide: usize = crate::tls::round_up_to_nearest_multiple(align, POINTER_SIZE);
    match Layout::from_size_align(size, wide) {
        Ok(l) => l.pad_to_align(),
        Err(_) => vstd::pervasive::unreached(),
    }
}

/// Chooses the entry point that allocates a block of layout `layout`.
pub fn allocate(layout: Layout) -> (r: AllocCall)
    ensures
        r == alloc_call(layout),
{
    let align: usize = layout.align();
    if align <= POINTER_SIZE {
        AllocCall::Plain { size: layout.size() }
    } else {
        proof {
            lemma_power_of_two_and_eight(align as int);
            lemma_round_up(layout.bytes(), 8);
            lemma_round_up(layout.bytes(), align as int);
            lemma_multiple_of_wider(round_up(layout.bytes(), align as int), align as int);
        }
        let aligned = aligned_alloc_layout(layout);
        AllocCall::Aligned { alignment: aligned.align(), size: aligned.size() }
    }
}

/// Chooses the entry point that allocates a zero-filled block of layout
/// `layout`. The choice is that of [`allocate`]; the entry points are the
/// zero-filling ones, called for one element of the size given.
pub fn alloc_zeroed(layout: Layout) -> (r: AllocCall)
    ensures
        r == alloc_call(layout),
{
    allocate(layout)
}

/// Chooses the entry point that resizes a block of layout `layout` to
/// `new_size` bytes. The aligned entry point is told the padded size that
/// [`allocate`] asked for when the block was made.
pub fn realloc(layout: Layout, new_size: usize) -> (r: ReallocCall)
    requires
        layout.alignment() > POINTER_SIZE ==> is_layout(new_size as int, layout.alignment()),
    ensures
        r == realloc_call(layout, new_size as int),
        r matches ReallocCall::Aligned { alignment, size, old_size } ==> alloc_call(layout) == (
        AllocCall::Aligned { alignment, size: old_size }),
{
    let align: usize = layout.align();
    if align <= POINTER_SIZE {
        ReallocCall::Plain { size: new_size }
    } else {
        proof {
            lemma_power_of_two_and_eight(align as int);
            lemma_round_up(layout.bytes(), 8);
            lemma_round_up(layout.bytes(), align as int);
            lemma_multiple_of_wider(round_up(layout.bytes(), align as int), align as int);
        }
        let aligned = aligned_alloc_layout(layout);
        let new_layout = match Layout::from_size_align(new_size, aligned.align()) {
            Ok(l) => l.pad_to_align(),
            Err(_) => vstd::pervasive::unreached(),
        };
        ReallocCall::Aligned {
            alignment: aligned.align(),
            size: new_layout.size(),
            old_size: aligned.size(),
        }
    }
}

/// A multiple of a multiple of 8 is a multiple of 8.
proof fn lemma_multiple_of_wider(x: int, align: int)
    requires
        align > 0,
        align % 8 == 0,
        x % align == 0,
        x >= 0,
    ensures
        x % 8 == 0,
        round_up(x, 8) == x,
{
    vstd::arithmetic::div_mod::lemma_fundamental_div_mod(x, align);
    vstd::arithmetic::div_mod::lemma_fundamental_div_mod(align, 8);
    let a = x / align;
    let b = align / 8;
    assert(x == (a * b) * 8) by (nonlinear_arith)
        requires
            x == align * a,
            align == 8 * b,
    ;
    vstd::arithmetic::div_mod::lemma_mod_multiples_basic(a * b, 8);
}

/// Asks the allocator for storage for `count` values. What comes back
/// depends on what the allocator has left.
fn reserve<T>(count: usize) -> (r: Option<Vec<T>>)
    ensures
        r matches Some(v) ==> v@.len() == 0,
{
    let mut storage: Vec<T> = Vec::new();
    if storage.try_reserve(count).is_err() {
        None
    } else {
        Some(storage)
    }
}

/// A row of values cut or filled up to the length `len`: the values that
/// both lengths have room for stay, and new ones are equal to `fill`.
pub open spec fn resized<T>(values: Seq<T>, len: int, fill: T) -> Seq<T> {
    Seq::new(
        len as nat,
        |i: int|
            if i < values.len() {
                values[i]
            } else {
                fill
            },
    )
}

/// A pointer that owns one value on the heap. Making one can fail, when the
/// allocator has no storage to give; giving the pointer up tears the value
/// down first and releases the storage after that.
#[derive(Debug)]
pub struct Box<T> {
    slot: Vec<T>,
}

impl<T> Box<T> {
    /// The pointer's invariant: it holds its value.
    pub closed spec fn wf(self) -> bool {
        self.slot@.len() == 1
    }

    /// The value that the pointer owns.
    pub closed spec fn value(self) -> T {
        self.slot@[0]
    }

    /// Moves `t` to the heap. Where the allocator cannot give the storage,
    /// `t` comes back unchanged.
    pub fn new(t: T) -> (r: Result<Box<T>, T>)
        ensures
            match r {
                Ok(b) => b.wf() && b.value() == t,
                Err(back) => back == t,
            },
    {
        Box::in_storage(reserve(1), t)
    }

    /// Moves `t` to the storage that the allocator gave, if it gave any;
    /// without storage, `t` comes back unchanged.
    pub fn in_storage(storage: Option<Vec<T>>, t: T) -> (r: Result<Box<T>, T>)
        requires
            storage matches Some(v) ==> v@.len() == 0,
        ensures
            match storage {
                Some(_) => r matches Ok(b) && b.wf() && b.value() == t,
                None => r == Err::<Box<T>, T>(t),
            },
    {
        match storage {
            Some(mut slot) => {
                slot.push(t);
                Ok(Box { slot })
            },
            None => Err(t),
        }
    }

    /// Takes the value back from the heap and releases the storage.
    pub fn into_inner(b: Box<T>) -> (r: T)
        requires
            b.wf(),
        ensures
            r == b.value(),
    {
        let mut slot = b.slot;
        match slot.pop() {
            Some(t) => t,
            None => vstd::pervasive::unreached(),
        }
    }

    /// The value, for reading.
    pub fn get(&self) -> (r: &T)
        requires
            self.wf(),
        ensures
            *r == self.value(),
    {
        &self.slot[0]
    }

    /// Puts `t` in the place of the value, which is handed out.
    pub fn replace(&mut self, t: T) -> (r: T)
        requires
            old(self).wf(),
        ensures
            final(self).wf(),
            final(self).value() == t,
            r == old(self).value(),
    {
        let before = match self.slot.pop() {
            Some(b) => b,
            None => vstd::pervasive::unreached(),
        };
        self.slot.push(t);
        before
    }
}

/// What is a power of two by the library's definition of alignments is one
/// by this one.
proof fn lemma_alignment_is_power_of_two(n: int)
    requires
        vstd::arithmetic::power2::is_pow2(n),
    ensures
        is_power_of_two(n),
    decreases n,
{
    reveal(vstd::arithmetic::power2::is_pow2);
    if n > 1 {
        lemma_alignment_is_power_of_two(n / 2);
    }
}

/// Whether the size in bytes of a row of `len` values of type `T`, the
/// product of the size of `T` and `len`, fits a signed machine word.
pub open spec fn row_fits<T>(len: int) -> bool {
    vstd::layout::size_of::<T>() * len <= isize::MAX
}

/// The layout of a row of `len` values of type `T`, where the size of the
/// row in bytes, the product of the size of `T` and `len`, fits a signed
/// machine word; an error where it does not.
pub fn array_layout<T>(len: usize) -> (r: Result<Layout, LayoutError>)
    ensures
        match r {
            Ok(l) => row_fits::<T>(len as int) && l.bytes() == vstd::layout::size_of::<T>() * len
                && l.alignment() == vstd::layout::align_of::<T>(),
            Err(_) => !row_fits::<T>(len as int),
        },
{
    vstd::layout::layout_for_type_is_valid::<T>();
    let size: usize = core::mem::size_of::<T>();
    let align: usize = core::mem::align_of::<T>();
    proof {
        lemma_alignment_is_power_of_two(align as int);
        assert(round_up(size as int, align as int) == size);
    }
    match Layout::from_size_align(size, align) {
        Ok(element) => Layout::array(element, len),
        Err(_) => vstd::pervasive::unreached(),
    }
}

/// A pointer that owns a row of values on the heap.
#[derive(Debug)]
pub struct BoxSlice<T> {
    items: Vec<T>,
}

impl<T: Copy> BoxSlice<T> {
    /// The values that the pointer owns.
    pub closed spec fn values(self) -> Seq<T> {
        self.items@
    }

    /// A row of `len` values, each equal to `fill`. The size of the row in
    /// bytes is computed first: where it does not fit, there is no row, and
    /// the allocator is not asked. Else the allocator is asked, and there is
    /// no row where it cannot give the storage.
    pub fn new_slice(len: usize, fill: T) -> (r: Result<BoxSlice<T>, ()>)
        ensures
            !row_fits::<T>(len as int) ==> r is Err,
            r matches Ok(b) ==> b.values() == Seq::new(len as nat, |i: int| fill),
    {
        if array_layout::<T>(len).is_err() {
            return Err(());
        }
        BoxSlice::in_storage(reserve(len), len, fill)
    }

    /// A row of `len` values, each equal to `fill`, in the storage that the
    /// allocator gave, if it gave any.
    pub fn in_storage(storage: Option<Vec<T>>, len: usize, fill: T) -> (r: Result<
        BoxSlice<T>,
        (),
    >)
        requires
            storage matches Some(v) ==> v@.len() == 0,
        ensures
            match storage {
                Some(_) => r matches Ok(b) && b.values() == Seq::new(len as nat, |i: int| fill),
                None => r is Err,
            },
    {
        let mut items = match storage {
            Some(items) => items,
            None => {
                return Err(());
            },
        };
        let mut i: usize = 0;
        while i < len
            invariant
                i <= len,
                items@ == Seq::new(i as nat, |k: int| fill),
            decreases len - i,
        {
            items.push(fill);
            i = i + 1;
            assert(items@ =~= Seq::new(i as nat, |k: int| fill));
        }
        Ok(BoxSlice { items })
    }

    /// Number of values in the row.
    pub fn len(&self) -> (r: usize)
        ensures
            r == self.values().len(),
    {
        self.items.len()
    }

    /// The values, for reading.
    pub fn as_slice(&self) -> (r: &[T])
        ensures
            r@ == self.values(),
    {
        self.items.as_slice()
    }

    /// Puts `value` at index `i`.
    pub fn set(&mut self, i: usize, value: T)
        requires
            i < old(self).values().len(),
        ensures
            final(self).values() == old(self).values().update(i as int, value),
    {
        self.items[i] = value;
    }

    /// Changes the length of the row to `new_len`. The values that both
    /// lengths have room for are kept, and new ones are equal to `fill`.
    /// The size of the new row in bytes is computed first: where it does not
    /// fit, the row comes back as it was, and the allocator is not asked.
    /// Where the allocator cannot give the storage to grow, the row comes
    /// back as it was too.
    pub fn realloc(b: BoxSlice<T>, new_len: usize, fill: T) -> (r: Result<
        BoxSlice<T>,
        BoxSlice<T>,
    >)
        ensures
            match r {
                Ok(n) => row_fits::<T>(new_len as int) && n.values() == resized(
                    b.values(),
                    new_len as int,
                    fill,
                ),
                Err(back) => back.values() == b.values() && (!row_fits::<T>(new_len as int)
                    || new_len > b.values().len()),
            },
    {
        if array_layout::<T>(new_len).is_err() {
            return Err(b);
        }
        let mut items = b.items;
        let old_len: usize = items.len();
        let reserved: bool = new_len <= old_len || items.try_reserve(new_len - old_len).is_ok();
        BoxSlice::resize(BoxSlice { items }, new_len, fill, reserved)
    }

    /// Changes the length of the row to `new_len` if the row is to shrink or
    /// the allocator gave the storage to grow; else the row comes back as it
    /// was.
    pub fn resize(b: BoxSlice<T>, new_len: usize, fill: T, reserved: bool) -> (r: Result<
        BoxSlice<T>,
        BoxSlice<T>,
    >)
        ensures
            match r {
                Ok(n) => (reserved || new_len <= b.values().len()) && n.values() == resized(
                    b.values(),
                    new_len as int,
                    fill,
                ),
                Err(back) => !reserved && new_len > b.values().len() && back.values()
                    == b.values(),
            },
    {
        let mut items = b.items;
        let old_len: usize = items.len();
        if new_len <= old_len {
            items.truncate(new_len);
            assert(items@ =~= resized(b.values(), new_len as int, fill));
            return Ok(BoxSlice { items });
        }
        if !reserved {
            return Err(BoxSlice { items });
        }
        let mut i: usize = old_len;
        while i < new_len
            invariant
                old_len <= i <= new_len,
                items@.len() == i,
                forall|k: int| 0 <= k < old_len ==> items@[k] == b.items@[k],
                forall|k: int| old_len <= k < i ==> items@[k] == fill,
                old_len == b.items@.len(),
            decreases new_len - i,
        {
            items.push(fill);
            i = i + 1;
        }
        assert(items@ =~= resized(b.values(), new_len as int, fill));
        Ok(BoxSlice { items })
    }
}

} // verus!
