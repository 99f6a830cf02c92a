use kns::elf::ProgramHeader;
use kns::errno::ErrorNumber;
use kns::heap::{
    aligned_alloc_layout, alloc_zeroed, allocate, array_layout, realloc, AllocCall, Box, BoxSlice,
    Layout, ReallocCall, POINTER_SIZE,
};
use kns::tcb::TCBBox;
use kns::tls::{
    check_power_of_two, initialize, len, mmap_len, round_up_to_nearest_multiple, Template,
    TemplateError, PAGE_SIZE, TCB_SIZE,
};
use std::cell::Cell;
use std::rc::Rc;

fn tls_row(offset: u64, filesz: u64, memsz: u64, align: u64) -> ProgramHeader {
    ProgramHeader {
        p_type: 7,
        p_flags: 4,
        p_offset: offset,
        p_vaddr: 0x600000,
        p_paddr: 0x600000,
        p_filesz: filesz,
        p_memsz: memsz,
        p_align: align,
    }
}

#[test]
fn rounding_up_to_a_multiple() {
    assert_eq!(round_up_to_nearest_multiple(0, 4096), 0);
    assert_eq!(round_up_to_nearest_multiple(1, 4096), 4096);
    assert_eq!(round_up_to_nearest_multiple(4095, 4096), 4096);
    assert_eq!(round_up_to_nearest_multiple(4096, 4096), 4096);
    assert_eq!(round_up_to_nearest_multiple(4097, 4096), 8192);
    assert_eq!(round_up_to_nearest_multiple(13, 8), 16);
    assert_eq!(round_up_to_nearest_multiple(7, 1), 7);
    assert_eq!(round_up_to_nearest_multiple(10, 3), 12);
    assert_eq!(round_up_to_nearest_multiple(usize::MAX - 4095, 4096), usize::MAX - 4095);
}

#[test]
fn powers_of_two() {
    for shift in 0..usize::BITS {
        assert!(check_power_of_two(1usize << shift));
    }
    for n in [0usize, 3, 5, 6, 7, 9, 12, 24, 1000, usize::MAX] {
        assert!(!check_power_of_two(n));
    }
}

#[test]
fn template_is_captured_from_the_tls_row() {
    let image: Vec<u8> = (0..200u16).map(|i| i as u8).collect();
    let t = Template::from_program_header(&tls_row(100, 24, 40, 16), &image).unwrap();
    assert_eq!(t.initialized, &image[100..124]);
    assert_eq!(t.uninitialized_len, 16);
    assert_eq!(t.alignment, 16);
    assert_eq!(len(&t), 40);
    assert_eq!(mmap_len(&t), 4096);
}

#[test]
fn template_lengths_are_rounded_to_pages() {
    let image = vec![7u8; 5000];
    let t = Template::from_program_header(&tls_row(0, 4096, 4096, 8), &image).unwrap();
    assert_eq!(len(&t), 4096);
    assert_eq!(mmap_len(&t), 4096);
    let t = Template::from_program_header(&tls_row(0, 4096, 4097, 8), &image).unwrap();
    assert_eq!(len(&t), 4097);
    assert_eq!(mmap_len(&t), 8192);
    let t = Template::from_program_header(&tls_row(10, 0, 0, 1), &image).unwrap();
    assert_eq!(len(&t), 0);
    assert_eq!(mmap_len(&t), 0);
}

#[test]
fn rows_that_describe_no_template_are_refused() {
    let image = vec![0u8; 100];
    assert_eq!(
        Template::from_program_header(&tls_row(90, 11, 20, 8), &image).err(),
        Some(TemplateError::OutOfImage)
    );
    assert_eq!(
        Template::from_program_header(&tls_row(u64::MAX, 1, 20, 8), &image).err(),
        Some(TemplateError::OutOfImage)
    );
    assert_eq!(
        Template::from_program_header(&tls_row(0, 10, 9, 8), &image).err(),
        Some(TemplateError::MemoryTooSmall)
    );
    assert_eq!(
        Template::from_program_header(&tls_row(0, 10, 20, 0), &image).err(),
        Some(TemplateError::BadAlignment)
    );
    assert_eq!(
        Template::from_program_header(&tls_row(0, 10, 20, 24), &image).err(),
        Some(TemplateError::BadAlignment)
    );
    assert_eq!(
        Template::from_program_header(&tls_row(0, 10, u64::MAX, 8), &image).err(),
        Some(TemplateError::TooLarge)
    );
    assert!(Template::from_program_header(&tls_row(90, 10, 20, 8), &image).is_ok());
    assert_eq!(TemplateError::BadAlignment.describe(), "alignment is no power of two");
}

#[test]
fn storage_is_filled_from_the_template() {
    let image = b"....INIT....".to_vec();
    let t = Template::from_program_header(&tls_row(4, 4, 10, 8), &image).unwrap();
    let mut tls = vec![0u8; 10];
    initialize(&t, &mut tls);
    assert_eq!(tls, b"INIT\0\0\0\0\0\0");
    // The tail is left as it is.
    let mut tls = vec![9u8; 10];
    initialize(&t, &mut tls);
    assert_eq!(tls, [b'I', b'N', b'I', b'T', 9, 9, 9, 9, 9, 9]);
}

#[test]
fn empty_template_has_no_storage() {
    let t = Template::empty();
    assert_eq!(len(&t), 0);
    assert_eq!(mmap_len(&t), 0);
    assert_eq!(t.alignment, 1);
    let mut tls: Vec<u8> = Vec::new();
    initialize(&t, &mut tls);
    assert!(tls.is_empty());
}

#[test]
fn control_block_mapping_is_storage_pages_and_block_pages() {
    assert_eq!((PAGE_SIZE, TCB_SIZE), (4096, 16));
    assert_eq!(TCBBox::mmap_len(None), 4096);
    let image = vec![1u8; 10000];
    let t = Template::from_program_header(&tls_row(0, 100, 200, 16), &image).unwrap();
    assert_eq!(TCBBox::mmap_len(Some(&t)), 4096 + 4096);
    let t = Template::from_program_header(&tls_row(0, 4096, 8193, 16), &image).unwrap();
    assert_eq!(TCBBox::mmap_len(Some(&t)), 3 * 4096 + 4096);
}

#[test]
fn storage_starts_the_mapping_and_the_control_block_follows_its_pages() {
    let image = vec![1u8; 10000];
    let t = Template::from_program_header(&tls_row(0, 100, 200, 16), &image).unwrap();
    let base: isize = 0x7f00_0000_0000;
    let b = TCBBox::new(Some(&t), base).unwrap();
    assert_eq!(b.tcb_addr(), base as usize + 4096);
    assert_eq!(b.storage_span(), (base as usize, 200));
    let block = b.initial_block();
    assert_eq!(block.self_addr, base as usize + 4096);
    assert_eq!(block.errno, 0);
    assert_eq!(b.into_unmap_request(), (base as usize, 8192));
}

#[test]
fn control_block_without_template_starts_the_mapping() {
    let base: isize = 0x1000;
    let b = TCBBox::new(None, base).unwrap();
    assert_eq!(b.tcb_addr(), 0x1000);
    assert_eq!(b.storage_span(), (0x1000, 0));
    assert_eq!(b.into_unmap_request(), (0x1000, 4096));
}

#[test]
fn a_failed_mapping_leaves_nothing_to_own() {
    assert_eq!(TCBBox::new(None, -12).err(), Some(ErrorNumber::Nomem));
    assert_eq!(TCBBox::new(None, -22).err(), Some(ErrorNumber::Inval));
}

#[test]
fn layouts_need_a_power_of_two_and_a_size_that_fits() {
    let l = Layout::from_size_align(24, 8).unwrap();
    assert_eq!((l.size(), l.align()), (24, 8));
    assert!(Layout::from_size_align(24, 0).is_err());
    assert!(Layout::from_size_align(24, 3).is_err());
    assert!(Layout::from_size_align(24, 24).is_err());
    let max = isize::MAX as usize;
    assert!(Layout::from_size_align(max, 1).is_ok());
    assert!(Layout::from_size_align(max + 1, 1).is_err());
    assert!(Layout::from_size_align(max, 2).is_err());
    assert!(Layout::from_size_align(max - 7, 8).is_ok());
    assert!(Layout::from_size_align(max - 6, 8).is_err());
    assert!(Layout::from_size_align(0, 4096).is_ok());
}

#[test]
fn padding_rounds_the_size_to_the_alignment() {
    let l = Layout::from_size_align(13, 8).unwrap().pad_to_align();
    assert_eq!((l.size(), l.align()), (16, 8));
    let l = Layout::from_size_align(16, 8).unwrap().pad_to_align();
    assert_eq!((l.size(), l.align()), (16, 8));
    let l = Layout::from_size_align(0, 64).unwrap().pad_to_align();
    assert_eq!((l.size(), l.align()), (0, 64));
}

#[test]
fn array_layouts_multiply_with_care() {
    let element = Layout::from_size_align(12, 8).unwrap();
    let l = Layout::array(element, 10).unwrap();
    assert_eq!((l.size(), l.align()), (160, 8));
    let l = Layout::array(element, 0).unwrap();
    assert_eq!((l.size(), l.align()), (0, 8));
    let byte = Layout::from_size_align(1, 1).unwrap();
    assert_eq!(Layout::array(byte, 65536).unwrap().size(), 65536);
    assert!(Layout::array(byte, isize::MAX as usize).is_ok());
    assert!(Layout::array(byte, isize::MAX as usize + 1).is_err());
    assert!(Layout::array(element, usize::MAX / 8).is_err());
    let nothing = Layout::from_size_align(0, 1).unwrap();
    assert_eq!(Layout::array(nothing, usize::MAX).unwrap().size(), 0);
}

#[test]
fn small_alignments_take_the_plain_entry_point() {
    assert_eq!(POINTER_SIZE, 8);
    for align in [1usize, 2, 4, 8] {
        let l = Layout::from_size_align(100, align).unwrap();
        assert_eq!(allocate(l), AllocCall::Plain { size: 100 });
        assert_eq!(alloc_zeroed(l), AllocCall::Plain { size: 100 });
        assert_eq!(realloc(l, 300), ReallocCall::Plain { size: 300 });
    }
}

#[test]
fn large_alignments_take_the_aligned_entry_point_with_padded_sizes() {
    let l = Layout::from_size_align(100, 64).unwrap();
    assert_eq!(allocate(l), AllocCall::Aligned { alignment: 64, size: 128 });
    assert_eq!(alloc_zeroed(l), AllocCall::Aligned { alignment: 64, size: 128 });
    assert_eq!(realloc(l, 130), ReallocCall::Aligned { alignment: 64, size: 192, old_size: 128 });
    assert_eq!(realloc(l, 10), ReallocCall::Aligned { alignment: 64, size: 64, old_size: 128 });
    let l = Layout::from_size_align(32, 16).unwrap();
    assert_eq!(allocate(l), AllocCall::Aligned { alignment: 16, size: 32 });
}

#[test]
fn aligned_layout_has_a_pointer_multiple_alignment() {
    let l = aligned_alloc_layout(Layout::from_size_align(5, 2).unwrap());
    assert_eq!((l.size(), l.align()), (8, 8));
    let l = aligned_alloc_layout(Layout::from_size_align(9, 1).unwrap());
    assert_eq!((l.size(), l.align()), (16, 8));
    let l = aligned_alloc_layout(Layout::from_size_align(100, 32).unwrap());
    assert_eq!((l.size(), l.align()), (128, 32));
    let l = aligned_alloc_layout(Layout::from_size_align(64, 8).unwrap());
    assert_eq!((l.size(), l.align()), (64, 8));
}

/// A value that counts its own teardown.
struct Counted {
    bits: u64,
    drops: Rc<Cell<usize>>,
}

impl Drop for Counted {
    fn drop(&mut self) {
        self.drops.set(self.drops.get() + 1);
    }
}

#[test]
fn owning_pointer_round_trip() {
    let known: u64 = 0xDEAD_BEEF_0123_4567;
    let mut b = Box::new(known).ok().unwrap();
    assert_eq!(*b.get(), known);
    assert_eq!(b.replace(!known), known);
    assert_eq!(*b.get(), !known);
    assert_eq!(Box::into_inner(b), !known);
}

#[test]
fn owning_pointer_releases_its_value_exactly_once() {
    let drops = Rc::new(Cell::new(0));
    {
        let b = Box::new(Counted { bits: 42, drops: drops.clone() }).ok().unwrap();
        assert_eq!(b.get().bits, 42);
        assert_eq!(drops.get(), 0);
    }
    assert_eq!(drops.get(), 1);

    let b = Box::new(Counted { bits: 43, drops: drops.clone() }).ok().unwrap();
    let inner = Box::into_inner(b);
    assert_eq!(drops.get(), 1);
    assert_eq!(inner.bits, 43);
    drop(inner);
    assert_eq!(drops.get(), 2);
}

#[test]
fn owned_rows_grow_and_shrink() {
    let mut row = BoxSlice::new_slice(4, 0u8).unwrap();
    assert_eq!(row.as_slice(), &[0, 0, 0, 0]);
    row.set(1, 7);
    row.set(3, 9);
    let row = BoxSlice::realloc(row, 6, 1).ok().unwrap();
    assert_eq!(row.as_slice(), &[0, 7, 0, 9, 1, 1]);
    let row = BoxSlice::realloc(row, 2, 1).ok().unwrap();
    assert_eq!(row.as_slice(), &[0, 7]);
    assert_eq!(row.len(), 2);
    let row = BoxSlice::realloc(row, 0, 1).ok().unwrap();
    assert_eq!(row.len(), 0);
}

#[test]
fn a_row_that_cannot_grow_comes_back_untouched() {
    let mut row = BoxSlice::new_slice(3, 5u64).unwrap();
    row.set(0, 1);
    match BoxSlice::realloc(row, usize::MAX, 0) {
        Err(back) => assert_eq!(back.as_slice(), &[1, 5, 5]),
        Ok(_) => panic!("grew beyond the address space"),
    }
    assert!(BoxSlice::new_slice(usize::MAX, 0u64).is_err());
}

#[test]
fn without_storage_the_value_comes_back() {
    assert_eq!(Box::in_storage(None, 77u32).err(), Some(77));
    let b = Box::in_storage(Some(Vec::new()), 78u32).ok().unwrap();
    assert_eq!(*b.get(), 78);
    assert!(BoxSlice::in_storage(None, 4, 0u8).is_err());
    let row = BoxSlice::in_storage(Some(Vec::new()), 4, 9u8).unwrap();
    assert_eq!(row.as_slice(), &[9, 9, 9, 9]);
    let row = match BoxSlice::resize(row, 6, 1, false) {
        Err(back) => back,
        Ok(_) => panic!("grew without storage"),
    };
    assert_eq!(row.as_slice(), &[9, 9, 9, 9]);
    let row = BoxSlice::resize(row, 2, 1, false).ok().unwrap();
    assert_eq!(row.as_slice(), &[9, 9]);
}

#[test]
fn the_size_of_a_row_is_multiplied_with_care() {
    let l = array_layout::<u64>(10).unwrap();
    assert_eq!((l.size(), l.align()), (80, 8));
    let l = array_layout::<u8>(0).unwrap();
    assert_eq!((l.size(), l.align()), (0, 1));
    assert!(array_layout::<u8>(isize::MAX as usize).is_ok());
    assert!(array_layout::<u8>(isize::MAX as usize + 1).is_err());
    assert!(array_layout::<u64>(isize::MAX as usize / 8).is_ok());
    assert!(array_layout::<u64>(isize::MAX as usize / 8 + 1).is_err());
    assert!(array_layout::<u64>(usize::MAX).is_err());
    assert!(array_layout::<()>(usize::MAX).is_ok());
}

#[test]
fn a_row_whose_size_overflows_is_refused_before_the_allocator_is_asked() {
    assert!(BoxSlice::new_slice(usize::MAX, 0u64).is_err());
    assert!(BoxSlice::new_slice(usize::MAX / 8 + 1, 0u64).is_err());
    assert!(BoxSlice::new_slice(isize::MAX as usize / 8 + 1, 0u64).is_err());
    let mut row = BoxSlice::new_slice(2, 3u64).unwrap();
    row.set(1, 4);
    for len in [usize::MAX, usize::MAX / 8 + 1, isize::MAX as usize / 8 + 1] {
        row = match BoxSlice::realloc(row, len, 0) {
            Err(back) => back,
            Ok(_) => panic!("a row of {} values", len),
        };
        assert_eq!(row.as_slice(), &[3, 4]);
    }
}
