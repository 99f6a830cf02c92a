use kns::elf::{
    read_u16, read_u32, read_u64, Header, IdentClass, IdentData, IdentOSABI, IdentVersion,
    Machine, ParseHeaderError, ProgramHeader, Type, Version, HEADER_SIZE, IDENT_MAGIC, PT_TLS,
};

fn put16(image: &mut [u8], at: usize, v: u16) {
    image[at..at + 2].copy_from_slice(&v.to_le_bytes());
}

fn put32(image: &mut [u8], at: usize, v: u32) {
    image[at..at + 4].copy_from_slice(&v.to_le_bytes());
}

fn put64(image: &mut [u8], at: usize, v: u64) {
    image[at..at + 8].copy_from_slice(&v.to_le_bytes());
}

/// A valid header, followed by `types.len()` program-header rows of 56 bytes.
fn image_with_rows(types: &[u32]) -> Vec<u8> {
    let mut image = vec![0u8; 64 + 56 * types.len()];
    image[0..4].copy_from_slice(&[0x7f, b'E', b'L', b'F']);
    image[4] = 2;
    image[5] = 1;
    image[6] = 1;
    image[7] = 0;
    image[8] = 0;
    put16(&mut image, 16, 2);
    put16(&mut image, 18, 62);
    put32(&mut image, 20, 1);
    put64(&mut image, 24, 0x401000);
    put64(&mut image, 32, 64);
    put64(&mut image, 40, 0x2000);
    put32(&mut image, 48, 0);
    put16(&mut image, 52, 64);
    put16(&mut image, 54, 56);
    put16(&mut image, 56, types.len() as u16);
    put16(&mut image, 58, 64);
    put16(&mut image, 60, 5);
    put16(&mut image, 62, 4);
    for (i, t) in types.iter().enumerate() {
        let at = 64 + 56 * i;
        put32(&mut image, at, *t);
        put32(&mut image, at + 4, 4 + i as u32);
        put64(&mut image, at + 8, 0x100 * i as u64);
        put64(&mut image, at + 16, 0x400000 + i as u64);
        put64(&mut image, at + 24, 0x500000 + i as u64);
        put64(&mut image, at + 32, 0x10 + i as u64);
        put64(&mut image, at + 40, 0x30 + i as u64);
        put64(&mut image, at + 48, 16);
    }
    image
}

#[test]
fn little_endian_reads() {
    let bytes = [0x01u8, 0x02, 0x03, 0x04, 0x05, 0x06, 0x07, 0x08, 0x09];
    assert_eq!(read_u16(&bytes, 0), 0x0201);
    assert_eq!(read_u16(&bytes, 7), 0x0908);
    assert_eq!(read_u32(&bytes, 0), 0x0403_0201);
    assert_eq!(read_u32(&bytes, 5), 0x0908_0706);
    assert_eq!(read_u64(&bytes, 0), 0x0807_0605_0403_0201);
    assert_eq!(read_u64(&bytes, 1), 0x0908_0706_0504_0302);
    let all = [0xffu8; 8];
    assert_eq!(read_u64(&all, 0), u64::MAX);
    assert_eq!(read_u32(&all, 0), u32::MAX);
    assert_eq!(read_u16(&all, 0), u16::MAX);
}

#[test]
fn short_buffers_are_incomplete() {
    let image = image_with_rows(&[]);
    for len in 0..64 {
        match Header::new(&image[..len]) {
            Err(ParseHeaderError::Incomplete) => {}
            other => panic!("length {}: {:?}", len, other.err()),
        }
    }
    assert!(Header::new(&image[..64]).is_ok());
    assert_eq!(HEADER_SIZE, 64);
}

#[test]
fn short_buffer_is_incomplete_whatever_it_holds() {
    let garbage = [0xabu8; 63];
    assert!(matches!(Header::new(&garbage), Err(ParseHeaderError::Incomplete)));
    assert!(matches!(Header::new(&[]), Err(ParseHeaderError::Incomplete)));
}

#[test]
fn valid_header_is_read_field_by_field() {
    let image = image_with_rows(&[1, 7]);
    let h = Header::new(&image).unwrap();
    assert_eq!(h.e_ident_magic, IDENT_MAGIC);
    assert_eq!(h.e_ident_class, IdentClass::X64);
    assert_eq!(h.e_ident_data, IdentData::LittleEndian);
    assert_eq!(h.e_ident_version, IdentVersion::Current);
    assert_eq!(h.e_ident_osabi, IdentOSABI::SystemV);
    assert_eq!(h.e_ident_abiversion, 0);
    assert_eq!(h.e_type, Type::Executable);
    assert_eq!(h.e_machine, Machine::X86_64);
    assert_eq!(h.e_version, Version::Current);
    assert_eq!(h.e_entry, 0x401000);
    assert_eq!(h.e_phoff, 64);
    assert_eq!(h.e_shoff, 0x2000);
    assert_eq!(h.e_flags, 0);
    assert_eq!(h.e_ehsize, 64);
    assert_eq!(h.e_phentsize, 56);
    assert_eq!(h.e_phnum, 2);
    assert_eq!(h.e_shentsize, 64);
    assert_eq!(h.e_shnum, 5);
    assert_eq!(h.e_shstrndx, 4);
}

#[test]
fn linux_abi_and_every_object_type_are_accepted() {
    let mut image = image_with_rows(&[]);
    image[7] = 3;
    assert_eq!(Header::new(&image).unwrap().e_ident_osabi, IdentOSABI::Linux);
    let kinds = [
        Type::NoType,
        Type::Relocatable,
        Type::Executable,
        Type::SharedObject,
        Type::Core,
    ];
    for (raw, kind) in kinds.iter().enumerate() {
        put16(&mut image, 16, raw as u16);
        assert_eq!(Header::new(&image).unwrap().e_type, *kind);
    }
}

#[test]
fn each_violation_is_named_with_the_offending_bytes() {
    let good = image_with_rows(&[]);

    let mut image = good.clone();
    image[1] = b'X';
    assert!(matches!(
        Header::new(&image),
        Err(ParseHeaderError::IdentMagicInvalid([0x7f, b'X', b'L', b'F']))
    ));

    let mut image = good.clone();
    image[4] = 1;
    assert!(matches!(Header::new(&image), Err(ParseHeaderError::IdentClassNot64Bit(1))));

    let mut image = good.clone();
    image[5] = 2;
    assert!(matches!(Header::new(&image), Err(ParseHeaderError::IdentDataNotLittleEndian(2))));

    let mut image = good.clone();
    image[6] = 0;
    assert!(matches!(Header::new(&image), Err(ParseHeaderError::IdentVersionNotRecognized(0))));

    let mut image = good.clone();
    image[7] = 9;
    assert!(matches!(Header::new(&image), Err(ParseHeaderError::IdentOSABINotSysVOrLinux(9))));

    let mut image = good.clone();
    put16(&mut image, 16, 5);
    assert!(matches!(Header::new(&image), Err(ParseHeaderError::TypeNotRecognized(5))));

    let mut image = good.clone();
    put16(&mut image, 18, 0x0103);
    assert!(matches!(Header::new(&image), Err(ParseHeaderError::MachineNotX86_64(0x0103))));

    let mut image = good.clone();
    put32(&mut image, 20, 0x0001_0001);
    assert!(matches!(
        Header::new(&image),
        Err(ParseHeaderError::VersionNotRecognized(0x0001_0001))
    ));

    let mut image = good.clone();
    put16(&mut image, 52, 52);
    assert!(matches!(Header::new(&image), Err(ParseHeaderError::ELFHeaderSizeWrong(52))));
}

#[test]
fn the_first_violation_wins() {
    let mut image = image_with_rows(&[]);
    image[4] = 1;
    image[5] = 2;
    put16(&mut image, 52, 1);
    assert!(matches!(Header::new(&image), Err(ParseHeaderError::IdentClassNot64Bit(1))));
    image[0] = 0;
    assert!(matches!(
        Header::new(&image),
        Err(ParseHeaderError::IdentMagicInvalid([0, b'E', b'L', b'F']))
    ));
}

#[test]
fn parse_errors_have_their_sentences() {
    assert_eq!(ParseHeaderError::Incomplete.to_string(), "incomplete");
    assert_eq!(
        ParseHeaderError::IdentMagicInvalid([1, 22, 0, 255]).to_string(),
        "wrong magic number: expected [127, 69, 76, 70], got [1, 22, 0, 255]"
    );
    assert_eq!(
        ParseHeaderError::IdentClassNot64Bit(1).to_string(),
        "unrecognized identification class 1"
    );
    assert_eq!(
        ParseHeaderError::IdentDataNotLittleEndian(2).to_string(),
        "unrecognized identification data format 2"
    );
    assert_eq!(
        ParseHeaderError::IdentVersionNotRecognized(0).to_string(),
        "unrecognized identification version 0"
    );
    assert_eq!(
        ParseHeaderError::IdentOSABINotSysVOrLinux(200).to_string(),
        "unrecognized OS ABI 200"
    );
    assert_eq!(ParseHeaderError::TypeNotRecognized(65535).to_string(), "unrecognized type 65535");
    assert_eq!(ParseHeaderError::MachineNotX86_64(3).to_string(), "unrecognized machine 3");
    assert_eq!(
        ParseHeaderError::VersionNotRecognized(4294967295).to_string(),
        "unrecognized version 4294967295"
    );
    assert_eq!(
        ParseHeaderError::ELFHeaderSizeWrong(52).to_string(),
        "wrong header size: expected 64, got 52"
    );
}

#[test]
fn rows_are_read_by_offset() {
    let image = image_with_rows(&[1, 6, 7]);
    let h = Header::new(&image).unwrap();
    let row = h.get_program_header(1, &image).unwrap();
    assert_eq!(
        row,
        ProgramHeader {
            p_type: 6,
            p_flags: 5,
            p_offset: 0x100,
            p_vaddr: 0x400001,
            p_paddr: 0x500001,
            p_filesz: 0x11,
            p_memsz: 0x31,
            p_align: 16,
        }
    );
    assert_eq!(h.get_program_header(0, &image).unwrap().p_type, 1);
    assert_eq!(h.get_program_header(2, &image).unwrap().p_type, 7);
}

#[test]
fn out_of_range_rows_yield_nothing() {
    let image = image_with_rows(&[1, 6, 7]);
    let h = Header::new(&image).unwrap();
    assert!(h.get_program_header(3, &image).is_none());
    assert!(h.get_program_header(4, &image).is_none());
    assert!(h.get_program_header(u16::MAX, &image).is_none());
    // The table is cut short: the last row does not lie inside the image.
    let cut = &image[..image.len() - 1];
    assert!(h.get_program_header(1, cut).is_some());
    assert!(h.get_program_header(2, cut).is_none());
    assert!(h.get_program_header(0, &image[..64]).is_none());
}

#[test]
fn a_table_beyond_the_image_has_no_rows() {
    let mut image = image_with_rows(&[1, 7]);
    put64(&mut image, 32, u64::MAX - 10);
    let h = Header::new(&image).unwrap();
    assert!(h.get_program_header(0, &image).is_none());
    assert!(h.program_headers(&image).is_empty());
    assert!(h.tls_program_header(&image).is_none());
}

#[test]
fn program_headers_lists_the_rows_in_order() {
    let image = image_with_rows(&[1, 6, 7, 2]);
    let h = Header::new(&image).unwrap();
    let rows = h.program_headers(&image);
    assert_eq!(rows.len(), 4);
    assert_eq!(rows.iter().map(|r| r.p_type).collect::<Vec<u32>>(), vec![1, 6, 7, 2]);
    for (i, row) in rows.iter().enumerate() {
        assert_eq!(Some(*row), h.get_program_header(i as u16, &image));
    }
    let cut = &image[..64 + 56 * 2 + 10];
    assert_eq!(h.program_headers(cut).len(), 2);
    // Restartable: a second listing is the same.
    assert_eq!(h.program_headers(&image), rows);
}

#[test]
fn the_single_tls_row_is_found() {
    for at in 0..5 {
        let mut types = [1u32, 2, 3, 4, 6];
        types[at] = PT_TLS;
        let image = image_with_rows(&types);
        let h = Header::new(&image).unwrap();
        let found = h.tls_program_header(&image).unwrap();
        assert_eq!(Some(found), h.get_program_header(at as u16, &image));
        assert_eq!(found.p_type, 7);
        assert_eq!(found.p_flags, 4 + at as u32);
        for other in 0..5 {
            if other != at {
                assert_ne!(Some(found), h.get_program_header(other as u16, &image));
            }
        }
    }
}

#[test]
fn an_image_without_tls_row_has_no_template() {
    let image = image_with_rows(&[1, 2, 6]);
    let h = Header::new(&image).unwrap();
    assert!(h.tls_program_header(&image).is_none());
    let image = image_with_rows(&[]);
    let h = Header::new(&image).unwrap();
    assert!(h.tls_program_header(&image).is_none());
}

#[test]
fn the_first_of_two_tls_rows_is_found() {
    let image = image_with_rows(&[1, 7, 7]);
    let h = Header::new(&image).unwrap();
    assert_eq!(h.tls_program_header(&image), h.get_program_header(1, &image));
}

#[test]
fn decoders_accept_only_their_values() {
    assert_eq!(IdentClass::from_u8(2), Some(IdentClass::X64));
    assert_eq!(IdentClass::from_u8(1), None);
    assert_eq!(IdentData::from_u8(1), Some(IdentData::LittleEndian));
    assert_eq!(IdentData::from_u8(2), None);
    assert_eq!(IdentVersion::from_u8(1), Some(IdentVersion::Current));
    assert_eq!(IdentVersion::from_u8(0), None);
    assert_eq!(IdentOSABI::from_u8(0), Some(IdentOSABI::SystemV));
    assert_eq!(IdentOSABI::from_u8(3), Some(IdentOSABI::Linux));
    assert_eq!(IdentOSABI::from_u8(1), None);
    assert_eq!(Type::from_u16(0), Some(Type::NoType));
    assert_eq!(Type::from_u16(4), Some(Type::Core));
    assert_eq!(Type::from_u16(5), None);
    assert_eq!(Machine::from_u16(62), Some(Machine::X86_64));
    assert_eq!(Machine::from_u16(3), None);
    assert_eq!(Version::from_u32(1), Some(Version::Current));
    assert_eq!(Version::from_u32(0), None);
}
