use kns::errno::ErrorNumber;
use kns::fd::{write_all, FileDescriptor, WriteAll};
use kns::stdio::open::{
    parse_mode, OpenMode, CREATE_MODE, O_APPEND, O_CLOEXEC, O_CREAT, O_RDONLY, O_RDWR, O_TRUNC,
    O_WRONLY,
};
use kns::stdio::standard::{
    standard_error, standard_input, standard_output, stdout_probe, stdout_probe_link, ProbeStep,
    NULL_DEVICE,
};
use kns::stdio::{
    fclose, fclose_closed, fclose_written, fgets, fgets_resume, fopen, fopen_resume, fputs,
    fputs_resume, require_handle, Buffer, BufferingKind, CloseStep, GetsStep, OpenStep, PutsStep,
    DEFAULT_BUFLEN, EOF, FILE,
};
use kns::types::{stat, S_IFCHR, S_IFREG};

/// A stand-in for the file behind a descriptor: what is written goes to the
/// end, and reads take from the start what was not read yet. A write accepts
/// at most `accept` bytes at once and a read gives at most `give`.
struct File {
    data: Vec<u8>,
    read_at: usize,
    accept: usize,
    give: usize,
    writes: usize,
    reads: usize,
    fail_writes_with: Option<isize>,
    fail_reads: bool,
}

fn file() -> File {
    File {
        data: Vec::new(),
        read_at: 0,
        accept: usize::MAX,
        give: usize::MAX,
        writes: 0,
        reads: 0,
        fail_writes_with: None,
        fail_reads: false,
    }
}

fn file_write(f: &mut File, bytes: &[u8]) -> isize {
    f.writes += 1;
    if let Some(code) = f.fail_writes_with {
        return code;
    }
    let n = bytes.len().min(f.accept);
    f.data.extend_from_slice(&bytes[..n]);
    n as isize
}

fn file_read(f: &mut File, space: &mut [u8]) -> isize {
    f.reads += 1;
    if f.fail_reads {
        return -1;
    }
    let n = space.len().min(f.give).min(f.data.len() - f.read_at);
    space[..n].copy_from_slice(&f.data[f.read_at..f.read_at + n]);
    f.read_at += n;
    n as isize
}

fn stream(fd: i32, readable: bool, writable: bool, policy: BufferingKind) -> FILE {
    let fd = FileDescriptor::try_from(fd).unwrap();
    FILE::from_parts(fd, readable, writable, policy).unwrap()
}

/// Runs a whole string-write against the stand-in file.
fn put(s: &[u8], stream: &mut FILE, f: &mut File) -> (i32, Option<ErrorNumber>) {
    let mut step = fputs(s, stream);
    loop {
        match step {
            PutsStep::Done { written, errno } => return (written, errno),
            PutsStep::Write { fd, progress } => {
                assert_eq!(fd, stream.fd().as_raw());
                let rc = file_write(f, stream.write_pending());
                step = fputs_resume(s, stream, progress, rc);
            }
        }
    }
}

/// Runs a whole line-read against the stand-in file: the line with its
/// terminator, or `None`.
fn get(size: usize, stream: &mut FILE, f: &mut File) -> Option<Vec<u8>> {
    let mut dest = vec![0xEEu8; size];
    let mut step = fgets(&mut dest, stream);
    loop {
        match step {
            GetsStep::Null(_) => return None,
            GetsStep::Line(len) => {
                assert_eq!(dest[len], 0);
                return Some(dest[..len + 1].to_vec());
            }
            GetsStep::Read { fd, capacity, progress } => {
                assert_eq!(fd, stream.fd().as_raw());
                let space = stream.read_space();
                assert_eq!(space.len(), capacity);
                let rc = file_read(f, space);
                step = fgets_resume(&mut dest, stream, progress, rc);
            }
        }
    }
}

#[test]
fn buffer_starts_empty_with_its_capacity() {
    let mut b = Buffer::try_new(16).unwrap();
    assert!(b.get_slice().is_empty());
    assert_eq!(b.put_slice().len(), 16);
    let empty = Buffer::try_new(0).unwrap();
    assert!(empty.get_slice().is_empty());
}

#[test]
fn buffer_put_and_get_move_the_cursors() {
    let mut b = Buffer::try_new(8).unwrap();
    b.put_slice()[..5].copy_from_slice(b"hello");
    b.put(5);
    assert_eq!(b.get_slice(), b"hello");
    assert_eq!(b.put_slice().len(), 3);
    b.get(2);
    assert_eq!(b.get_slice(), b"llo");
    assert_eq!(b.put_slice().len(), 3);
    b.put_slice()[..3].copy_from_slice(b"abc");
    b.put(3);
    assert_eq!(b.get_slice(), b"lloabc");
    assert_eq!(b.put_slice().len(), 0);
}

#[test]
fn buffer_cursors_reset_when_they_meet() {
    let mut b = Buffer::try_new(8).unwrap();
    b.put_slice()[..8].copy_from_slice(b"12345678");
    b.put(8);
    assert_eq!(b.put_slice().len(), 0);
    b.get(3);
    assert_eq!(b.put_slice().len(), 0);
    b.get(5);
    assert!(b.get_slice().is_empty());
    assert_eq!(b.put_slice().len(), 8);
    b.put(0);
    b.get(0);
    assert_eq!(b.put_slice().len(), 8);
}

#[test]
fn buffer_flush_retries_partial_writes() {
    let fd = FileDescriptor::try_from(4).unwrap();
    let mut b = Buffer::try_new(16).unwrap();
    b.put_slice()[..10].copy_from_slice(b"0123456789");
    b.put(10);
    assert_eq!(b.flush(&fd, None), WriteAll::Write { fd: 4, from: 0 });
    assert_eq!(b.get_slice(), b"0123456789");
    assert_eq!(b.flush(&fd, Some(4)), WriteAll::Write { fd: 4, from: 4 });
    assert_eq!(b.get_slice(), b"456789");
    assert_eq!(b.flush(&fd, Some(0)), WriteAll::Write { fd: 4, from: 0 });
    assert_eq!(b.get_slice(), b"456789");
    assert_eq!(b.flush(&fd, Some(6)), WriteAll::Done(Ok(())));
    assert!(b.get_slice().is_empty());
    assert_eq!(b.put_slice().len(), 16);
}

#[test]
fn buffer_flush_of_nothing_is_done_at_once() {
    let fd = FileDescriptor::try_from(4).unwrap();
    let mut b = Buffer::try_new(16).unwrap();
    assert_eq!(b.flush(&fd, None), WriteAll::Done(Ok(())));
}

#[test]
fn buffer_flush_drops_what_a_failed_write_left() {
    let fd = FileDescriptor::try_from(4).unwrap();
    let mut b = Buffer::try_new(16).unwrap();
    b.put_slice()[..10].copy_from_slice(b"0123456789");
    b.put(10);
    assert_eq!(b.flush(&fd, None), WriteAll::Write { fd: 4, from: 0 });
    assert_eq!(b.flush(&fd, Some(3)), WriteAll::Write { fd: 4, from: 3 });
    assert_eq!(b.flush(&fd, Some(-9)), WriteAll::Done(Err(ErrorNumber::Badf)));
    assert!(b.get_slice().is_empty());
    assert_eq!(b.put_slice().len(), 16);
}

#[test]
fn write_all_steps() {
    let fd = FileDescriptor::try_from(7).unwrap();
    let data = b"abcdef";
    assert_eq!(write_all(&fd, data, 0, None), WriteAll::Write { fd: 7, from: 0 });
    assert_eq!(write_all(&fd, data, 0, Some(2)), WriteAll::Write { fd: 7, from: 2 });
    assert_eq!(write_all(&fd, data, 2, Some(3)), WriteAll::Write { fd: 7, from: 5 });
    assert_eq!(write_all(&fd, data, 5, Some(1)), WriteAll::Done(Ok(())));
    assert_eq!(write_all(&fd, data, 5, Some(0)), WriteAll::Write { fd: 7, from: 5 });
    assert_eq!(write_all(&fd, data, 2, Some(-22)), WriteAll::Done(Err(ErrorNumber::Inval)));
    assert_eq!(write_all(&fd, b"", 0, None), WriteAll::Done(Ok(())));
    assert_eq!(write_all(&fd, data, 6, None), WriteAll::Done(Ok(())));
}

#[test]
fn from_parts_gives_the_buffers_asked_for() {
    let mut rw = stream(3, true, true, BufferingKind::Full);
    assert_eq!(rw.fd().as_raw(), 3);
    assert!(!rw.is_eof());
    assert!(!rw.is_error());
    assert_eq!(rw.read_space().len(), DEFAULT_BUFLEN);
    assert!(rw.write_pending().is_empty());
    assert_eq!(DEFAULT_BUFLEN, 64 * 1024);

    let mut r = stream(3, true, false, BufferingKind::Full);
    assert!(matches!(
        fputs(b"x", &mut r),
        PutsStep::Done { written: EOF, errno: Some(ErrorNumber::Badf) }
    ));
    let mut w = stream(3, false, true, BufferingKind::Full);
    let mut dest = [0u8; 8];
    assert!(matches!(fgets(&mut dest, &mut w), GetsStep::Null(Some(ErrorNumber::Badf))));
}

#[test]
fn modes_map_to_flags() {
    let r = O_RDONLY | O_CLOEXEC;
    let rp = O_RDWR | O_CLOEXEC;
    let w = O_WRONLY | O_CREAT | O_TRUNC | O_CLOEXEC;
    let wp = O_RDWR | O_CREAT | O_TRUNC | O_CLOEXEC;
    let a = O_WRONLY | O_CREAT | O_APPEND | O_CLOEXEC;
    let ap = O_RDWR | O_CREAT | O_APPEND | O_CLOEXEC;
    assert_eq!(r, 0o2000000);
    assert_eq!(rp, 0o2000002);
    assert_eq!(w, 0o2001101);
    assert_eq!(wp, 0o2001102);
    assert_eq!(a, 0o2002101);
    assert_eq!(ap, 0o2002102);
    let table: [(&[u8], i32, bool, bool); 15] = [
        (b"r", r, true, false),
        (b"rb", r, true, false),
        (b"r+", rp, true, true),
        (b"r+b", rp, true, true),
        (b"rb+", rp, true, true),
        (b"w", w, false, true),
        (b"wb", w, false, true),
        (b"w+", wp, true, true),
        (b"w+b", wp, true, true),
        (b"wb+", wp, true, true),
        (b"a", a, false, true),
        (b"ab", a, false, true),
        (b"a+", ap, true, true),
        (b"a+b", ap, true, true),
        (b"ab+", ap, true, true),
    ];
    for (mode, flags, is_readable, is_writable) in table {
        assert_eq!(parse_mode(mode), Some(OpenMode { flags, is_readable, is_writable }));
        let request = OpenMode { flags, is_readable, is_writable };
        assert_eq!(fopen(mode), OpenStep::Open { flags, mode: 0o666, request });
    }
    assert_eq!(CREATE_MODE, 0o666);
}

#[test]
fn a_mode_ends_at_its_zero_byte() {
    assert_eq!(parse_mode(b"r\0garbage"), parse_mode(b"r"));
    assert_eq!(parse_mode(b"w+\0"), parse_mode(b"w+"));
    assert_eq!(parse_mode(b"\0r"), None);
}

#[test]
fn bad_modes_are_invalid_arguments_and_open_nothing() {
    assert_eq!(fopen(b""), OpenStep::Failed(ErrorNumber::Inval));
    assert_eq!(fopen(b"x"), OpenStep::Failed(ErrorNumber::Inval));
    let bad: [&[u8]; 14] = [
        b"\0", b"b", b"+", b"rr", b"r++", b"rbb", b"rw", b"r+bx", b"rb+b", b"wbx", b"R", b"w +",
        b"a+x", b"rx",
    ];
    for mode in bad {
        assert_eq!(parse_mode(mode), None);
        assert_eq!(fopen(mode), OpenStep::Failed(ErrorNumber::Inval));
    }
}

#[test]
fn fopen_resume_makes_a_fully_buffered_stream() {
    let request = parse_mode(b"w+").unwrap();
    let mut f = fopen_resume(request, 5).unwrap();
    assert_eq!(f.fd().as_raw(), 5);
    assert_eq!(f.read_space().len(), DEFAULT_BUFLEN);
    // Full buffering: a line stays in the buffer.
    assert!(matches!(fputs(b"line\n", &mut f), PutsStep::Done { written: 5, errno: None }));
    assert_eq!(f.write_pending(), b"line\n");
}

#[test]
fn fopen_resume_reports_the_failure_of_open() {
    let request = parse_mode(b"r").unwrap();
    match fopen_resume(request, -22) {
        Err((e, fd)) => {
            assert_eq!(e, ErrorNumber::Inval);
            assert!(fd.is_none());
        }
        Ok(_) => panic!("opened"),
    }
    assert!(matches!(fopen_resume(request, -12), Err((ErrorNumber::Nomem, None))));
}

#[test]
fn a_missing_handle_is_an_invalid_argument() {
    assert_eq!(require_handle::<u8>(None), Err(ErrorNumber::Inval));
    assert_eq!(require_handle(Some(5u8)), Ok(5u8));
}

#[test]
fn lines_written_are_read_back_and_then_the_end() {
    let mode = parse_mode(b"w+").unwrap();
    assert!(mode.is_readable && mode.is_writable);
    let mut s = stream(3, mode.is_readable, mode.is_writable, BufferingKind::Line);
    let mut f = file();
    assert_eq!(put(b"alpha\n", &mut s, &mut f), (6, None));
    assert_eq!(put(b"beta\n", &mut s, &mut f), (5, None));
    assert_eq!(f.data, b"alpha\nbeta\n");
    assert_eq!(get(64, &mut s, &mut f), Some(b"alpha\n\0".to_vec()));
    assert!(!s.is_eof());
    assert_eq!(get(64, &mut s, &mut f), Some(b"beta\n\0".to_vec()));
    assert!(!s.is_eof());
    // The third read meets the end: it delivers no byte and raises the flag.
    assert_eq!(get(64, &mut s, &mut f), Some(b"\0".to_vec()));
    assert!(s.is_eof());
    // From then on nothing is handed out.
    assert_eq!(get(64, &mut s, &mut f), None);
    assert_eq!(get(64, &mut s, &mut f), None);
    assert!(!s.is_error());
}

#[test]
fn a_small_destination_cuts_the_line_and_the_next_read_continues() {
    let mut s = stream(3, true, false, BufferingKind::Full);
    let mut f = file();
    f.data.extend_from_slice(b"hello\n");
    assert_eq!(get(4, &mut s, &mut f), Some(b"hel\0".to_vec()));
    assert_eq!(get(4, &mut s, &mut f), Some(b"lo\n\0".to_vec()));
    assert_eq!(f.reads, 1);
}

#[test]
fn a_line_that_just_fits_keeps_its_line_feed() {
    let mut s = stream(3, true, false, BufferingKind::Full);
    let mut f = file();
    f.data.extend_from_slice(b"abc\ndef\n");
    // Room for "abc\n" and the terminator.
    assert_eq!(get(5, &mut s, &mut f), Some(b"abc\n\0".to_vec()));
    // One byte short: the line feed stays behind.
    assert_eq!(get(4, &mut s, &mut f), Some(b"def\0".to_vec()));
    assert_eq!(get(4, &mut s, &mut f), Some(b"\n\0".to_vec()));
}

#[test]
fn a_destination_of_one_byte_gets_the_terminator_only() {
    let mut s = stream(3, true, false, BufferingKind::Full);
    let mut f = file();
    f.data.extend_from_slice(b"abc\n");
    assert_eq!(get(1, &mut s, &mut f), Some(b"\0".to_vec()));
    assert_eq!(f.reads, 0);
    assert_eq!(get(8, &mut s, &mut f), Some(b"abc\n\0".to_vec()));
}

#[test]
fn a_destination_without_room_is_an_invalid_argument() {
    let mut s = stream(3, true, false, BufferingKind::Full);
    let mut dest: [u8; 0] = [];
    assert!(matches!(fgets(&mut dest, &mut s), GetsStep::Null(Some(ErrorNumber::Inval))));
}

#[test]
fn a_line_is_gathered_across_refills() {
    let mut s = stream(3, true, false, BufferingKind::Full);
    let mut f = file();
    f.give = 2;
    f.data.extend_from_slice(b"alpha\nbeta");
    assert_eq!(get(64, &mut s, &mut f), Some(b"alpha\n\0".to_vec()));
    assert_eq!(f.reads, 3);
    // The last line has no line feed: the end of the data completes it.
    assert_eq!(get(64, &mut s, &mut f), Some(b"beta\0".to_vec()));
    assert!(s.is_eof());
    assert_eq!(get(64, &mut s, &mut f), None);
}

#[test]
fn a_failed_read_sets_the_error_flag_for_good() {
    let mut s = stream(3, true, false, BufferingKind::Full);
    let mut f = file();
    f.fail_reads = true;
    assert_eq!(get(16, &mut s, &mut f), None);
    assert!(s.is_error());
    assert!(!s.is_eof());
    assert_eq!(f.reads, 1);
    // The descriptor would deliver now, but the stream does not recover: it
    // hands out nothing and asks for no read.
    f.fail_reads = false;
    f.data.extend_from_slice(b"x\n");
    assert_eq!(get(16, &mut s, &mut f), None);
    let mut dest = [7u8; 16];
    assert!(matches!(fgets(&mut dest, &mut s), GetsStep::Null(None)));
    assert_eq!(dest, [7u8; 16]);
    assert_eq!(f.reads, 1);
    assert!(s.is_error());
}

#[test]
fn a_failed_read_after_a_line_stops_the_stream() {
    let mut s = stream(3, true, false, BufferingKind::Full);
    let mut f = file();
    f.give = 3;
    f.data.extend_from_slice(b"ab\ncd");
    assert_eq!(get(16, &mut s, &mut f), Some(b"ab\n\0".to_vec()));
    f.fail_reads = true;
    assert_eq!(get(16, &mut s, &mut f), None);
    assert!(s.is_error());
    f.fail_reads = false;
    assert_eq!(get(16, &mut s, &mut f), None);
}

#[test]
fn the_error_flag_is_one_for_both_directions() {
    let mut s = stream(3, true, true, BufferingKind::Unbuffered);
    let mut f = file();
    f.fail_reads = true;
    assert_eq!(get(16, &mut s, &mut f), None);
    assert!(s.is_error());
    assert_eq!(put(b"late", &mut s, &mut f), (EOF, None));
    assert_eq!(f.writes, 0);

    let mut s = stream(3, true, true, BufferingKind::Unbuffered);
    let mut f = file();
    f.fail_writes_with = Some(-9);
    assert_eq!(put(b"lost", &mut s, &mut f), (EOF, Some(ErrorNumber::Badf)));
    assert!(s.is_error());
    f.fail_writes_with = None;
    f.data.extend_from_slice(b"x\n");
    assert_eq!(get(16, &mut s, &mut f), None);
    assert_eq!(f.reads, 0);
}

#[test]
fn unbuffered_streams_flush_every_write() {
    let mut s = stream(2, false, true, BufferingKind::Unbuffered);
    let mut f = file();
    assert_eq!(put(b"no line feed", &mut s, &mut f), (12, None));
    assert_eq!(f.data, b"no line feed");
    assert_eq!(f.writes, 1);
    assert!(s.write_pending().is_empty());
    assert_eq!(put(b"", &mut s, &mut f), (0, None));
    assert_eq!(f.writes, 1);
}

#[test]
fn line_buffered_streams_flush_at_a_line_feed() {
    let mut s = stream(1, false, true, BufferingKind::Line);
    let mut f = file();
    assert_eq!(put(b"partial", &mut s, &mut f), (7, None));
    assert!(f.data.is_empty());
    assert_eq!(s.write_pending(), b"partial");
    assert_eq!(put(b" line\nrest", &mut s, &mut f), (10, None));
    assert_eq!(f.data, b"partial line\nrest");
    assert!(s.write_pending().is_empty());
}

#[test]
fn fully_buffered_streams_flush_when_full() {
    let mut s = stream(5, false, true, BufferingKind::Full);
    let mut f = file();
    assert_eq!(put(b"line\n", &mut s, &mut f), (5, None));
    assert!(f.data.is_empty());
    let big = vec![b'x'; DEFAULT_BUFLEN];
    assert_eq!(put(&big, &mut s, &mut f), (DEFAULT_BUFLEN as i32, None));
    assert_eq!(f.writes, 1);
    assert_eq!(f.data.len(), DEFAULT_BUFLEN);
    assert_eq!(&f.data[..5], b"line\n");
    assert_eq!(s.write_pending().len(), 5);
}

#[test]
fn a_string_that_fills_the_buffer_exactly_is_flushed() {
    let mut s = stream(5, false, true, BufferingKind::Full);
    let mut f = file();
    let big = vec![b'y'; DEFAULT_BUFLEN];
    assert_eq!(put(&big, &mut s, &mut f), (DEFAULT_BUFLEN as i32, None));
    assert_eq!(f.data.len(), DEFAULT_BUFLEN);
    assert!(s.write_pending().is_empty());
}

#[test]
fn a_long_string_is_written_in_buffer_loads() {
    let mut s = stream(5, false, true, BufferingKind::Line);
    let mut f = file();
    f.accept = 1000;
    let mut big = Vec::new();
    for i in 0..(3 * DEFAULT_BUFLEN + 17) {
        big.push(b'a' + (i % 23) as u8);
    }
    big.push(b'\n');
    assert_eq!(put(&big, &mut s, &mut f), (big.len() as i32, None));
    assert_eq!(f.data, big);
    assert!(s.write_pending().is_empty());
}

#[test]
fn a_string_ends_at_its_zero_byte() {
    let mut s = stream(5, false, true, BufferingKind::Unbuffered);
    let mut f = file();
    assert_eq!(put(b"abc\0def", &mut s, &mut f), (3, None));
    assert_eq!(f.data, b"abc");
}

#[test]
fn a_failed_write_ends_the_string_write_and_sets_the_error_flag() {
    let mut s = stream(5, false, true, BufferingKind::Unbuffered);
    let mut f = file();
    f.fail_writes_with = Some(-9);
    assert!(!s.is_error());
    assert_eq!(put(b"lost", &mut s, &mut f), (EOF, Some(ErrorNumber::Badf)));
    assert!(s.write_pending().is_empty());
    assert!(s.is_error());
    assert_eq!(f.writes, 1);
    // The descriptor would accept now, but the stream does not recover: it
    // takes nothing and asks for no write.
    f.fail_writes_with = None;
    assert_eq!(put(b"late", &mut s, &mut f), (EOF, None));
    assert!(matches!(fputs(b"late", &mut s), PutsStep::Done { written: EOF, errno: None }));
    assert!(s.write_pending().is_empty());
    assert!(f.data.is_empty());
    assert_eq!(f.writes, 1);
    assert!(s.is_error());
}

#[test]
fn a_line_feed_taken_before_a_full_buffer_still_asks_for_the_last_flush() {
    let mut s = stream(5, false, true, BufferingKind::Line);
    let mut f = file();
    let mut text = b"a\n".to_vec();
    text.extend(std::iter::repeat(b'b').take(65534));
    text.extend_from_slice(b"cc");
    assert_eq!(text.len(), 65538);
    text.push(0);
    assert_eq!(put(&text, &mut s, &mut f), (65538, None));
    assert_eq!(f.data, &text[..65538]);
    assert_eq!(f.writes, 2);
    assert!(s.write_pending().is_empty());
}

#[test]
fn a_line_feed_taken_in_an_earlier_call_asks_for_no_flush() {
    let mut s = stream(5, false, true, BufferingKind::Full);
    let mut f = file();
    assert_eq!(put(b"a\n", &mut s, &mut f), (2, None));
    let mut line = FILE::with_buffers(
        FileDescriptor::try_from(6).unwrap(),
        None,
        Some(Buffer::in_storage(Some(Vec::new()), DEFAULT_BUFLEN)),
        BufferingKind::Line,
    )
    .unwrap();
    assert_eq!(put(b"no feed", &mut line, &mut f), (7, None));
    assert_eq!(line.write_pending(), b"no feed");
    assert_eq!(put(b" yet", &mut line, &mut f), (4, None));
    assert_eq!(line.write_pending(), b"no feed yet");
    assert!(f.data.is_empty());
}

#[test]
fn every_byte_reaches_the_descriptor_or_stays_pending_in_order() {
    for policy in [BufferingKind::Unbuffered, BufferingKind::Line, BufferingKind::Full] {
        let mut s = stream(5, false, true, policy);
        let mut f = file();
        f.accept = 7777;
        assert_eq!(put(b"before", &mut s, &mut f), (6, None));
        let mut text = Vec::new();
        for i in 0..(2 * DEFAULT_BUFLEN + 12345) {
            text.push(if i % 1000 == 999 { b'\n' } else { b'a' + (i % 26) as u8 });
        }
        assert_eq!(put(&text, &mut s, &mut f), (text.len() as i32, None));
        let mut all = f.data.clone();
        all.extend_from_slice(s.write_pending());
        let mut expected = b"before".to_vec();
        expected.extend_from_slice(&text);
        assert_eq!(all, expected);
        // The buffer is never left full.
        assert!(s.write_pending().len() < DEFAULT_BUFLEN);
        if policy == BufferingKind::Unbuffered {
            assert!(s.write_pending().is_empty());
        }
    }
}

#[test]
fn a_buffer_beyond_the_address_space_is_refused() {
    assert!(Buffer::try_new(usize::MAX).is_err());
    assert!(Buffer::try_new(isize::MAX as usize + 1).is_err());
}

#[test]
fn closing_flushes_and_then_closes() {
    let mut s = stream(6, false, true, BufferingKind::Full);
    let mut f = file();
    f.accept = 4;
    assert_eq!(put(b"pending!\n", &mut s, &mut f), (9, None));
    assert!(f.data.is_empty());
    let mut step = fclose(s);
    let closing = loop {
        match step {
            CloseStep::Write { fd, writing } => {
                assert_eq!(fd, 6);
                let rc = file_write(&mut f, writing.remaining());
                step = fclose_written(writing, rc);
            }
            CloseStep::Close { fd, closing } => {
                assert_eq!(fd, 6);
                break closing;
            }
        }
    };
    assert_eq!(f.data, b"pending!\n");
    assert_eq!(f.writes, 3);
    assert_eq!(fclose_closed(closing, 0), (0, None));
}

#[test]
fn closing_a_stream_without_pending_bytes_only_closes() {
    let s = stream(6, true, true, BufferingKind::Full);
    match fclose(s) {
        CloseStep::Close { fd, closing } => {
            assert_eq!(fd, 6);
            assert_eq!(fclose_closed(closing, -9), (EOF, Some(ErrorNumber::Badf)));
        }
        CloseStep::Write { .. } => panic!("nothing to write"),
    }
    let r = stream(7, true, false, BufferingKind::Full);
    assert!(matches!(fclose(r), CloseStep::Close { fd: 7, .. }));
}

#[test]
fn closing_after_a_failed_write_still_closes_and_reports_the_write() {
    let mut s = stream(6, false, true, BufferingKind::Full);
    let mut f = file();
    assert_eq!(put(b"data", &mut s, &mut f), (4, None));
    match fclose(s) {
        CloseStep::Write { writing, .. } => match fclose_written(writing, -12) {
            CloseStep::Close { fd, closing } => {
                assert_eq!(fd, 6);
                assert_eq!(fclose_closed(closing, 0), (EOF, Some(ErrorNumber::Nomem)));
            }
            CloseStep::Write { .. } => panic!("write after a failure"),
        },
        CloseStep::Close { .. } => panic!("pending bytes were skipped"),
    }
}

#[test]
fn standard_streams_have_their_policies() {
    let mut input = standard_input().unwrap();
    assert_eq!(input.fd().as_raw(), 0);
    assert_eq!(input.read_space().len(), DEFAULT_BUFLEN);
    assert!(matches!(fputs(b"x", &mut input), PutsStep::Done { written: EOF, .. }));

    let mut error = standard_error().unwrap();
    assert_eq!(error.fd().as_raw(), 2);
    let mut f = file();
    assert_eq!(put(b"now", &mut error, &mut f), (3, None));
    assert_eq!(f.data, b"now");

    let mut output = standard_output(BufferingKind::Line).unwrap();
    assert_eq!(output.fd().as_raw(), 1);
    let mut f = file();
    assert_eq!(put(b"wait", &mut output, &mut f), (4, None));
    assert!(f.data.is_empty());
    assert_eq!(put(b"\n", &mut output, &mut f), (1, None));
    assert_eq!(f.data, b"wait\n");
}

#[test]
fn standard_output_policy_follows_its_target() {
    let mut record = stat::default();
    record.st_mode = S_IFREG | 0o644;
    assert_eq!(stdout_probe(0, &record), ProbeStep::Decided(BufferingKind::Full));
    assert_eq!(stdout_probe(-9, &record), ProbeStep::Decided(BufferingKind::Line));
    record.st_mode = S_IFCHR | 0o620;
    assert_eq!(stdout_probe(0, &record), ProbeStep::ReadLink);
    assert_eq!(stdout_probe(-9, &record), ProbeStep::Decided(BufferingKind::Line));

    assert_eq!(&NULL_DEVICE, b"/dev/null");
    assert_eq!(stdout_probe_link(9, b"/dev/null"), BufferingKind::Full);
    assert_eq!(stdout_probe_link(9, b"/dev/pts/"), BufferingKind::Line);
    assert_eq!(stdout_probe_link(8, b"/dev/nul\0"), BufferingKind::Line);
    assert_eq!(stdout_probe_link(0, b"/dev/null"), BufferingKind::Line);
    assert_eq!(stdout_probe_link(-22, b"/dev/null"), BufferingKind::Line);
}

#[test]
fn a_stream_whose_buffer_cannot_be_had_hands_its_descriptor_back() {
    let fd = FileDescriptor::try_from(8).unwrap();
    match FILE::with_buffers(fd, Some(Err(())), None, BufferingKind::Full) {
        Err((e, back)) => {
            assert_eq!(e, ErrorNumber::Nomem);
            assert_eq!(back.as_raw(), 8);
        }
        Ok(_) => panic!("a stream without its read buffer"),
    }
    let fd = FileDescriptor::try_from(8).unwrap();
    let read = Buffer::in_storage(Some(Vec::new()), DEFAULT_BUFLEN);
    assert!(matches!(
        FILE::with_buffers(fd, Some(read), Some(Err(())), BufferingKind::Full),
        Err((ErrorNumber::Nomem, _))
    ));
    let fd = FileDescriptor::try_from(8).unwrap();
    assert!(FILE::with_buffers(fd, None, None, BufferingKind::Line).is_ok());
    assert!(Buffer::in_storage(None, 16).is_err());
    let mut b = Buffer::in_storage(Some(Vec::new()), 16).unwrap();
    assert_eq!(b.put_slice().len(), 16);
}
