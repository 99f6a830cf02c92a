//! Inspection of an ELF64 little-endian image: the file header and the rows
//! of the program-header table.

use crate::text::{decimal, push_decimal};
use vstd::prelude::*;
use vstd::string::StringExecFns;

verus! {

/// Length in bytes of the file header.
pub const HEADER_SIZE: usize = 64;

/// Length in bytes of the magic number that opens the header.
pub const IDENT_MAGIC_LEN: usize = 4;

/// The magic number: `0x7f`, then `ELF`.
pub const IDENT_MAGIC: [u8; 4] = [0x7f, 0x45, 0x4c, 0x46];

/// Length in bytes of the part of a program-header row that is read.
pub const PROGRAM_HEADER_SIZE: usize = 56;

/// Segment type of the thread-local-storage template.
pub const PT_TLS: u32 = 7;

/// The 16-bit little-endian number at `at`.
pub open spec fn le_u16(s: Seq<u8>, at: int) -> u16 {
    (s[at] as int + s[at + 1] as int * 0x100) as u16
}

/// The 32-bit little-endian number at `at`.
pub open spec fn le_u32(s: Seq<u8>, at: int) -> u32 {
    (s[at] as int + s[at + 1] as int * 0x100 + s[at + 2] as int * 0x1_0000 + s[at + 3] as int
        * 0x100_0000) as u32
}

/// The 64-bit little-endian number at `at`.
pub open spec fn le_u64(s: Seq<u8>, at: int) -> u64 {
    (s[at] as int + s[at + 1] as int * 0x100 + s[at + 2] as int * 0x1_0000 + s[at + 3] as int
        * 0x100_0000 + s[at + 4] as int * 0x1_0000_0000 + s[at + 5] as int * 0x100_0000_0000 + s[at
        + 6] as int * 0x1_0000_0000_0000 + s[at + 7] as int * 0x100_0000_0000_0000) as u64
}

/// Reads the 16-bit little-endian number at `at`.
pub fn read_u16(bytes: &[u8], at: usize) -> (r: u16)
    requires
        at + 2 <= bytes@.len(),
    ensures
        r == le_u16(bytes@, at as int),
{
    (bytes[at] as u16) + (bytes[at + 1] as u16) * 0x100
}

/// Reads the 32-bit little-endian number at `at`.
pub fn read_u32(bytes: &[u8], at: usize) -> (r: u32)
    requires
        at + 4 <= bytes@.len(),
    ensures
        r == le_u32(bytes@, at as int),
{
    (bytes[at] as u32) + (bytes[at + 1] as u32) * 0x100 + (bytes[at + 2] as u32) * 0x1_0000 + (
    bytes[at + 3] as u32) * 0x100_0000
}

/// Reads the 64-bit little-endian number at `at`.
pub fn read_u64(bytes: &[u8], at: usize) -> (r: u64)
    requires
        at + 8 <= bytes@.len(),
    ensures
        r == le_u64(bytes@, at as int),
{
    (bytes[at] as u64) + (bytes[at + 1] as u64) * 0x100 + (bytes[at + 2] as u64) * 0x1_0000 + (
    bytes[at + 3] as u64) * 0x100_0000 + (bytes[at + 4] as u64) * 0x1_0000_0000 + (bytes[at
        + 5] as u64) * 0x100_0000_0000 + (bytes[at + 6] as u64) * 0x1_0000_0000_0000 + (bytes[at
        + 7] as u64) * 0x100_0000_0000_0000
}

/// Word size of the image. Only 64-bit images are accepted.
#[derive(Clone, Copy, Debug, PartialEq, Eq, Structural)]
pub enum IdentClass {
    X64,
}

/// Byte order of the image. Only little-endian images are accepted.
#[derive(Clone, Copy, Debug, PartialEq, Eq, Structural)]
pub enum IdentData {
    LittleEndian,
}

/// Version of the identification block.
#[derive(Clone, Copy, Debug, PartialEq, Eq, Structural)]
pub enum IdentVersion {
    Current,
}

/// Operating-system ABI that the image targets.
#[derive(Clone, Copy, Debug, PartialEq, Eq, Structural)]
pub enum IdentOSABI {
    SystemV,
    Linux,
}

/// Kind of object that the image holds.
#[derive(Clone, Copy, Debug, PartialEq, Eq, Structural)]
pub enum Type {
    NoType,
    Relocatable,
    Executable,
    SharedObject,
    Core,
}

/// Instruction set of the image. Only x86-64 is accepted.
#[derive(Clone, Copy, Debug, PartialEq, Eq, Structural)]
pub enum Machine {
    X86_64,
}

/// Version of the object file format.
#[derive(Clone, Copy, Debug, PartialEq, Eq, Structural)]
pub enum Version {
    Current,
}

impl IdentClass {
    pub open spec fn of_u8(n: u8) -> Option<IdentClass> {
        if n == 2 {
            Some(IdentClass::X64)
        } else {
            None
        }
    }

    pub fn from_u8(n: u8) -> (r: Option<IdentClass>)
        ensures
            r == IdentClass::of_u8(n),
    {
        if n == 2 {
            Some(IdentClass::X64)
        } else {
            None
        }
    }
}

impl IdentData {
    pub open spec fn of_u8(n: u8) -> Option<IdentData> {
        if n == 1 {
            Some(IdentData::LittleEndian)
        } else {
            None
        }
    }

    pub fn from_u8(n: u8) -> (r: Option<IdentData>)
        ensures
            r == IdentData::of_u8(n),
    {
        if n == 1 {
            Some(IdentData::LittleEndian)
        } else {
            None
        }
    }
}

impl IdentVersion {
    pub open spec fn of_u8(n: u8) -> Option<IdentVersion> {
        if n == 1 {
            Some(IdentVersion::Current)
        } else {
            None
        }
    }

    pub fn from_u8(n: u8) -> (r: Option<IdentVersion>)
        ensures
            r == IdentVersion::of_u8(n),
    {
        if n == 1 {
            Some(IdentVersion::Current)
        } else {
            None
        }
    }
}

impl IdentOSABI {
    pub open spec fn of_u8(n: u8) -> Option<IdentOSABI> {
        if n == 0 {
            Some(IdentOSABI::SystemV)
        } else if n == 3 {
            Some(IdentOSABI::Linux)
        } else {
            None
        }
    }

    pub fn from_u8(n: u8) -> (r: Option<IdentOSABI>)
        ensures
            r == IdentOSABI::of_u8(n),
    {
        if n == 0 {
            Some(IdentOSABI::SystemV)
        } else if n == 3 {
            Some(IdentOSABI::Linux)
        } else {
            None
        }
    }
}

impl Type {
    pub open spec fn of_u16(n: u16) -> Option<Type> {
        if n == 0 {
            Some(Type::NoType)
        } else if n == 1 {
            Some(Type::Relocatable)
        } else if n == 2 {
            Some(Type::Executable)
        } else if n == 3 {
            Some(Type::SharedObject)
        } else if n == 4 {
            Some(Type::Core)
        } else {
            None
        }
    }

    pub fn from_u16(n: u16) -> (r: Option<Type>)
        ensures
            r == Type::of_u16(n),
    {
        if n == 0 {
            Some(Type::NoType)
        } else if n == 1 {
            Some(Type::Relocatable)
        } else if n == 2 {
            Some(Type::Executable)
        } else if n == 3 {
            Some(Type::SharedObject)
        } else if n == 4 {
            Some(Type::Core)
        } else {
            None
        }
    }
}

impl Machine {
    pub open spec fn of_u16(n: u16) -> Option<Machine> {
        if n == 62 {
            Some(Machine::X86_64)
        } else {
            None
        }
    }

    pub fn from_u16(n: u16) -> (r: Option<Machine>)
        ensures
            r == Machine::of_u16(n),
    {
        if n == 62 {
            Some(Machine::X86_64)
        } else {
            None
        }
    }
}

impl Version {
    pub open spec fn of_u32(n: u32) -> Option<Version> {
        if n == 1 {
            Some(Version::Current)
        } else {
            None
        }
    }

    pub fn from_u32(n: u32) -> (r: Option<Version>)
        ensures
            r == Version::of_u32(n),
    {
        if n == 1 {
            Some(Version::Current)
        } else {
            None
        }
    }
}

/// Why a byte buffer is not an acceptable file header. Each variant but the
/// first carries the offending field as it was read.
#[derive(Debug)]
pub enum ParseHeaderError {
    Incomplete,
    IdentMagicInvalid([u8; 4]),
    IdentClassNot64Bit(u8),
    IdentDataNotLittleEndian(u8),
    IdentVersionNotRecognized(u8),
    IdentOSABINotSysVOrLinux(u8),
    TypeNotRecognized(u16),
    MachineNotX86_64(u16),
    VersionNotRecognized(u32),
    ELFHeaderSizeWrong(u16),
}

/// The file header of an accepted image.
pub struct Header {
    pub e_ident_magic: [u8; 4],
    pub e_ident_class: IdentClass,
    pub e_ident_data: IdentData,
    pub e_ident_version: IdentVersion,
    pub e_ident_osabi: IdentOSABI,
    pub e_ident_abiversion: u8,
    pub e_type: Type,
    pub e_machine: Machine,
    pub e_version: Version,
    pub e_entry: u64,
    pub e_phoff: u64,
    pub e_shoff: u64,
    pub e_flags: u32,
    pub e_ehsize: u16,
    pub e_phentsize: u16,
    pub e_phnum: u16,
    pub e_shentsize: u16,
    pub e_shnum: u16,
    pub e_shstrndx: u16,
}

/// One row of the program-header table.
#[derive(Clone, Copy, Debug, PartialEq, Eq, Structural)]
pub struct ProgramHeader {
    pub p_type: u32,
    pub p_flags: u32,
    pub p_offset: u64,
    pub p_vaddr: u64,
    pub p_paddr: u64,
    pub p_filesz: u64,
    pub p_memsz: u64,
    pub p_align: u64,
}

/// The first four bytes of the buffer.
pub open spec fn magic_at(bytes: Seq<u8>) -> [u8; 4] {
    [bytes[0], bytes[1], bytes[2], bytes[3]]
}

/// The first check that `bytes` fails, in the order in which the fields are
/// validated; `None` where every check passes.
pub open spec fn first_violation(bytes: Seq<u8>) -> Option<ParseHeaderError> {
    if bytes.len() < 64 {
        Some(ParseHeaderError::Incomplete)
    } else if magic_at(bytes) != IDENT_MAGIC {
        Some(ParseHeaderError::IdentMagicInvalid(magic_at(bytes)))
    } else if IdentClass::of_u8(bytes[4]) is None {
        Some(ParseHeaderError::IdentClassNot64Bit(bytes[4]))
    } else if IdentData::of_u8(bytes[5]) is None {
        Some(ParseHeaderError::IdentDataNotLittleEndian(bytes[5]))
    } else if IdentVersion::of_u8(bytes[6]) is None {
        Some(ParseHeaderError::IdentVersionNotRecognized(bytes[6]))
    } else if IdentOSABI::of_u8(bytes[7]) is None {
        Some(ParseHeaderError::IdentOSABINotSysVOrLinux(bytes[7]))
    } else if Type::of_u16(le_u16(bytes, 16)) is None {
        Some(ParseHeaderError::TypeNotRecognized(le_u16(bytes, 16)))
    } else if Machine::of_u16(le_u16(bytes, 18)) is None {
        Some(ParseHeaderError::MachineNotX86_64(le_u16(bytes, 18)))
    } else if Version::of_u32(le_u32(bytes, 20)) is None {
        Some(ParseHeaderError::VersionNotRecognized(le_u32(bytes, 20)))
    } else if le_u16(bytes, 52) != 64 {
        Some(ParseHeaderError::ELFHeaderSizeWrong(le_u16(bytes, 52)))
    } else {
        None
    }
}

/// The header that the first 64 bytes of an accepted buffer spell out.
pub open spec fn header_fields(bytes: Seq<u8>) -> Header {
    Header {
        e_ident_magic: magic_at(bytes),
        e_ident_class: IdentClass::of_u8(bytes[4])->Some_0,
        e_ident_data: IdentData::of_u8(bytes[5])->Some_0,
        e_ident_version: IdentVersion::of_u8(bytes[6])->Some_0,
        e_ident_osabi: IdentOSABI::of_u8(bytes[7])->Some_0,
        e_ident_abiversion: bytes[8],
        e_type: Type::of_u16(le_u16(bytes, 16))->Some_0,
        e_machine: Machine::of_u16(le_u16(bytes, 18))->Some_0,
        e_version: Version::of_u32(le_u32(bytes, 20))->Some_0,
        e_entry: le_u64(bytes, 24),
        e_phoff: le_u64(bytes, 32),
        e_shoff: le_u64(bytes, 40),
        e_flags: le_u32(bytes, 48),
        e_ehsize: le_u16(bytes, 52),
        e_phentsize: le_u16(bytes, 54),
        e_phnum: le_u16(bytes, 56),
        e_shentsize: le_u16(bytes, 58),
        e_shnum: le_u16(bytes, 60),
        e_shstrndx: le_u16(bytes, 62),
    }
}

/// What parsing a buffer yields: the first violation, or the header.
pub open spec fn parse_header(bytes: Seq<u8>) -> Result<Header, ParseHeaderError> {
    match first_violation(bytes) {
        Some(e) => Err(e),
        None => Ok(header_fields(bytes)),
    }
}

/// The row that the 56 bytes at `at` spell out.
pub open spec fn program_header_at(bytes: Seq<u8>, at: int) -> ProgramHeader {
    ProgramHeader {
        p_type: le_u32(bytes, at),
        p_flags: le_u32(bytes, at + 4),
        p_offset: le_u64(bytes, at + 8),
        p_vaddr: le_u64(bytes, at + 16),
        p_paddr: le_u64(bytes, at + 24),
        p_filesz: le_u64(bytes, at + 32),
        p_memsz: le_u64(bytes, at + 40),
        p_align: le_u64(bytes, at + 48),
    }
}

impl Header {
    /// Offset in the image of row `idx` of the program-header table.
    pub open spec fn row_offset(self, idx: int) -> int {
        self.e_phoff as int + self.e_phentsize as int * idx
    }

    /// Number of bytes of the image that row `idx` must be able to claim: the
    /// declared row size, and at least the part that is read.
    pub open spec fn row_span(self) -> int {
        if self.e_phentsize as int > 56 {
            self.e_phentsize as int
        } else {
            56
        }
    }

    /// Whether row `idx` exists: the index is below the declared count and
    /// the row lies wholly inside the image.
    pub open spec fn has_row(self, idx: int, bytes: Seq<u8>) -> bool {
        0 <= idx < self.e_phnum as int && self.row_offset(idx) + self.row_span() <= bytes.len()
    }

    /// Row `idx`, where it exists.
    pub open spec fn row(self, idx: int, bytes: Seq<u8>) -> Option<ProgramHeader> {
        if self.has_row(idx, bytes) {
            Some(program_header_at(bytes, self.row_offset(idx)))
        } else {
            None
        }
    }

    /// Whether `rows` is the program-header table of the image: it holds
    /// every row that exists, each at its index.
    pub open spec fn is_row_table(self, bytes: Seq<u8>, rows: Seq<ProgramHeader>) -> bool {
        &&& forall|i: int| self.has_row(i, bytes) <==> 0 <= i < rows.len()
        &&& forall|i: int| 0 <= i < rows.len() ==> Some(#[trigger] rows[i]) == self.row(i, bytes)
    }

    /// Whether row `idx` exists, is a thread-local-storage segment, and no
    /// row before it is one.
    pub open spec fn is_first_tls_row(self, idx: int, bytes: Seq<u8>) -> bool {
        &&& self.has_row(idx, bytes)
        &&& program_header_at(bytes, self.row_offset(idx)).p_type == PT_TLS
        &&& forall|j: int|
            0 <= j < idx ==> (#[trigger] program_header_at(bytes, self.row_offset(j))).p_type
                != PT_TLS
    }

    /// The first row whose segment type is thread-local storage; `None`
    /// where the table holds no such row.
    pub open spec fn tls_row(self, bytes: Seq<u8>) -> Option<ProgramHeader> {
        if exists|i: int| self.is_first_tls_row(i, bytes) {
            self.row(choose|i: int| self.is_first_tls_row(i, bytes), bytes)
        } else {
            None
        }
    }

    /// A row that exists is preceded only by rows that exist.
    pub proof fn lemma_rows_form_a_prefix(self, i: int, k: int, bytes: Seq<u8>)
        requires
            0 <= i <= k,
            self.has_row(k, bytes),
        ensures
            self.has_row(i, bytes),
    {
        assert(self.e_phentsize as int * i <= self.e_phentsize as int * k) by (nonlinear_arith)
            requires
                0 <= i <= k,
                0 <= self.e_phentsize as int,
        ;
    }

    /// Parses and validates the file header at the start of `program`.
    ///
    /// The checks run in a fixed order (length, magic number, class, byte
    /// order, identification version, OS ABI, object type, machine, version,
    /// declared header size) and the first one that fails is reported.
    pub fn new(program: &[u8]) -> (r: Result<Header, ParseHeaderError>)
        ensures
            r == parse_header(program@),
            program@.len() < HEADER_SIZE ==> r == Err::<Header, ParseHeaderError>(
                ParseHeaderError::Incomplete,
            ),
    {
        if program.len() < HEADER_SIZE {
            return Err(ParseHeaderError::Incomplete);
        }
        let e_ident_magic: [u8; 4] = [program[0], program[1], program[2], program[3]];
        assert(e_ident_magic == magic_at(program@));
        if e_ident_magic[0] != IDENT_MAGIC[0] || e_ident_magic[1] != IDENT_MAGIC[1]
            || e_ident_magic[2] != IDENT_MAGIC[2] || e_ident_magic[3] != IDENT_MAGIC[3] {
            return Err(ParseHeaderError::IdentMagicInvalid(e_ident_magic));
        }
        assert(e_ident_magic@ =~= IDENT_MAGIC@);
        let e_ident_class = match IdentClass::from_u8(program[4]) {
            Some(c) => c,
            None => {
                return Err(ParseHeaderError::IdentClassNot64Bit(program[4]));
            },
        };
        let e_ident_data = match IdentData::from_u8(program[5]) {
            Some(d) => d,
            None => {
                return Err(ParseHeaderError::IdentDataNotLittleEndian(program[5]));
            },
        };
        let e_ident_version = match IdentVersion::from_u8(program[6]) {
            Some(v) => v,
            None => {
                return Err(ParseHeaderError::IdentVersionNotRecognized(program[6]));
            },
        };
        let e_ident_osabi = match IdentOSABI::from_u8(program[7]) {
            Some(a) => a,
            None => {
                return Err(ParseHeaderError::IdentOSABINotSysVOrLinux(program[7]));
            },
        };
        let e_ident_abiversion: u8 = program[8];
        let raw_type: u16 = read_u16(program, 16);
        let e_type = match Type::from_u16(raw_type) {
            Some(t) => t,
            None => {
                return Err(ParseHeaderError::TypeNotRecognized(raw_type));
            },
        };
        let raw_machine: u16 = read_u16(program, 18);
        let e_machine = match Machine::from_u16(raw_machine) {
            Some(m) => m,
            None => {
                return Err(ParseHeaderError::MachineNotX86_64(raw_machine));
            },
        };
        let raw_version: u32 = read_u32(program, 20);
        let e_version = match Version::from_u32(raw_version) {
            Some(v) => v,
            None => {
                return Err(ParseHeaderError::VersionNotRecognized(raw_version));
            },
        };
        let e_entry: u64 = read_u64(program, 24);
        let e_phoff: u64 = read_u64(program, 32);
        let e_shoff: u64 = read_u64(program, 40);
        let e_flags: u32 = read_u32(program, 48);
        let e_ehsize: u16 = read_u16(program, 52);
        if e_ehsize != 64 {
            return Err(ParseHeaderError::ELFHeaderSizeWrong(e_ehsize));
        }
        let e_phentsize: u16 = read_u16(program, 54);
        let e_phnum: u16 = read_u16(program, 56);
        let e_shentsize: u16 = read_u16(program, 58);
        let e_shnum: u16 = read_u16(program, 60);
        let e_shstrndx: u16 = read_u16(program, 62);
        Ok(
            Header {
                e_ident_magic,
                e_ident_class,
                e_ident_data,
                e_ident_version,
                e_ident_osabi,
                e_ident_abiversion,
                e_type,
                e_machine,
                e_version,
                e_entry,
                e_phoff,
                e_shoff,
                e_flags,
                e_ehsize,
                e_phentsize,
                e_phnum,
                e_shentsize,
                e_shnum,
                e_shstrndx,
            },
        )
    }

    /// Row `idx` of the program-header table, found by offset arithmetic
    /// from the header's fields. An index at or beyond the declared count, or
    /// a row that does not lie wholly inside `program`, yields no row.
    pub fn get_program_header(&self, idx: u16, program: &[u8]) -> (r: Option<ProgramHeader>)
        ensures
            r == self.row(idx as int, program@),
    {
        if idx >= self.e_phnum {
            return None;
        }
        let span: u64 = if self.e_phentsize > 56 {
            self.e_phentsize as u64
        } else {
            56
        };
        assert(self.e_phentsize as int * idx as int <= 0xffff * 0xffff) by (nonlinear_arith)
            requires
                0 <= self.e_phentsize as int <= 0xffff,
                0 <= idx as int <= 0xffff,
        ;
        let step: u64 = (self.e_phentsize as u64) * (idx as u64);
        let len: u64 = program.len() as u64;
        if self.e_phoff > len || step > len - self.e_phoff || span > len - self.e_phoff - step {
            return None;
        }
        let at: usize = (self.e_phoff + step) as usize;
        Some(
            ProgramHeader {
                p_type: read_u32(program, at),
                p_flags: read_u32(program, at + 4),
                p_offset: read_u64(program, at + 8),
                p_vaddr: read_u64(program, at + 16),
                p_paddr: read_u64(program, at + 24),
                p_filesz: read_u64(program, at + 32),
                p_memsz: read_u64(program, at + 40),
                p_align: read_u64(program, at + 48),
            },
        )
    }

    /// The rows of the program-header table that exist, in table order.
    pub fn program_headers(&self, program: &[u8]) -> (r: Vec<ProgramHeader>)
        ensures
            self.is_row_table(program@, r@),
    {
        let mut rows: Vec<ProgramHeader> = Vec::new();
        let mut idx: u16 = 0;
        while idx < self.e_phnum
            invariant_except_break
                idx <= self.e_phnum,
                rows@.len() == idx,
                forall|i: int| 0 <= i < idx ==> self.has_row(i, program@),
                forall|i: int| 0 <= i < idx ==> Some(#[trigger] rows@[i]) == self.row(i, program@),
            ensures
                self.is_row_table(program@, rows@),
            decreases self.e_phnum - idx,
        {
            match self.get_program_header(idx, program) {
                Some(row) => {
                    rows.push(row);
                    idx = idx + 1;
                },
                None => {
                    proof {
                        assert forall|i: int| self.has_row(i, program@) implies 0 <= i
                            < rows@.len() by {
                            if i >= idx {
                                self.lemma_rows_form_a_prefix(idx as int, i, program@);
                            }
                        }
                    }
                    break ;
                },
            }
        }
        rows
    }

    /// The thread-local-storage segment of the image: the first row of the
    /// program-header table whose type is [`PT_TLS`]. An image without one
    /// has no thread-local state, which is no error.
    pub fn tls_program_header(&self, program: &[u8]) -> (r: Option<ProgramHeader>)
        ensures
            r == self.tls_row(program@),
    {
        let mut idx: u16 = 0;
        while idx < self.e_phnum
            invariant
                idx <= self.e_phnum,
                forall|i: int| 0 <= i < idx ==> self.has_row(i, program@),
                forall|i: int|
                    0 <= i < idx ==> (#[trigger] program_header_at(
                        program@,
                        self.row_offset(i),
                    )).p_type != PT_TLS,
            decreases self.e_phnum - idx,
        {
            match self.get_program_header(idx, program) {
                Some(row) => {
                    if row.p_type == PT_TLS {
                        proof {
                            assert(self.is_first_tls_row(idx as int, program@));
                            let c = choose|i: int| self.is_first_tls_row(i, program@);
                            assert(c == idx) by {
                                if c < idx {
                                    assert(program_header_at(program@, self.row_offset(c)).p_type
                                        != PT_TLS);
                                } else if c > idx {
                                    assert(program_header_at(
                                        program@,
                                        self.row_offset(idx as int),
                                    ).p_type != PT_TLS);
                                }
                            }
                        }
                        return Some(row);
                    }
                    idx = idx + 1;
                },
                None => {
                    proof {
                        assert forall|i: int| !self.is_first_tls_row(i, program@) by {
                            if self.has_row(i, program@) && i >= idx {
                                self.lemma_rows_form_a_prefix(idx as int, i, program@);
                            }
                        }
                    }
                    return None;
                },
            }
        }
        proof {
            assert forall|i: int| !self.is_first_tls_row(i, program@) by {}
        }
        None
    }

    /// An image whose table holds exactly one thread-local-storage row has
    /// that row, and no other, as the result of the lookup.
    pub proof fn lemma_single_tls_row_is_found(self, idx: int, bytes: Seq<u8>)
        requires
            self.has_row(idx, bytes),
            program_header_at(bytes, self.row_offset(idx)).p_type == PT_TLS,
            forall|j: int|
                self.has_row(j, bytes) && j != idx ==> (#[trigger] program_header_at(
                    bytes,
                    self.row_offset(j),
                )).p_type != PT_TLS,
        ensures
            self.tls_row(bytes) == self.row(idx, bytes),
            forall|j: int|
                self.has_row(j, bytes) && j != idx ==> self.tls_row(bytes) != self.row(j, bytes),
    {
        assert(self.is_first_tls_row(idx, bytes)) by {
            assert forall|j: int| 0 <= j < idx implies (#[trigger] program_header_at(
                bytes,
                self.row_offset(j),
            )).p_type != PT_TLS by {
                self.lemma_rows_form_a_prefix(j, idx, bytes);
            }
        }
        let c = choose|i: int| self.is_first_tls_row(i, bytes);
        assert(c == idx);
    }
}

/// Four bytes as a list of numbers in brackets.
pub open spec fn byte_list(m: [u8; 4]) -> Seq<char> {
    "["@ + decimal(m[0] as nat) + ", "@ + decimal(m[1] as nat) + ", "@ + decimal(m[2] as nat)
        + ", "@ + decimal(m[3] as nat) + "]"@
}

/// Appends four bytes as a list of numbers in brackets.
fn push_byte_list(out: &mut String, m: &[u8; 4])
    ensures
        final(out)@ == old(out)@ + byte_list(*m),
{
    out.append("[");
    push_decimal(out, m[0] as u64);
    out.append(", ");
    push_decimal(out, m[1] as u64);
    out.append(", ");
    push_decimal(out, m[2] as u64);
    out.append(", ");
    push_decimal(out, m[3] as u64);
    out.append("]");
    assert(out@ =~= old(out)@ + byte_list(*m));
}

impl ParseHeaderError {
    /// The sentence that reports the error.
    pub open spec fn text(self) -> Seq<char> {
        match self {
            ParseHeaderError::Incomplete => "incomplete"@,
            ParseHeaderError::IdentMagicInvalid(m) => "wrong magic number: expected "@ + byte_list(
                IDENT_MAGIC,
            ) + ", got "@ + byte_list(m),
            ParseHeaderError::IdentClassNot64Bit(c) => "unrecognized identification class "@
                + decimal(c as nat),
            ParseHeaderError::IdentDataNotLittleEndian(d) =>
                "unrecognized identification data format "@ + decimal(d as nat),
            ParseHeaderError::IdentVersionNotRecognized(v) =>
                "unrecognized identification version "@ + decimal(v as nat),
            ParseHeaderError::IdentOSABINotSysVOrLinux(a) => "unrecognized OS ABI "@ + decimal(
                a as nat,
            ),
            ParseHeaderError::TypeNotRecognized(t) => "unrecognized type "@ + decimal(t as nat),
            ParseHeaderError::MachineNotX86_64(m) => "unrecognized machine "@ + decimal(m as nat),
            ParseHeaderError::VersionNotRecognized(v) => "unrecognized version "@ + decimal(
                v as nat,
            ),
            ParseHeaderError::ELFHeaderSizeWrong(s) => "wrong header size: expected "@ + decimal(
                64,
            ) + ", got "@ + decimal(s as nat),
        }
    }

    /// The sentence that reports the error.
    pub fn to_string(&self) -> (r: String)
        ensures
            r@ == self.text(),
    {
        match self {
            ParseHeaderError::Incomplete => String::from_str("incomplete"),
            ParseHeaderError::IdentMagicInvalid(m) => {
                let mut out = String::from_str("wrong magic number: expected ");
                let expected: [u8; 4] = IDENT_MAGIC;
                push_byte_list(&mut out, &expected);
                out.append(", got ");
                push_byte_list(&mut out, m);
                out
            },
            ParseHeaderError::IdentClassNot64Bit(c) => {
                let mut out = String::from_str("unrecognized identification class ");
                push_decimal(&mut out, *c as u64);
                out
            },
            ParseHeaderError::IdentDataNotLittleEndian(d) => {
                let mut out = String::from_str("unrecognized identification data format ");
                push_decimal(&mut out, *d as u64);
                out
            },
            ParseHeaderError::IdentVersionNotRecognized(v) => {
                let mut out = String::from_str("unrecognized identification version ");
                push_decimal(&mut out, *v as u64);
                out
            },
            ParseHeaderError::IdentOSABINotSysVOrLinux(a) => {
                let mut out = String::from_str("unrecognized OS ABI ");
                push_decimal(&mut out, *a as u64);
                out
            },
            ParseHeaderError::TypeNotRecognized(t) => {
                let mut out = String::from_str("unrecognized type ");
                push_decimal(&mut out, *t as u64);
                out
            },
            ParseHeaderError::MachineNotX86_64(m) => {
                let mut out = String::from_str("unrecognized machine ");
                push_decimal(&mut out, *m as u64);
                out
            },
            ParseHeaderError::VersionNotRecognized(v) => {
                let mut out = String::from_str("unrecognized version ");
                push_decimal(&mut out, *v as u64);
                out
            },
            ParseHeaderError::ELFHeaderSizeWrong(s) => {
                let mut out = String::from_str("wrong header size: expected ");
                push_decimal(&mut out, HEADER_SIZE as u64);
                out.append(", got ");
                push_decimal(&mut out, *s as u64);
                out
            },
        }
    }
}

} // verus!
