//! The start of a process, from its first instruction to the program's
//! entry point, and its end.
//!
//! The runtime finds the file that it runs from, maps it, reads from it the
//! template of the thread-local storage, builds the control block of the
//! main thread, and only then gives the mapping of the file up: the template
//! lies in that mapping. Each stage is a value that is given up for the next
//! one, so that no stage can be left out or taken twice, and each system call
//! is named by the stage before it and its raw result handed to the stage
//! behind it. A stage that fails ends the start for good.

use crate::elf::{Header, ParseHeaderError};
use crate::errno::{classifiable, error_of_code, ErrorNumber};
use crate::fd::{is_handle, lemma_handle_of_raw, FileDescriptor};
use crate::stdio::open::O_RDONLY;
use crate::syscall::SyscallResult;
use crate::tcb::{storage_len, template_wf, TCBBox};
use crate::tls::{round_up, Template, TemplateError, PAGE_SIZE, TCB_SIZE};
use crate::text::{push_signed_decimal, signed_decimal};
use crate::types::stat;
use vstd::prelude::*;
use vstd::string::StringExecFns;

verus! {

/// Longest path that is asked for.
pub const PATH_MAX: usize = 4096;

/// Pages may be read.
pub const PROT_READ: i32 = 0x1;

/// Pages may be written.
pub const PROT_WRITE: i32 = 0x2;

/// The mapping shares the file's pages.
pub const MAP_SHARED: i32 = 0x01;

/// The mapping is the process's own.
pub const MAP_PRIVATE: i32 = 0x02;

/// The mapping is backed by no file and starts out as zeros.
pub const MAP_ANONYMOUS: i32 = 0x20;

/// The request that sets the base of the thread pointer.
pub const ARCH_SET_FS: i32 = 0x1002;

/// The stage at which the start of a process failed.
#[derive(Clone, Copy, Debug, PartialEq, Eq, Structural)]
pub enum BootStep {
    ReadPath,
    OpenSelf,
    StatSelf,
    MapSelf,
    ParseHeader,
    ReadTemplate,
    CloseSelf,
    MapControlBlock,
    UnmapSelf,
    InitAllocator,
}

/// Why a stage failed.
#[derive(Debug)]
pub enum Cause {
    /// A system call failed.
    Os(ErrorNumber),
    /// The file is no image that the runtime accepts.
    Image(ParseHeaderError),
    /// The thread-local-storage segment describes no template.
    Storage(TemplateError),
    /// The allocator reported this code when it was set up.
    Allocator(i32),
}

/// The failure that ends the start of a process.
#[derive(Debug)]
pub struct Fatal {
    pub step: BootStep,
    pub cause: Cause,
}

impl BootStep {
    /// What the stage could not do.
    pub open spec fn text(self) -> Seq<char> {
        match self {
            BootStep::ReadPath => "couldn't read path to self"@,
            BootStep::OpenSelf => "couldn't open self"@,
            BootStep::StatSelf => "couldn't fstat self"@,
            BootStep::MapSelf => "couldn't mmap self"@,
            BootStep::ParseHeader => "couldn't parse ELF header of self"@,
            BootStep::ReadTemplate => "couldn't read thread-local storage template of self"@,
            BootStep::CloseSelf => "couldn't close self"@,
            BootStep::MapControlBlock => "couldn't map thread control block for main thread"@,
            BootStep::UnmapSelf => "couldn't unmap self"@,
            BootStep::InitAllocator => "couldn't initialize allocator"@,
        }
    }

    /// What the stage could not do.
    pub fn describe(self) -> (r: &'static str)
        ensures
            r@ == self.text(),
    {
        match self {
            BootStep::ReadPath => "couldn't read path to self",
            BootStep::OpenSelf => "couldn't open self",
            BootStep::StatSelf => "couldn't fstat self",
            BootStep::MapSelf => "couldn't mmap self",
            BootStep::ParseHeader => "couldn't parse ELF header of self",
            BootStep::ReadTemplate => "couldn't read thread-local storage template of self",
            BootStep::CloseSelf => "couldn't close self",
            BootStep::MapControlBlock => "couldn't map thread control block for main thread",
            BootStep::UnmapSelf => "couldn't unmap self",
            BootStep::InitAllocator => "couldn't initialize allocator",
        }
    }
}

impl Cause {
    /// The sentence that reports the cause.
    pub open spec fn text(self) -> Seq<char> {
        match self {
            Cause::Os(e) => e.text(),
            Cause::Image(e) => e.text(),
            Cause::Storage(e) => e.text(),
            Cause::Allocator(code) => "allocator returned "@ + signed_decimal(code as int),
        }
    }
}

impl Fatal {
    /// The diagnostic: what the stage could not do, a colon, and why.
    pub open spec fn text(self) -> Seq<char> {
        self.step.text() + ": "@ + self.cause.text()
    }

    /// The diagnostic that goes to standard error before the process ends.
    pub fn to_string(&self) -> (r: String)
        ensures
            r@ == self.text(),
    {
        let mut out = String::from_str(self.step.describe());
        out.append(": ");
        match &self.cause {
            Cause::Os(e) => {
                let why = e.to_string();
                out.append(why.as_str());
            },
            Cause::Image(e) => {
                let why = e.to_string();
                out.append(why.as_str());
            },
            Cause::Storage(e) => {
                out.append(e.describe());
            },
            Cause::Allocator(code) => {
                out.append("allocator returned ");
                push_signed_decimal(&mut out, *code as i64);
                assert(out@ =~= self.text());
            },
        }
        out
    }
}

/// The failure of stage `step` by the system call that returned `result`.
pub open spec fn os_failure(step: BootStep, result: isize) -> Fatal {
    Fatal { step, cause: Cause::Os(error_of_code(-result)->Some_0) }
}

/// Reads the link that names the running file into a buffer of
/// `capacity` bytes.
#[derive(Clone, Copy, Debug, PartialEq, Eq, Structural)]
pub struct ReadLinkCall {
    pub capacity: usize,
}

/// Opens the file whose path the first `path_len` bytes of the buffer hold.
#[derive(Clone, Copy, Debug, PartialEq, Eq, Structural)]
pub struct OpenCall {
    pub path_len: usize,
    pub flags: i32,
    pub mode: u32,
}

/// Asks for the status of descriptor `fd`.
#[derive(Clone, Copy, Debug, PartialEq, Eq, Structural)]
pub struct FstatCall {
    pub fd: i32,
}

/// Maps `len` bytes wherever the operating system places them.
#[derive(Clone, Copy, Debug, PartialEq, Eq, Structural)]
pub struct MmapCall {
    pub len: usize,
    pub prot: i32,
    pub flags: i32,
    pub fd: i32,
    pub offset: i64,
}

/// Closes descriptor `fd`.
#[derive(Clone, Copy, Debug, PartialEq, Eq, Structural)]
pub struct CloseCall {
    pub fd: i32,
}

/// Gives up the mapping of `len` bytes at `addr`.
#[derive(Clone, Copy, Debug, PartialEq, Eq, Structural)]
pub struct MunmapCall {
    pub addr: usize,
    pub len: usize,
}

/// Sets the base of the thread pointer to `addr`.
#[derive(Clone, Copy, Debug, PartialEq, Eq, Structural)]
pub struct SetThreadPointerCall {
    pub code: i32,
    pub addr: usize,
}

/// The runtime reads the path of the file that it runs from.
#[derive(Debug)]
pub struct ReadingPath {}

/// The runtime opens that file.
#[derive(Debug)]
pub struct Opening {
    path_len: usize,
}

/// The runtime asks for the file's size.
#[derive(Debug)]
pub struct Stating {
    fd: FileDescriptor,
}

/// The runtime maps the file.
#[derive(Debug)]
pub struct Mapping {
    fd: FileDescriptor,
    len: usize,
}

/// The file is mapped, and the runtime reads its header.
#[derive(Debug)]
pub struct Inspecting {
    fd: FileDescriptor,
    addr: usize,
    len: usize,
}

/// The runtime closes the file's descriptor; the mapping stays.
#[derive(Debug)]
pub struct Closing {
    fd: FileDescriptor,
    addr: usize,
    len: usize,
}

/// The runtime maps the main thread's storage and control block.
#[derive(Debug)]
pub struct MappingControlBlock {
    addr: usize,
    len: usize,
}

/// The control block is built, and the runtime gives the file's mapping up.
#[derive(Debug)]
pub struct Unmapping {
    tcb_addr: usize,
}

/// The runtime sets up the allocator.
#[derive(Debug)]
pub struct StartingAllocator {}

/// The runtime is up: the program's entry point runs next.
#[derive(Debug)]
pub struct Running {}

impl Opening {
    /// Length of the path.
    pub closed spec fn path_len(self) -> int {
        self.path_len as int
    }
}

impl Stating {
    /// Number of the file's descriptor.
    pub closed spec fn descriptor(self) -> int {
        self.fd.raw()
    }
}

impl Mapping {
    /// Number of the file's descriptor.
    pub closed spec fn descriptor(self) -> int {
        self.fd.raw()
    }

    /// Length of the file.
    pub closed spec fn image_len(self) -> int {
        self.len as int
    }
}

impl Inspecting {
    /// Number of the file's descriptor.
    pub closed spec fn descriptor(self) -> int {
        self.fd.raw()
    }

    /// Address of the mapping.
    pub closed spec fn image_addr(self) -> int {
        self.addr as int
    }

    /// Length of the mapping.
    pub closed spec fn image_len(self) -> int {
        self.len as int
    }
}

impl Closing {
    /// Number of the file's descriptor.
    pub closed spec fn descriptor(self) -> int {
        self.fd.raw()
    }

    /// Address of the mapping.
    pub closed spec fn image_addr(self) -> int {
        self.addr as int
    }

    /// Length of the mapping.
    pub closed spec fn image_len(self) -> int {
        self.len as int
    }
}

impl MappingControlBlock {
    /// Address of the file's mapping.
    pub closed spec fn image_addr(self) -> int {
        self.addr as int
    }

    /// Length of the file's mapping.
    pub closed spec fn image_len(self) -> int {
        self.len as int
    }
}

impl Unmapping {
    /// Address of the main thread's control block.
    pub closed spec fn tcb_addr(self) -> int {
        self.tcb_addr as int
    }
}

/// Begins the start of a process: the link that names the running file is
/// read into a buffer of [`PATH_MAX`] bytes.
pub fn start() -> (r: (ReadingPath, ReadLinkCall))
    ensures
        r.1 == (ReadLinkCall { capacity: PATH_MAX }),
{
    (ReadingPath {  }, ReadLinkCall { capacity: PATH_MAX })
}

impl ReadingPath {
    /// Takes the result of reading the link: the length of the path. The
    /// file is opened next, for reading only.
    pub fn path_read(self, result: isize) -> (r: Result<(Opening, OpenCall), Fatal>)
        requires
            classifiable(result),
            !result.failed() ==> 0 <= result as int <= PATH_MAX,
        ensures
            match r {
                Ok((next, call)) => !result.failed() && next.path_len() == result && call == (
                OpenCall { path_len: result as usize, flags: O_RDONLY, mode: 0 }),
                Err(f) => result.failed() && f == os_failure(BootStep::ReadPath, result),
            },
    {
        match ErrorNumber::from_syscall::<usize>(result) {
            Ok(path_len) => Ok(
                (Opening { path_len }, OpenCall { path_len, flags: O_RDONLY, mode: 0 }),
            ),
            Err(e) => Err(Fatal { step: BootStep::ReadPath, cause: Cause::Os(e) }),
        }
    }
}

impl Opening {
    /// Takes the result of opening the file: its descriptor. The file's
    /// status is asked for next.
    pub fn opened(self, result: isize) -> (r: Result<(Stating, FstatCall), Fatal>)
        requires
            classifiable(result),
            !result.failed() ==> is_handle(result as int),
        ensures
            match r {
                Ok((next, call)) => !result.failed() && next.descriptor() == result && call == (
                FstatCall { fd: result as i32 }),
                Err(f) => result.failed() && f == os_failure(BootStep::OpenSelf, result),
            },
    {
        broadcast use lemma_handle_of_raw;

        match ErrorNumber::from_syscall::<FileDescriptor>(result) {
            Ok(fd) => {
                let raw: i32 = fd.as_raw();
                Ok((Stating { fd }, FstatCall { fd: raw }))
            },
            Err(e) => Err(Fatal { step: BootStep::OpenSelf, cause: Cause::Os(e) }),
        }
    }
}

impl Stating {
    /// Takes the result of asking for the file's status, and the record
    /// that the call filled in. The whole file is mapped next, for reading,
    /// sharing the file's pages; its size is taken as a machine word.
    pub fn stated(self, result: isize, record: &stat) -> (r: Result<(Mapping, MmapCall), Fatal>)
        requires
            classifiable(result),
        ensures
            match r {
                Ok((next, call)) => !result.failed() && next.descriptor() == self.descriptor()
                    && next.image_len() == record.st_size as usize && call == (MmapCall {
                    len: record.st_size as usize,
                    prot: PROT_READ,
                    flags: MAP_SHARED,
                    fd: self.descriptor() as i32,
                    offset: 0,
                }),
                Err(f) => result.failed() && f == os_failure(BootStep::StatSelf, result),
            },
    {
        if let Some(e) = ErrorNumber::from_failure(result) {
            return Err(Fatal { step: BootStep::StatSelf, cause: Cause::Os(e) });
        }
        let len: usize = #[verifier::truncate] (record.st_size as usize);
        let raw: i32 = self.fd.as_raw();
        Ok(
            (
                Mapping { fd: self.fd, len },
                MmapCall { len, prot: PROT_READ, flags: MAP_SHARED, fd: raw, offset: 0 },
            ),
        )
    }
}

impl Mapping {
    /// Takes the result of mapping the file: the address of the mapping.
    /// The mapped bytes are inspected next.
    pub fn mapped(self, result: isize) -> (r: Result<Inspecting, Fatal>)
        requires
            classifiable(result),
        ensures
            match r {
                Ok(next) => !result.failed() && next.descriptor() == self.descriptor()
                    && next.image_addr() == result as usize && next.image_len()
                    == self.image_len(),
                Err(f) => result.failed() && f == os_failure(BootStep::MapSelf, result),
            },
    {
        if let Some(e) = ErrorNumber::from_failure(result) {
            return Err(Fatal { step: BootStep::MapSelf, cause: Cause::Os(e) });
        }
        let addr: usize = #[verifier::truncate] (result as usize);
        Ok(Inspecting { fd: self.fd, addr, len: self.len })
    }
}

/// What inspecting the image `image` yields: the template of its
/// thread-local storage if it has one, `None` if it has none, and the
/// failure if its header is not accepted or its thread-local-storage row
/// describes no template.
pub open spec fn inspects(image: Seq<u8>, template: Option<Template>, failure: Option<Fatal>)
    -> bool {
    match crate::elf::parse_header(image) {
        Err(e) => failure == Some(Fatal { step: BootStep::ParseHeader, cause: Cause::Image(e) }),
        Ok(header) => match header.tls_row(image) {
            None => failure is None && template is None,
            Some(row) => match Template::describe(row, image) {
                Err(e) => failure == Some(
                    Fatal { step: BootStep::ReadTemplate, cause: Cause::Storage(e) },
                ),
                Ok(_) => failure is None && (template matches Some(t) && t.captures(row, image)),
            },
        },
    }
}

impl Inspecting {
    /// Reads the header of the mapped file and captures the template of its
    /// thread-local storage, if it has any; a file without has no
    /// thread-local state, which is no failure. The template borrows the
    /// mapped bytes. The file's descriptor is closed next: the mapping does
    /// not need it.
    pub fn inspect<'a>(self, image: &'a [u8]) -> (r: Result<
        (Closing, Option<Template<'a>>, CloseCall),
        Fatal,
    >)
        ensures
            match r {
                Ok((next, template, call)) => inspects(image@, template, None)
                    && next.descriptor() == self.descriptor() && next.image_addr()
                    == self.image_addr() && next.image_len() == self.image_len() && call == (
                CloseCall { fd: self.descriptor() as i32 }),
                Err(f) => inspects(image@, None, Some(f)),
            },
    {
        let header = match Header::new(image) {
            Ok(h) => h,
            Err(e) => {
                return Err(Fatal { step: BootStep::ParseHeader, cause: Cause::Image(e) });
            },
        };
        let template = match header.tls_program_header(image) {
            None => None,
            Some(row) => match Template::from_program_header(&row, image) {
                Ok(t) => Some(t),
                Err(e) => {
                    return Err(
                        Fatal { step: BootStep::ReadTemplate, cause: Cause::Storage(e) },
                    );
                },
            },
        };
        let raw: i32 = self.fd.as_raw();
        Ok((Closing { fd: self.fd, addr: self.addr, len: self.len }, template, CloseCall { fd: raw }))
    }
}

impl Closing {
    /// Takes the result of closing the file's descriptor. The main thread's
    /// storage and control block are mapped next: a mapping of their own
    /// that may be read and written, backed by no file.
    pub fn closed(self, result: isize, template: Option<&Template>) -> (r: Result<
        (MappingControlBlock, MmapCall),
        Fatal,
    >)
        requires
            classifiable(result),
            template_wf(template),
        ensures
            match r {
                Ok((next, call)) => !result.failed() && next.image_addr() == self.image_addr()
                    && next.image_len() == self.image_len() && call == (MmapCall {
                    len: (round_up(storage_len(template), PAGE_SIZE as int) + round_up(
                        TCB_SIZE as int,
                        PAGE_SIZE as int,
                    )) as usize,
                    prot: PROT_READ | PROT_WRITE,
                    flags: MAP_PRIVATE | MAP_ANONYMOUS,
                    fd: -1i32,
                    offset: 0,
                }),
                Err(f) => result.failed() && f == os_failure(BootStep::CloseSelf, result),
            },
    {
        match self.fd.try_drop(result) {
            Ok(_) => Ok(
                (
                    MappingControlBlock { addr: self.addr, len: self.len },
                    MmapCall {
                        len: TCBBox::mmap_len(template),
                        prot: PROT_READ | PROT_WRITE,
                        flags: MAP_PRIVATE | MAP_ANONYMOUS,
                        fd: -1,
                        offset: 0,
                    },
                ),
            ),
            Err(e) => Err(Fatal { step: BootStep::CloseSelf, cause: Cause::Os(e) }),
        }
    }
}

impl MappingControlBlock {
    /// Takes the result of mapping the main thread's storage and control
    /// block, and hands out the owner of that mapping. The caller writes the
    /// control block and fills the storage from the template now, while the
    /// file is mapped; the file's mapping is given up next, and not before.
    pub fn control_block_mapped(self, result: isize, template: Option<&Template>) -> (r: Result<
        (Unmapping, TCBBox, MunmapCall),
        Fatal,
    >)
        requires
            classifiable(result),
            template_wf(template),
            TCBBox::placeable(template, result),
        ensures
            match r {
                Ok((next, tcb, call)) => !result.failed() && tcb.lays_out(
                    template,
                    (result as usize) as int,
                ) && next.tcb_addr() == tcb.tcb() && call == (MunmapCall {
                    addr: self.image_addr() as usize,
                    len: self.image_len() as usize,
                }),
                Err(f) => result.failed() && f == os_failure(BootStep::MapControlBlock, result),
            },
    {
        match TCBBox::new(template, result) {
            Ok(tcb) => {
                let tcb_addr: usize = tcb.tcb_addr();
                Ok((Unmapping { tcb_addr }, tcb, MunmapCall { addr: self.addr, len: self.len }))
            },
            Err(e) => Err(Fatal { step: BootStep::MapControlBlock, cause: Cause::Os(e) }),
        }
    }
}

impl Unmapping {
    /// Takes the result of giving the file's mapping up. The thread pointer
    /// is set to the control block next, and after that the allocator is
    /// set up.
    pub fn unmapped(self, result: isize) -> (r: Result<
        (StartingAllocator, SetThreadPointerCall),
        Fatal,
    >)
        requires
            classifiable(result),
        ensures
            match r {
                Ok((next, call)) => !result.failed() && call == (SetThreadPointerCall {
                    code: ARCH_SET_FS,
                    addr: self.tcb_addr() as usize,
                }),
                Err(f) => result.failed() && f == os_failure(BootStep::UnmapSelf, result),
            },
    {
        if let Some(e) = ErrorNumber::from_failure(result) {
            return Err(Fatal { step: BootStep::UnmapSelf, cause: Cause::Os(e) });
        }
        Ok(
            (
                StartingAllocator {  },
                SetThreadPointerCall { code: ARCH_SET_FS, addr: self.tcb_addr },
            ),
        )
    }
}

impl StartingAllocator {
    /// Takes the code that setting the allocator up returned: zero when it
    /// went well. The program's entry point runs next.
    pub fn allocator_started(self, code: i32) -> (r: Result<Running, Fatal>)
        ensures
            match r {
                Ok(_) => code == 0,
                Err(f) => code != 0 && f == (Fatal {
                    step: BootStep::InitAllocator,
                    cause: Cause::Allocator(code),
                }),
            },
    {
        if code == 0 {
            Ok(Running {  })
        } else {
            Err(Fatal { step: BootStep::InitAllocator, cause: Cause::Allocator(code) })
        }
    }
}

impl Running {
    /// The number of arguments as the program's entry point takes it;
    /// `None` for a number that the entry point cannot take.
    pub fn argument_count(&self, argc: isize) -> (r: Option<i32>)
        ensures
            match r {
                Some(n) => n == argc,
                None => argc < i32::MIN || argc > i32::MAX,
            },
    {
        if -0x8000_0000 <= argc && argc <= 0x7fff_ffff {
            Some(argc as i32)
        } else {
            None
        }
    }
}

/// One of the three standard streams.
#[derive(Clone, Copy, Debug, PartialEq, Eq, Structural)]
pub enum StandardStream {
    Input,
    Output,
    Error,
}

/// One thing to do at the end of a process.
#[derive(Clone, Copy, Debug, PartialEq, Eq, Structural)]
pub enum ExitStep {
    /// Flush and close a standard stream.
    CloseStream(StandardStream),
    /// Let the allocator give back what it holds.
    FinalizeAllocator,
    /// Give up the main thread's storage and control block.
    ReleaseControlBlock,
    /// End the process with this status.
    Terminate(i32),
}

/// The stream among the things to do, where it was made.
pub open spec fn closes(made: bool, stream: StandardStream) -> Seq<ExitStep> {
    if made {
        seq![ExitStep::CloseStream(stream)]
    } else {
        seq![]
    }
}

/// What is done at the end of a process, in order: the standard streams
/// that were made are flushed and closed, input first and error last; the
/// allocator gives back what it holds; the main thread's control block is
/// given up; the process ends with the status.
pub open spec fn exit_steps(status: i32, stdin: bool, stdout: bool, stderr: bool) -> Seq<
    ExitStep,
> {
    closes(stdin, StandardStream::Input) + closes(stdout, StandardStream::Output) + closes(
        stderr,
        StandardStream::Error,
    ) + seq![
        ExitStep::FinalizeAllocator,
        ExitStep::ReleaseControlBlock,
        ExitStep::Terminate(status),
    ]
}

/// Plans the end of the process with status `status`, given which of the
/// standard streams were made.
pub fn exit(status: i32, stdin: bool, stdout: bool, stderr: bool) -> (r: Vec<ExitStep>)
    ensures
        r@ == exit_steps(status, stdin, stdout, stderr),
{
    let mut steps: Vec<ExitStep> = Vec::new();
    if stdin {
        steps.push(ExitStep::CloseStream(StandardStream::Input));
    }
    if stdout {
        steps.push(ExitStep::CloseStream(StandardStream::Output));
    }
    if stderr {
        steps.push(ExitStep::CloseStream(StandardStream::Error));
    }
    steps.push(ExitStep::FinalizeAllocator);
    steps.push(ExitStep::ReleaseControlBlock);
    steps.push(ExitStep::Terminate(status));
    assert(steps@ =~= exit_steps(status, stdin, stdout, stderr));
    steps
}

} // verus!
