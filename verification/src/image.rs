//! The byte-exact layout of the bootable image: bootloader bytes, a fixed
//! 512-byte info block carrying the kernel size, then the kernel bytes.
//! The kernel is fed in bounded chunks, so the whole kernel never has to be
//! held in memory at once; an assembler state machine tracks what has been
//! emitted and in what order.

use vstd::prelude::*;
use vstd::bytes::lemma_auto_spec_u32_to_from_le_bytes;
use vstd::bytes::spec_u32_from_le_bytes;
use vstd::bytes::spec_u32_to_le_bytes;
use vstd::bytes::u32_to_le_bytes;
use crate::BuildError;

verus! {

/// The info block is always exactly this long.
pub const INFO_BLOCK_LEN: usize = 512;

/// The kernel is streamed into the image in chunks of at most this many bytes.
pub const KERNEL_CHUNK_LEN: usize = 1024;

/// The info block for a kernel of `kernel_size` bytes: the size as a
/// little-endian 32-bit value in bytes [0, 4), zeros in bytes [4, 512).
pub open spec fn info_block_spec(kernel_size: u32) -> Seq<u8> {
    spec_u32_to_le_bytes(kernel_size) + Seq::new(508, |i: int| 0u8)
}

/// The full image: bootloader, info block, kernel, in that order, with no
/// other bytes between or around them.
pub open spec fn image_spec(bootloader: Seq<u8>, kernel_size: u32, kernel: Seq<u8>) -> Seq<u8> {
    bootloader + info_block_spec(kernel_size) + kernel
}

/// The bytes of a kernel delivered as a sequence of chunks.
pub open spec fn flatten_chunks(chunks: Seq<Vec<u8>>) -> Seq<u8> {
    chunks.map_values(|c: Vec<u8>| c@).flatten()
}

/// Validates that a kernel's byte size is representable in the info
/// block's 32-bit field; this check comes before any output byte is
/// written.
pub fn check_kernel_size(kernel_size: u64) -> (r: Result<u32, BuildError>)
    ensures
        kernel_size <= u32::MAX ==> (r matches Ok(s) && s == kernel_size),
        kernel_size > u32::MAX ==> (r matches Err(e) && e == BuildError::KernelTooLarge),
{
    if kernel_size > u32::MAX as u64 {
        Err(BuildError::KernelTooLarge)
    } else {
        Ok(kernel_size as u32)
    }
}

/// Builds the 512-byte info block, or reports that the kernel size cannot
/// be represented in 32 bits. Nothing else ever fails here.
pub fn make_info_block(kernel_size: u64) -> (r: Result<Vec<u8>, BuildError>)
    ensures
        kernel_size <= u32::MAX ==> (r matches Ok(b) && b@ == info_block_spec(
            kernel_size as u32,
        ) && b@.len() == INFO_BLOCK_LEN),
        kernel_size > u32::MAX ==> (r matches Err(e) && e == BuildError::KernelTooLarge),
{
    let size32: u32 = match check_kernel_size(kernel_size) {
        Ok(s) => s,
        Err(e) => {
            return Err(e);
        },
    };
    let mut block = u32_to_le_bytes(size32);
    while block.len() < INFO_BLOCK_LEN
        invariant
            4 <= block@.len() <= INFO_BLOCK_LEN,
            block@.subrange(0, 4) =~= spec_u32_to_le_bytes(size32),
            forall|i: int| 4 <= i < block@.len() ==> block@[i] == 0u8,
        decreases INFO_BLOCK_LEN - block@.len(),
    {
        block.push(0u8);
    }
    Ok(block)
}

/// Reads a 32-bit little-endian value back out of four bytes; the inverse
/// of the encoding placed at the start of the info block.
pub fn decode_u32_le(bytes: &[u8]) -> (r: u32)
    requires
        bytes@.len() == 4,
    ensures
        r == spec_u32_from_le_bytes(bytes@),
{
    vstd::bytes::u32_from_le_bytes(bytes)
}

/// Where the assembly of one image stands.
pub enum AssemblyState {
    Idle,
    BootloaderWritten,
    HeaderWritten,
    KernelStreaming,
    Done,
    Failed,
}

/// What a read of the kernel input produced: a full or partial chunk of
/// data, end of file, a transient interruption, or a hard read failure.
pub enum KernelReadEvent {
    Data(Vec<u8>),
    EndOfFile,
    Interrupted,
    ReadFailed,
}

/// What the caller must do next with the output while streaming the kernel.
pub enum StreamAction {
    Write(Vec<u8>),
    Retry,
    Finish,
    Abort,
}

/// Tracks the assembly of one image. The caller appends every returned
/// byte vector to the output file, in order; the ghost state records what
/// has been emitted so far and guarantees the final layout.
pub struct ImageAssembler {
    pub state: AssemblyState,
    pub bootloader: Ghost<Seq<u8>>,
    pub kernel_size: Ghost<u32>,
    pub kernel: Ghost<Seq<u8>>,
    pub emitted: Ghost<Seq<u8>>,
}

impl ImageAssembler {
    /// What the emitted bytes look like in each state: nothing, the
    /// bootloader, bootloader plus info block, or those followed by the
    /// kernel bytes streamed so far.
    pub open spec fn wf(&self) -> bool {
        match self.state {
            AssemblyState::Idle => self.emitted@ == Seq::<u8>::empty() && self.kernel@
                == Seq::<u8>::empty(),
            AssemblyState::BootloaderWritten => self.emitted@ == self.bootloader@ && self.kernel@
                == Seq::<u8>::empty(),
            AssemblyState::HeaderWritten => self.emitted@ == self.bootloader@ + info_block_spec(
                self.kernel_size@,
            ) && self.kernel@ == Seq::<u8>::empty(),
            AssemblyState::KernelStreaming => self.emitted@ == image_spec(
                self.bootloader@,
                self.kernel_size@,
                self.kernel@,
            ),
            AssemblyState::Done => self.emitted@ == image_spec(
                self.bootloader@,
                self.kernel_size@,
                self.kernel@,
            ),
            AssemblyState::Failed => true,
        }
    }

    pub fn new() -> (r: ImageAssembler)
        ensures
            r.state is Idle,
            r.wf(),
    {
        ImageAssembler {
            state: AssemblyState::Idle,
            bootloader: Ghost(Seq::empty()),
            kernel_size: Ghost(0),
            kernel: Ghost(Seq::empty()),
            emitted: Ghost(Seq::empty()),
        }
    }

    /// First step: the bootloader bytes go out verbatim.
    pub fn write_bootloader(&mut self, bootloader: Vec<u8>) -> (out: Vec<u8>)
        requires
            old(self).state is Idle,
            old(self).wf(),
        ensures
            final(self).state is BootloaderWritten,
            final(self).wf(),
            final(self).bootloader@ == bootloader@,
            final(self).emitted@ == bootloader@,
            out@ == bootloader@,
    {
        self.state = AssemblyState::BootloaderWritten;
        proof {
            self.bootloader@ = bootloader@;
            self.emitted@ = bootloader@;
        }
        bootloader
    }

    /// Second step: the info block goes out, provided the kernel size fits
    /// in 32 bits. On overflow the assembly fails with nothing emitted
    /// beyond the bootloader.
    pub fn write_header(&mut self, kernel_size: u64) -> (r: Result<Vec<u8>, BuildError>)
        requires
            old(self).state is BootloaderWritten,
            old(self).wf(),
        ensures
            kernel_size <= u32::MAX ==> {
                &&& r matches Ok(b) && b@ == info_block_spec(kernel_size as u32)
                &&& final(self).state is HeaderWritten
                &&& final(self).wf()
                &&& final(self).bootloader == old(self).bootloader
                &&& final(self).kernel_size@ == kernel_size as u32
                &&& final(self).emitted@ == old(self).emitted@ + info_block_spec(
                    kernel_size as u32,
                )
            },
            kernel_size > u32::MAX ==> {
                &&& r matches Err(e) && e == BuildError::KernelTooLarge
                &&& final(self).state is Failed
                &&& final(self).emitted == old(self).emitted
            },
    {
        match make_info_block(kernel_size) {
            Ok(block) => {
                self.state = AssemblyState::HeaderWritten;
                proof {
                    self.kernel_size@ = kernel_size as u32;
                    self.emitted@ = self.emitted@ + block@;
                }
                Ok(block)
            },
            Err(e) => {
                self.state = AssemblyState::Failed;
                Err(e)
            },
        }
    }

    /// Streaming step: data goes out verbatim, end of file completes the
    /// image, a transient interruption is retried with nothing emitted,
    /// and a hard read failure abandons the assembly.
    pub fn kernel_read_step(&mut self, event: KernelReadEvent) -> (r: StreamAction)
        requires
            old(self).state is HeaderWritten || old(self).state is KernelStreaming,
            old(self).wf(),
        ensures
            final(self).wf(),
            final(self).bootloader == old(self).bootloader,
            final(self).kernel_size == old(self).kernel_size,
            event matches KernelReadEvent::Data(c) ==> {
                &&& r matches StreamAction::Write(w) && w@ == c@
                &&& final(self).state is KernelStreaming
                &&& final(self).kernel@ == old(self).kernel@ + c@
                &&& final(self).emitted@ == old(self).emitted@ + c@
            },
            event is EndOfFile ==> {
                &&& r is Finish
                &&& final(self).state is Done
                &&& final(self).kernel == old(self).kernel
                &&& final(self).emitted == old(self).emitted
            },
            event is Interrupted ==> r is Retry && *final(self) == *old(self),
            event is ReadFailed ==> {
                &&& r is Abort
                &&& final(self).state is Failed
                &&& final(self).emitted == old(self).emitted
            },
    {
        match event {
            KernelReadEvent::Data(chunk) => {
                self.state = AssemblyState::KernelStreaming;
                proof {
                    self.kernel@ = self.kernel@ + chunk@;
                    self.emitted@ = self.emitted@ + chunk@;
                    assert(self.emitted@ =~= image_spec(
                        self.bootloader@,
                        self.kernel_size@,
                        self.kernel@,
                    ));
                }
                StreamAction::Write(chunk)
            },
            KernelReadEvent::EndOfFile => {
                self.state = AssemblyState::Done;
                StreamAction::Finish
            },
            KernelReadEvent::Interrupted => StreamAction::Retry,
            KernelReadEvent::ReadFailed => {
                self.state = AssemblyState::Failed;
                StreamAction::Abort
            },
        }
    }
}

/// Assembles a whole image in memory from a kernel already split into
/// chunks: the bootloader bytes, then the info block for `kernel_size`,
/// then the chunks in order. Fails exactly when the kernel size does not
/// fit in 32 bits, and then produces no bytes at all.
pub fn assemble_image(bootloader: Vec<u8>, kernel_size: u64, chunks: Vec<Vec<u8>>) -> (r: Result<
    Vec<u8>,
    BuildError,
>)
    ensures
        kernel_size <= u32::MAX ==> (r matches Ok(img) && img@ == image_spec(
            bootloader@,
            kernel_size as u32,
            flatten_chunks(chunks@),
        )),
        kernel_size > u32::MAX ==> (r matches Err(e) && e == BuildError::KernelTooLarge),
{
    let mut assembler = ImageAssembler::new();
    let ghost bootloader_view = bootloader@;
    let mut out = assembler.write_bootloader(bootloader);
    let mut header = match assembler.write_header(kernel_size) {
        Ok(h) => h,
        Err(e) => {
            return Err(e);
        },
    };
    out.append(&mut header);
    let mut remaining = chunks;
    let ghost all_chunks = remaining@;
    let ghost done: Seq<Vec<u8>> = Seq::empty();
    while remaining.len() > 0
        invariant
            assembler.wf(),
            assembler.state is HeaderWritten || assembler.state is KernelStreaming,
            assembler.bootloader@ == bootloader_view,
            assembler.kernel_size@ == kernel_size as u32,
            all_chunks =~= done + remaining@,
            assembler.kernel@ == flatten_chunks(done),
            out@ == assembler.emitted@,
        decreases remaining@.len(),
    {
        let ghost remaining_before = remaining@;
        let chunk = remaining.remove(0);
        let ghost chunk_view = chunk@;
        let action = assembler.kernel_read_step(KernelReadEvent::Data(chunk));
        match action {
            StreamAction::Write(mut w) => {
                out.append(&mut w);
            },
            _ => {
                proof {
                    assert(false);
                }
            },
        }
        proof {
            let done_before = done;
            done = done.push(remaining_before[0]);
            done_before.map_values(|c: Vec<u8>| c@).lemma_flatten_push(chunk_view);
            assert(done.map_values(|c: Vec<u8>| c@) =~= done_before.map_values(
                |c: Vec<u8>| c@,
            ).push(chunk_view));
        }
    }
    let _ = assembler.kernel_read_step(KernelReadEvent::EndOfFile);
    proof {
        assert(done =~= all_chunks);
    }
    Ok(out)
}

/// The layout law of the assembled image: the bootloader occupies the first
/// bytes unchanged, the four bytes after it decode to the kernel size, the
/// rest of the 512-byte info block is zero, and the kernel bytes follow
/// unchanged to the end.
pub proof fn lemma_image_layout(bootloader: Seq<u8>, kernel_size: u32, kernel: Seq<u8>)
    ensures
        image_spec(bootloader, kernel_size, kernel).len() == bootloader.len() + 512
            + kernel.len(),
        image_spec(bootloader, kernel_size, kernel).subrange(0, bootloader.len() as int)
            == bootloader,
        spec_u32_from_le_bytes(
            image_spec(bootloader, kernel_size, kernel).subrange(
                bootloader.len() as int,
                bootloader.len() as int + 4,
            ),
        ) == kernel_size,
        forall|i: int|
            bootloader.len() as int + 4 <= i < bootloader.len() as int + 512 ==> image_spec(
                bootloader,
                kernel_size,
                kernel,
            )[i] == 0u8,
        image_spec(bootloader, kernel_size, kernel).subrange(
            bootloader.len() as int + 512,
            bootloader.len() as int + 512 + kernel.len() as int,
        ) == kernel,
{
    lemma_auto_spec_u32_to_from_le_bytes();
    let img = image_spec(bootloader, kernel_size, kernel);
    assert(img.subrange(0, bootloader.len() as int) =~= bootloader);
    assert(img.subrange(bootloader.len() as int, bootloader.len() as int + 4)
        =~= spec_u32_to_le_bytes(kernel_size));
    assert(img.subrange(
        bootloader.len() as int + 512,
        bootloader.len() as int + 512 + kernel.len() as int,
    ) =~= kernel);
}

/// Streaming the kernel in chunks never changes the image: two chunkings
/// that carry the same bytes produce the same image, whatever the chunk
/// boundaries are.
pub proof fn lemma_chunking_irrelevant(
    bootloader: Seq<u8>,
    kernel_size: u32,
    chunks_a: Seq<Vec<u8>>,
    chunks_b: Seq<Vec<u8>>,
)
    requires
        flatten_chunks(chunks_a) == flatten_chunks(chunks_b),
    ensures
        image_spec(bootloader, kernel_size, flatten_chunks(chunks_a)) == image_spec(
            bootloader,
            kernel_size,
            flatten_chunks(chunks_b),
        ),
{
}

} // verus!
