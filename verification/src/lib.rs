//! Assembly of a bootable image: a bootloader binary, a fixed-size info
//! block, and a kernel binary, laid out back to back in an output file.
//!
//! The crate holds the verified logic of the pipeline: locating the crate
//! root and package name, computing build artifact paths, choosing a
//! bootloader acquisition strategy, extracting a named section from an ELF
//! object, and producing the byte-exact final image. File, process and
//! network work is left to the surrounding application, which drives these
//! functions with plain values.

use vstd::prelude::*;

pub mod bootloader;
pub mod builder;
pub mod elf;
pub mod image;
pub mod path;
pub mod resolver;

verus! {

/// Every failure the pipeline distinguishes.
///
/// `ManifestNotFound`, `ManifestInvalid`, `SectionNotFound`, `MalformedElf`
/// and `KernelTooLarge` are invariant violations with no recovery path; `Io`
/// stands for a recoverable I/O failure that the caller reports and maps to
/// an exit status.
#[derive(Clone, Copy, PartialEq, Eq, Structural, Debug)]
pub enum BuildError {
    ManifestNotFound,
    ManifestInvalid,
    SectionNotFound,
    MalformedElf,
    KernelTooLarge,
    Io,
}

impl BuildError {
    /// The diagnostic text reported for this failure.
    pub open spec fn spec_message(&self) -> Seq<char> {
        match self {
            BuildError::ManifestNotFound => "Cargo.toml not found"@,
            BuildError::ManifestInvalid => "Cargo.toml invalid"@,
            BuildError::SectionNotFound => "bootloader must have a .bootloader section"@,
            BuildError::MalformedElf => "bootloader ELF is malformed"@,
            BuildError::KernelTooLarge => "kernel too big"@,
            BuildError::Io => "I/O error"@,
        }
    }

    /// Whether the failure aborts the whole tool rather than propagating
    /// as a recoverable error.
    pub open spec fn spec_is_fatal(&self) -> bool {
        !(self is Io)
    }

    pub fn message(&self) -> (r: &'static str)
        ensures
            r@ == self.spec_message(),
    {
        match self {
            BuildError::ManifestNotFound => "Cargo.toml not found",
            BuildError::ManifestInvalid => "Cargo.toml invalid",
            BuildError::SectionNotFound => "bootloader must have a .bootloader section",
            BuildError::MalformedElf => "bootloader ELF is malformed",
            BuildError::KernelTooLarge => "kernel too big",
            BuildError::Io => "I/O error",
        }
    }

    pub fn is_fatal(&self) -> (r: bool)
        ensures
            r == self.spec_is_fatal(),
    {
        !matches!(self, BuildError::Io)
    }
}

/// An error carrying its rendered diagnostic message.
pub struct ErrorString {
    pub message: String,
}

impl ErrorString {
    /// Wraps a failure into its reported message form.
    pub fn from_error(e: &BuildError) -> (r: ErrorString)
        ensures
            r.message@ == e.spec_message(),
    {
        ErrorString { message: String::from_str(e.message()) }
    }
}

} // verus!
