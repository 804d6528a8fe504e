//! Acquiring the bootloader binary. A deterministic location inside the
//! kernel's output directory serves as an on-disk cache; when nothing is
//! cached, the binary is either built from a clone of its source
//! repository, with its machine code extracted from a named ELF section,
//! or downloaded prebuilt. The two strategies are mutually exclusive and
//! every failure along either is unrecoverable.

use vstd::prelude::*;
use vstd::string::StringExecFns;
use crate::path::DirPath;

verus! {

/// How the bootloader binary is obtained: reuse what is cached, build it
/// from source, or download a prebuilt release.
#[derive(PartialEq, Eq, Structural, Clone, Copy, Debug)]
pub enum AcquisitionPlan {
    UseCached,
    BuildFromSource,
    Download,
}

/// One piece of outside work the chosen strategy requires, in order.
#[derive(PartialEq, Eq, Structural, Clone, Copy, Debug)]
pub enum AcquireStep {
    CloneRepository,
    BuildClone,
    ExtractSection,
    DownloadRelease,
}

/// The strategy choice: a cached binary is always reused, with no
/// staleness or integrity check; otherwise the build-from-source switch
/// decides between the two remaining strategies.
pub open spec fn spec_plan(cached: bool, build_from_source: bool) -> AcquisitionPlan {
    if cached {
        AcquisitionPlan::UseCached
    } else if build_from_source {
        AcquisitionPlan::BuildFromSource
    } else {
        AcquisitionPlan::Download
    }
}

pub fn plan_acquisition(cached: bool, build_from_source: bool) -> (r: AcquisitionPlan)
    ensures
        r == spec_plan(cached, build_from_source),
{
    if cached {
        AcquisitionPlan::UseCached
    } else if build_from_source {
        AcquisitionPlan::BuildFromSource
    } else {
        AcquisitionPlan::Download
    }
}

/// The outside work each strategy performs, in order: nothing on a cache
/// hit; clone (only when no clone is present yet), build, and extract for
/// build-from-source; a single download otherwise.
pub open spec fn spec_acquire_steps(
    cached: bool,
    build_from_source: bool,
    clone_present: bool,
) -> Seq<AcquireStep> {
    match spec_plan(cached, build_from_source) {
        AcquisitionPlan::UseCached => Seq::empty(),
        AcquisitionPlan::BuildFromSource => if clone_present {
            seq![AcquireStep::BuildClone, AcquireStep::ExtractSection]
        } else {
            seq![AcquireStep::CloneRepository, AcquireStep::BuildClone, AcquireStep::ExtractSection]
        },
        AcquisitionPlan::Download => seq![AcquireStep::DownloadRelease],
    }
}

pub fn acquire_steps(cached: bool, build_from_source: bool, clone_present: bool) -> (r: Vec<
    AcquireStep,
>)
    ensures
        r@ =~= spec_acquire_steps(cached, build_from_source, clone_present),
{
    let mut steps: Vec<AcquireStep> = Vec::new();
    if cached {
        return steps;
    }
    if build_from_source {
        if !clone_present {
            steps.push(AcquireStep::CloneRepository);
        }
        steps.push(AcquireStep::BuildClone);
        steps.push(AcquireStep::ExtractSection);
    } else {
        steps.push(AcquireStep::DownloadRelease);
    }
    steps
}

/// A cache hit is idempotent: with a bootloader binary already present,
/// acquisition performs no outside work at all, whatever the options say,
/// so the cached bytes are left untouched and the same path is reported
/// again.
pub proof fn lemma_cache_hit_is_idempotent(build_from_source: bool, clone_present: bool)
    ensures
        spec_plan(true, build_from_source) is UseCached,
        spec_acquire_steps(true, build_from_source, clone_present) =~= Seq::<AcquireStep>::empty(),
{
}

/// The deterministic cache location of the bootloader binary inside the
/// kernel's output directory.
pub fn bootloader_cache_path(out_dir: &DirPath) -> (r: DirPath)
    ensures
        r@ =~= out_dir@.push("bootloader.bin"@),
{
    let mut path = out_dir.duplicate();
    path.push(String::from_str("bootloader.bin"));
    path
}

/// Where the bootloader source repository is cloned to.
pub fn bootloader_clone_dir(out_dir: &DirPath) -> (r: DirPath)
    ensures
        r@ =~= out_dir@.push("bootloader"@),
{
    let mut path = out_dir.duplicate();
    path.push(String::from_str("bootloader"));
    path
}

/// The ELF object that building the clone produces, at its fixed relative
/// location: target/<bootloader target>/release/bootloader.
pub fn bootloader_elf_path(clone_dir: &DirPath) -> (r: DirPath)
    ensures
        r@ =~= clone_dir@.push("target"@).push("test"@).push("release"@).push("bootloader"@),
{
    let mut path = clone_dir.duplicate();
    path.push(String::from_str("target"));
    path.push(String::from_str("test"));
    path.push(String::from_str("release"));
    path.push(String::from_str("bootloader"));
    path
}

/// The fixed target triple the bootloader itself is built for.
pub fn bootloader_target() -> (r: &'static str)
    ensures
        r@ == "test"@,
{
    "test"
}

/// The source repository a build-from-source acquisition clones.
pub fn bootloader_repository_url() -> (r: &'static str)
    ensures
        r@ == "https://github.com/phil-opp/bootloader"@,
{
    "https://github.com/phil-opp/bootloader"
}

/// The prebuilt release asset a download acquisition fetches.
pub fn bootloader_release_url() -> (r: &'static str)
    ensures
        r@ == "https://github.com/phil-opp/bootloader/releases/download/latest/bootimage.bin"@,
{
    "https://github.com/phil-opp/bootloader/releases/download/latest/bootimage.bin"
}

/// The ELF section that carries the bootloader's final machine code: the
/// fixed contract between this tool and the bootloader project.
pub fn bootloader_section_name() -> (r: &'static str)
    ensures
        r@ == ".bootloader"@,
{
    ".bootloader"
}

} // verus!
