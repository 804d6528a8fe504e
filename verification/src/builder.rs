//! Invoking the external build tool for the kernel: the exact argument
//! list, the environment override, and the directory in which the tool
//! leaves the compiled artifact. The surrounding application spawns the
//! process; everything it passes to it is computed here.

use vstd::prelude::*;
use vstd::string::StringExecFns;
use crate::path::DirPath;

verus! {

/// The configuration of one invocation: release mode, the output file,
/// an optional target triple, and the two bootloader switches. Parsed once
/// by the surrounding application and passed by reference thereafter.
pub struct BuildOptions {
    pub release: bool,
    pub output: String,
    pub target: Option<String>,
    pub build_bootloader: bool,
    pub only_bootloader: bool,
}

/// What one invocation of the pipeline produces: only the bootloader
/// binary, or the full bootable image.
#[derive(PartialEq, Eq, Structural, Clone, Copy, Debug)]
pub enum PipelineMode {
    BootloaderOnly,
    FullImage,
}

/// The pipeline's one dispatch: the only-bootloader switch selects
/// acquiring the bootloader and stopping; anything else assembles the
/// full image.
pub open spec fn spec_pipeline_mode(only_bootloader: bool) -> PipelineMode {
    if only_bootloader {
        PipelineMode::BootloaderOnly
    } else {
        PipelineMode::FullImage
    }
}

pub fn pipeline_mode(options: &BuildOptions) -> (r: PipelineMode)
    ensures
        r == spec_pipeline_mode(options.only_bootloader),
{
    if options.only_bootloader {
        PipelineMode::BootloaderOnly
    } else {
        PipelineMode::FullImage
    }
}

/// The view of an optional string.
pub open spec fn opt_view(o: Option<String>) -> Option<Seq<char>> {
    match o {
        Some(s) => Some(s@),
        None => None,
    }
}

/// The view of a list of strings.
pub open spec fn names_view(s: Seq<String>) -> Seq<Seq<char>> {
    s.map_values(|x: String| x@)
}

/// The argument list handed to the build tool: `build`, then
/// `--target <triple>` when a target is chosen, then `--release` when
/// release mode is on.
pub open spec fn spec_build_args(target: Option<Seq<char>>, release: bool) -> Seq<Seq<char>> {
    let base = seq!["build"@];
    let with_target = match target {
        Some(t) => base + seq!["--target"@, t],
        None => base,
    };
    if release {
        with_target + seq!["--release"@]
    } else {
        with_target
    }
}

pub fn build_tool_args(target: &Option<String>, release: bool) -> (r: Vec<String>)
    ensures
        names_view(r@) =~= spec_build_args(opt_view(*target), release),
{
    let mut args: Vec<String> = Vec::new();
    args.push(String::from_str("build"));
    match target {
        Some(t) => {
            args.push(String::from_str("--target"));
            args.push(t.clone());
        },
        None => {},
    }
    if release {
        args.push(String::from_str("--release"));
    }
    args
}

/// The name of the external build tool.
pub fn build_tool_name() -> (r: &'static str)
    ensures
        r@ == "xargo"@,
{
    "xargo"
}

/// The environment variable, scoped to the spawned child process, that
/// points the build tool's target search path at the crate root.
pub fn target_path_env_var() -> (r: &'static str)
    ensures
        r@ == "RUST_TARGET_PATH"@,
{
    "RUST_TARGET_PATH"
}

/// Where the build tool leaves the compiled artifact:
/// root/target[/triple]/(release|debug).
pub open spec fn spec_artifact_dir(
    root: Seq<Seq<char>>,
    target: Option<Seq<char>>,
    release: bool,
) -> Seq<Seq<char>> {
    let base = root.push("target"@);
    let with_target = match target {
        Some(t) => base.push(t),
        None => base,
    };
    with_target.push(if release {
        "release"@
    } else {
        "debug"@
    })
}

pub fn artifact_dir(root: &DirPath, target: &Option<String>, release: bool) -> (r: DirPath)
    ensures
        r@ =~= spec_artifact_dir(root@, opt_view(*target), release),
{
    let mut dir = root.duplicate();
    dir.push(String::from_str("target"));
    match target {
        Some(t) => {
            dir.push(t.clone());
        },
        None => {},
    }
    if release {
        dir.push(String::from_str("release"));
    } else {
        dir.push(String::from_str("debug"));
    }
    dir
}

/// The compiled kernel inside the artifact directory: the file named after
/// the crate.
pub fn kernel_artifact_path(out_dir: &DirPath, crate_name: &String) -> (r: DirPath)
    ensures
        r@ =~= out_dir@.push(crate_name@),
{
    let mut path = out_dir.duplicate();
    path.push(crate_name.clone());
    path
}

} // verus!
