use bootimage::bootloader::{
    acquire_steps, bootloader_cache_path, bootloader_clone_dir, bootloader_elf_path,
    bootloader_release_url, bootloader_repository_url, bootloader_target, plan_acquisition,
    AcquireStep, AcquisitionPlan,
};
use bootimage::builder::{
    artifact_dir, build_tool_args, build_tool_name, kernel_artifact_path, pipeline_mode,
    target_path_env_var, BuildOptions, PipelineMode,
};
use bootimage::path::DirPath;
use bootimage::{BuildError, ErrorString};

fn dir(components: &[&str]) -> DirPath {
    DirPath { components: components.iter().map(|c| c.to_string()).collect() }
}

fn names(path: &DirPath) -> Vec<&str> {
    path.components.iter().map(|c| c.as_str()).collect()
}

#[test]
fn cached_bootloader_is_always_reused() {
    for build_from_source in [false, true] {
        assert_eq!(plan_acquisition(true, build_from_source), AcquisitionPlan::UseCached);
        for clone_present in [false, true] {
            assert!(acquire_steps(true, build_from_source, clone_present).is_empty());
        }
    }
}

#[test]
fn build_and_download_strategies_are_mutually_exclusive() {
    assert_eq!(plan_acquisition(false, true), AcquisitionPlan::BuildFromSource);
    assert_eq!(plan_acquisition(false, false), AcquisitionPlan::Download);
}

#[test]
fn build_from_source_clones_only_when_absent() {
    assert_eq!(
        acquire_steps(false, true, false),
        vec![
            AcquireStep::CloneRepository,
            AcquireStep::BuildClone,
            AcquireStep::ExtractSection,
        ]
    );
    assert_eq!(
        acquire_steps(false, true, true),
        vec![AcquireStep::BuildClone, AcquireStep::ExtractSection]
    );
}

#[test]
fn download_is_a_single_step() {
    assert_eq!(acquire_steps(false, false, false), vec![AcquireStep::DownloadRelease]);
    assert_eq!(acquire_steps(false, false, true), vec![AcquireStep::DownloadRelease]);
}

#[test]
fn bootloader_paths_are_deterministic() {
    let out_dir = dir(&["proj", "target", "debug"]);
    let cache = bootloader_cache_path(&out_dir);
    assert_eq!(names(&cache), vec!["proj", "target", "debug", "bootloader.bin"]);
    assert_eq!(
        names(&bootloader_cache_path(&out_dir)).as_slice(),
        names(&cache).as_slice()
    );
    let clone_dir = bootloader_clone_dir(&out_dir);
    assert_eq!(names(&clone_dir), vec!["proj", "target", "debug", "bootloader"]);
    let elf = bootloader_elf_path(&clone_dir);
    assert_eq!(
        names(&elf),
        vec!["proj", "target", "debug", "bootloader", "target", "test", "release", "bootloader"]
    );
}

#[test]
fn fixed_endpoints_and_target() {
    assert_eq!(bootloader_repository_url(), "https://github.com/phil-opp/bootloader");
    assert_eq!(
        bootloader_release_url(),
        "https://github.com/phil-opp/bootloader/releases/download/latest/bootimage.bin"
    );
    assert_eq!(bootloader_target(), "test");
}

#[test]
fn build_tool_invocation_is_exact() {
    assert_eq!(build_tool_name(), "xargo");
    assert_eq!(target_path_env_var(), "RUST_TARGET_PATH");
    assert_eq!(build_tool_args(&None, false), vec!["build".to_string()]);
    assert_eq!(
        build_tool_args(&None, true),
        vec!["build".to_string(), "--release".to_string()]
    );
    assert_eq!(
        build_tool_args(&Some("x86-unknown".to_string()), false),
        vec!["build".to_string(), "--target".to_string(), "x86-unknown".to_string()]
    );
    assert_eq!(
        build_tool_args(&Some("t".to_string()), true),
        vec![
            "build".to_string(),
            "--target".to_string(),
            "t".to_string(),
            "--release".to_string(),
        ]
    );
}

#[test]
fn artifact_directory_layout() {
    let root = dir(&["proj"]);
    assert_eq!(names(&artifact_dir(&root, &None, false)), vec!["proj", "target", "debug"]);
    assert_eq!(names(&artifact_dir(&root, &None, true)), vec!["proj", "target", "release"]);
    assert_eq!(
        names(&artifact_dir(&root, &Some("triple".to_string()), true)),
        vec!["proj", "target", "triple", "release"]
    );
    let out = artifact_dir(&root, &None, false);
    let kernel = kernel_artifact_path(&out, &"mykernel".to_string());
    assert_eq!(names(&kernel), vec!["proj", "target", "debug", "mykernel"]);
}

#[test]
fn path_operations() {
    let mut p = dir(&["a", "b"]);
    assert_eq!(p.depth(), 2);
    assert!(p.pop());
    assert_eq!(names(&p), vec!["a"]);
    assert!(p.pop());
    assert_eq!(p.depth(), 0);
    assert!(!p.pop());
    p.push("x".to_string());
    assert_eq!(names(&p), vec!["x"]);
    let q = p.duplicate();
    assert_eq!(q.components, p.components);
    let root = DirPath::root();
    assert_eq!(root.depth(), 0);
}

#[test]
fn error_messages_and_fatality() {
    assert_eq!(BuildError::ManifestNotFound.message(), "Cargo.toml not found");
    assert_eq!(BuildError::ManifestInvalid.message(), "Cargo.toml invalid");
    assert_eq!(
        BuildError::SectionNotFound.message(),
        "bootloader must have a .bootloader section"
    );
    assert_eq!(BuildError::MalformedElf.message(), "bootloader ELF is malformed");
    assert_eq!(BuildError::KernelTooLarge.message(), "kernel too big");
    assert_eq!(BuildError::Io.message(), "I/O error");

    assert!(BuildError::KernelTooLarge.is_fatal());
    assert!(BuildError::ManifestNotFound.is_fatal());
    assert!(!BuildError::Io.is_fatal());

    let wrapped = ErrorString::from_error(&BuildError::KernelTooLarge);
    assert_eq!(wrapped.message, "kernel too big");
}

#[test]
fn only_bootloader_switch_selects_the_mode() {
    let mut options = BuildOptions {
        release: false,
        output: "bootimage.bin".to_string(),
        target: None,
        build_bootloader: false,
        only_bootloader: true,
    };
    assert_eq!(pipeline_mode(&options), PipelineMode::BootloaderOnly);
    options.only_bootloader = false;
    assert_eq!(pipeline_mode(&options), PipelineMode::FullImage);
}
