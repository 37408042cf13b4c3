use limage::builder::{
    is_supported_filesystem, required_limine_files, step_error, step_verdict, BuildError,
    BuildStep, Builder, CmdOutcome, StepVerdict,
};
use limage::config::LimageConfig;

fn default_builder() -> Builder {
    Builder::new(LimageConfig::default()).unwrap()
}

fn is_acquisition(step: &BuildStep) -> bool {
    matches!(
        step,
        BuildStep::PurgeDir { .. } | BuildStep::CloneLimine { .. } | BuildStep::MakeLimine { .. }
    )
}

#[test]
fn required_files_list() {
    assert_eq!(
        required_limine_files(),
        vec![
            "limine-bios.sys".to_string(),
            "limine-bios-cd.bin".to_string(),
            "limine-uefi-cd.bin".to_string(),
            "BOOTX64.EFI".to_string(),
            "BOOTIA32.EFI".to_string(),
        ]
    );
}

#[test]
fn complete_cache_issues_no_acquisition_steps() {
    let b = default_builder();
    assert!(b.limine_plan(true, true).is_empty());
    let plan = b.build(None, true, true);
    assert!(plan.iter().all(|s| !is_acquisition(s)));
}

#[test]
fn missing_file_purges_and_reclones() {
    let b = default_builder();
    assert_eq!(
        b.limine_plan(true, false),
        vec![
            BuildStep::PurgeDir { path: "target/limine".to_string() },
            BuildStep::EnsureDir { path: "target/limine".to_string() },
            BuildStep::CloneLimine {
                url: "https://github.com/limine-bootloader/limine.git".to_string(),
                branch: "v8.x-binary".to_string(),
                dest: "target/limine".to_string(),
            },
            BuildStep::MakeLimine { dir: "target/limine".to_string() },
        ]
    );
}

#[test]
fn absent_directory_clones_without_purge() {
    let b = default_builder();
    let plan = b.limine_plan(false, false);
    assert_eq!(plan.len(), 3);
    assert!(matches!(plan[0], BuildStep::EnsureDir { .. }));
    assert!(matches!(plan[1], BuildStep::CloneLimine { .. }));
    assert!(matches!(plan[2], BuildStep::MakeLimine { .. }));
}

#[test]
fn prelude_without_prebuilder() {
    let b = default_builder();
    let plan = b.prelude_plan();
    assert_eq!(
        plan,
        vec![
            BuildStep::EnsureDir { path: "target/ovmf".to_string() },
            BuildStep::DownloadFile {
                url: "https://github.com/osdev0/edk2-ovmf-nightly/releases/latest/download/ovmf-code-x86_64.fd".to_string(),
                dest: "target/ovmf/ovmf-code-x86_64.fd".to_string(),
            },
            BuildStep::DownloadFile {
                url: "https://github.com/osdev0/edk2-ovmf-nightly/releases/latest/download/ovmf-vars-x86_64.fd".to_string(),
                dest: "target/ovmf/ovmf-vars-x86_64.fd".to_string(),
            },
        ]
    );
}

#[test]
fn prelude_with_prebuilder_runs_it_first() {
    let mut config = LimageConfig::default();
    config.build.prebuilder = Some("make kernel".to_string());
    let b = Builder::new(config).unwrap();
    let plan = b.prelude_plan();
    assert_eq!(plan[0], BuildStep::RunPrebuilder { command: "make kernel".to_string() });
    assert_eq!(plan.len(), 4);
}

#[test]
fn staging_with_default_kernel_path() {
    let b = default_builder();
    let plan = b.staging_plan(None);
    assert!(plan.contains(&BuildStep::CopyKernel {
        src: "target/x86_64-unknown-none/debug/kernel".to_string(),
        dest: "target/iso_root/boot/kernel/kernel".to_string(),
    }));
}

#[test]
fn staging_with_given_kernel_path() {
    let b = default_builder();
    let kernel = "target/x86_64-unknown-none/debug/deps/my_test".to_string();
    let plan = b.staging_plan(Some(&kernel));
    assert!(plan.contains(&BuildStep::CopyKernel {
        src: kernel.clone(),
        dest: "target/iso_root/boot/kernel/kernel".to_string(),
    }));
}

#[test]
fn staging_creates_image_parent_directory() {
    let b = default_builder();
    let plan = b.staging_plan(None);
    assert!(plan.contains(&BuildStep::EnsureDir { path: "target".to_string() }));
}

#[test]
fn staging_stages_config_binaries_and_masters_iso() {
    let b = default_builder();
    let plan = b.staging_plan(None);
    assert_eq!(
        plan[1],
        BuildStep::CopyLimineConfig {
            src: "limine.conf".to_string(),
            dest: "target/iso_root/boot/limine/limine.conf".to_string(),
        }
    );
    assert!(plan.contains(&BuildStep::CopyLimineBinary {
        file: "limine-bios.sys".to_string(),
        src: "target/limine/limine-bios.sys".to_string(),
        dest: "target/iso_root/boot/limine/limine-bios.sys".to_string(),
    }));
    assert!(plan.contains(&BuildStep::CopyLimineBinary {
        file: "BOOTX64.EFI".to_string(),
        src: "target/limine/BOOTX64.EFI".to_string(),
        dest: "target/iso_root/EFI/BOOT/BOOTX64.EFI".to_string(),
    }));
    let n = plan.len();
    assert_eq!(
        plan[n - 2],
        BuildStep::MasterIso {
            iso_root: "target/iso_root".to_string(),
            image: "target/kernel.iso".to_string(),
        }
    );
    assert_eq!(
        plan[n - 1],
        BuildStep::InstallLimine {
            installer: "target/limine/limine".to_string(),
            image: "target/kernel.iso".to_string(),
        }
    );
}

#[test]
fn no_payload_stage_without_filesystem() {
    let b = default_builder();
    let plan = b.staging_plan(None);
    assert!(plan.iter().all(|s| !matches!(
        s,
        BuildStep::CreatePayloadImage { .. }
            | BuildStep::FormatPayload { .. }
            | BuildStep::PopulatePayload { .. }
            | BuildStep::RejectPayloadKind { .. }
    )));
}

#[test]
fn supported_filesystem_adds_payload_stage() {
    let mut config = LimageConfig::default();
    config.build.filesystem = Some("fat32".to_string());
    let b = Builder::new(config).unwrap();
    let plan = b.staging_plan(None);
    let n = plan.len();
    assert_eq!(plan[n - 3], BuildStep::CreatePayloadImage { kind: "fat32".to_string() });
    assert_eq!(plan[n - 2], BuildStep::FormatPayload { kind: "fat32".to_string() });
    assert_eq!(plan[n - 1], BuildStep::PopulatePayload { kind: "fat32".to_string() });
}

#[test]
fn unsupported_filesystem_is_rejected() {
    let mut config = LimageConfig::default();
    config.build.filesystem = Some("ntfs".to_string());
    let b = Builder::new(config).unwrap();
    let plan = b.staging_plan(None);
    let last = plan.last().unwrap();
    assert_eq!(*last, BuildStep::RejectPayloadKind { kind: "ntfs".to_string() });
    let verdict = step_verdict(last, CmdOutcome::Succeeded);
    assert_eq!(
        verdict,
        StepVerdict::Abort {
            error: BuildError::UnsupportedFilesystem { kind: "ntfs".to_string() }
        }
    );
}

#[test]
fn supported_filesystem_kinds() {
    assert!(is_supported_filesystem(&"fat12".to_string()));
    assert!(is_supported_filesystem(&"fat16".to_string()));
    assert!(is_supported_filesystem(&"fat32".to_string()));
    assert!(is_supported_filesystem(&"ext4".to_string()));
    assert!(!is_supported_filesystem(&"ntfs".to_string()));
    assert!(!is_supported_filesystem(&"".to_string()));
}

#[test]
fn full_build_plan_order() {
    let b = default_builder();
    let plan = b.build(None, false, false);
    let prelude = b.prelude_plan();
    let limine = b.limine_plan(false, false);
    let staging = b.staging_plan(None);
    let mut expected = prelude;
    expected.extend(limine);
    expected.extend(staging);
    assert_eq!(plan, expected);
}

#[test]
fn prebuilder_nonzero_exit_is_a_warning() {
    let step = BuildStep::RunPrebuilder { command: "false".to_string() };
    assert_eq!(step_verdict(&step, CmdOutcome::ExitNonZero), StepVerdict::ProceedWithWarning);
    assert_eq!(
        step_verdict(&step, CmdOutcome::IoError),
        StepVerdict::Abort { error: BuildError::Prebuilder }
    );
    assert_eq!(step_verdict(&step, CmdOutcome::Succeeded), StepVerdict::Proceed);
}

#[test]
fn other_steps_abort_on_any_failure() {
    let download = BuildStep::DownloadFile { url: "u".to_string(), dest: "d".to_string() };
    assert_eq!(
        step_verdict(&download, CmdOutcome::ExitNonZero),
        StepVerdict::Abort { error: BuildError::DownloadOvmf { url: "u".to_string() } }
    );
    let dir = BuildStep::EnsureDir { path: "p".to_string() };
    assert_eq!(
        step_verdict(&dir, CmdOutcome::IoError),
        StepVerdict::Abort { error: BuildError::CreateDirectory { path: "p".to_string() } }
    );
    assert_eq!(step_verdict(&dir, CmdOutcome::Succeeded), StepVerdict::Proceed);
}

#[test]
fn step_errors_are_step_specific() {
    assert_eq!(
        step_error(&BuildStep::PurgeDir { path: "p".to_string() }),
        BuildError::CloneLimine
    );
    assert_eq!(
        step_error(&BuildStep::CloneLimine {
            url: "u".to_string(),
            branch: "b".to_string(),
            dest: "d".to_string()
        }),
        BuildError::CloneLimine
    );
    assert_eq!(step_error(&BuildStep::MakeLimine { dir: "d".to_string() }), BuildError::CloneLimine);
    assert_eq!(
        step_error(&BuildStep::CopyLimineConfig { src: "s".to_string(), dest: "d".to_string() }),
        BuildError::CopyLimineConfig
    );
    assert_eq!(
        step_error(&BuildStep::CopyLimineBinary {
            file: "f".to_string(),
            src: "s".to_string(),
            dest: "d".to_string()
        }),
        BuildError::CopyLimineBinary { file: "f".to_string() }
    );
    assert_eq!(
        step_error(&BuildStep::CopyKernel { src: "s".to_string(), dest: "d".to_string() }),
        BuildError::CopyKernel
    );
    assert_eq!(
        step_error(&BuildStep::MasterIso { iso_root: "r".to_string(), image: "i".to_string() }),
        BuildError::CreateIso
    );
    assert_eq!(
        step_error(&BuildStep::InstallLimine {
            installer: "l".to_string(),
            image: "i".to_string()
        }),
        BuildError::InstallLimine
    );
    assert_eq!(
        step_error(&BuildStep::CreatePayloadImage { kind: "fat32".to_string() }),
        BuildError::PayloadFormat { kind: "fat32".to_string() }
    );
    assert_eq!(
        step_error(&BuildStep::PopulatePayload { kind: "fat32".to_string() }),
        BuildError::PayloadPopulate
    );
}

#[test]
fn builder_new_accepts_any_config() {
    assert!(Builder::new(LimageConfig::default()).is_ok());
}
