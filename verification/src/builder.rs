//! The build pipeline: turns a kernel binary and a configuration into the
//! ordered plan of external commands that assembles a bootable image,
//! reusing the previously fetched bootloader whenever its directory still
//! holds every required file. The driver program executes the planned
//! steps strictly in order, judging each outcome with `step_verdict` and
//! stopping at the first abort.

use vstd::prelude::*;
use vstd::string::*;
use crate::config::LimageConfig;
use crate::config::LimageConfigView;
use crate::paths;

verus! {

/// Mathematical view of `BuildStep`.
pub enum BuildStepView {
    RunPrebuilder { command: Seq<char> },
    EnsureDir { path: Seq<char> },
    DownloadFile { url: Seq<char>, dest: Seq<char> },
    PurgeDir { path: Seq<char> },
    CloneLimine { url: Seq<char>, branch: Seq<char>, dest: Seq<char> },
    MakeLimine { dir: Seq<char> },
    CopyLimineConfig { src: Seq<char>, dest: Seq<char> },
    CopyLimineBinary { file: Seq<char>, src: Seq<char>, dest: Seq<char> },
    CopyKernel { src: Seq<char>, dest: Seq<char> },
    MasterIso { iso_root: Seq<char>, image: Seq<char> },
    InstallLimine { installer: Seq<char>, image: Seq<char> },
    RejectPayloadKind { kind: Seq<char> },
    CreatePayloadImage { kind: Seq<char> },
    FormatPayload { kind: Seq<char> },
    PopulatePayload { kind: Seq<char> },
}

/// One external effect of the build pipeline. The driver performs it and
/// reports the outcome; the step itself carries everything the command
/// needs.
#[derive(Debug, Clone, PartialEq, Eq)]
pub enum BuildStep {
    /// Run the configured prebuild hook as a shell command.
    RunPrebuilder { command: String },
    /// Create the directory and its missing parents; existing is fine.
    EnsureDir { path: String },
    /// Fetch one firmware file to the given location.
    DownloadFile { url: String, dest: String },
    /// Remove the directory tree; issued only to invalidate a stale
    /// bootloader cache.
    PurgeDir { path: String },
    /// Clone the bootloader sources at the given branch into `dest`.
    CloneLimine { url: String, branch: String, dest: String },
    /// Build the cloned bootloader in place.
    MakeLimine { dir: String },
    /// Stage the static boot configuration file.
    CopyLimineConfig { src: String, dest: String },
    /// Stage one bootloader binary artifact.
    CopyLimineBinary { file: String, src: String, dest: String },
    /// Stage the kernel binary.
    CopyKernel { src: String, dest: String },
    /// Pack the staging tree into the raw bootable image.
    MasterIso { iso_root: String, image: String },
    /// Run the bootloader's own install utility on the fresh image.
    InstallLimine { installer: String, image: String },
    /// Performs nothing and always fails: the configured payload
    /// filesystem kind is not supported.
    RejectPayloadKind { kind: String },
    /// Create the zero-filled payload image file.
    CreatePayloadImage { kind: String },
    /// Format the payload image with the configured filesystem kind.
    FormatPayload { kind: String },
    /// Populate the payload image from the configured source tree.
    PopulatePayload { kind: String },
}

impl View for BuildStep {
    type V = BuildStepView;

    open spec fn view(&self) -> BuildStepView {
        match self {
            BuildStep::RunPrebuilder { command } => BuildStepView::RunPrebuilder {
                command: command@,
            },
            BuildStep::EnsureDir { path } => BuildStepView::EnsureDir { path: path@ },
            BuildStep::DownloadFile { url, dest } => BuildStepView::DownloadFile {
                url: url@,
                dest: dest@,
            },
            BuildStep::PurgeDir { path } => BuildStepView::PurgeDir { path: path@ },
            BuildStep::CloneLimine { url, branch, dest } => BuildStepView::CloneLimine {
                url: url@,
                branch: branch@,
                dest: dest@,
            },
            BuildStep::MakeLimine { dir } => BuildStepView::MakeLimine { dir: dir@ },
            BuildStep::CopyLimineConfig { src, dest } => BuildStepView::CopyLimineConfig {
                src: src@,
                dest: dest@,
            },
            BuildStep::CopyLimineBinary { file, src, dest } => BuildStepView::CopyLimineBinary {
                file: file@,
                src: src@,
                dest: dest@,
            },
            BuildStep::CopyKernel { src, dest } => BuildStepView::CopyKernel {
                src: src@,
                dest: dest@,
            },
            BuildStep::MasterIso { iso_root, image } => BuildStepView::MasterIso {
                iso_root: iso_root@,
                image: image@,
            },
            BuildStep::InstallLimine { installer, image } => BuildStepView::InstallLimine {
                installer: installer@,
                image: image@,
            },
            BuildStep::RejectPayloadKind { kind } => BuildStepView::RejectPayloadKind {
                kind: kind@,
            },
            BuildStep::CreatePayloadImage { kind } => BuildStepView::CreatePayloadImage {
                kind: kind@,
            },
            BuildStep::FormatPayload { kind } => BuildStepView::FormatPayload { kind: kind@ },
            BuildStep::PopulatePayload { kind } => BuildStepView::PopulatePayload { kind: kind@ },
        }
    }
}

impl DeepView for BuildStep {
    type V = BuildStepView;

    open spec fn deep_view(&self) -> BuildStepView {
        self.view()
    }
}

/// Mathematical view of `BuildError`.
pub enum BuildErrorView {
    Prebuilder,
    DownloadOvmf { url: Seq<char> },
    CreateDirectory { path: Seq<char> },
    CloneLimine,
    CopyLimineConfig,
    CopyLimineBinary { file: Seq<char> },
    CopyKernel,
    CreateIso,
    InstallLimine,
    UnsupportedFilesystem { kind: Seq<char> },
    PayloadFormat { kind: Seq<char> },
    PayloadPopulate,
}

/// A failure of the build pipeline: one kind per pipeline step, each
/// carrying the file or command it concerns.
#[derive(Debug, Clone, PartialEq, Eq)]
pub enum BuildError {
    /// The prebuild hook could not be started.
    Prebuilder,
    /// A firmware download failed.
    DownloadOvmf { url: String },
    /// A working directory could not be created.
    CreateDirectory { path: String },
    /// Purging, cloning or building the bootloader failed.
    CloneLimine,
    /// The boot configuration file could not be staged.
    CopyLimineConfig,
    /// A bootloader binary artifact could not be staged.
    CopyLimineBinary { file: String },
    /// The kernel binary could not be staged.
    CopyKernel,
    /// Packing the staging tree into the image failed.
    CreateIso,
    /// The bootloader's install utility failed on the image.
    InstallLimine,
    /// The configured payload filesystem kind is not one the pipeline can
    /// format.
    UnsupportedFilesystem { kind: String },
    /// Creating or formatting the payload image failed.
    PayloadFormat { kind: String },
    /// Populating the payload image failed.
    PayloadPopulate,
}

impl View for BuildError {
    type V = BuildErrorView;

    open spec fn view(&self) -> BuildErrorView {
        match self {
            BuildError::Prebuilder => BuildErrorView::Prebuilder,
            BuildError::DownloadOvmf { url } => BuildErrorView::DownloadOvmf { url: url@ },
            BuildError::CreateDirectory { path } => BuildErrorView::CreateDirectory {
                path: path@,
            },
            BuildError::CloneLimine => BuildErrorView::CloneLimine,
            BuildError::CopyLimineConfig => BuildErrorView::CopyLimineConfig,
            BuildError::CopyLimineBinary { file } => BuildErrorView::CopyLimineBinary {
                file: file@,
            },
            BuildError::CopyKernel => BuildErrorView::CopyKernel,
            BuildError::CreateIso => BuildErrorView::CreateIso,
            BuildError::InstallLimine => BuildErrorView::InstallLimine,
            BuildError::UnsupportedFilesystem { kind } => BuildErrorView::UnsupportedFilesystem {
                kind: kind@,
            },
            BuildError::PayloadFormat { kind } => BuildErrorView::PayloadFormat { kind: kind@ },
            BuildError::PayloadPopulate => BuildErrorView::PayloadPopulate,
        }
    }
}

/// How one executed step went, as the driver observed it.
#[derive(Debug, Clone, Copy, PartialEq, Eq)]
pub enum CmdOutcome {
    /// The command ran and reported success.
    Succeeded,
    /// The command ran and exited with a non-zero status.
    ExitNonZero,
    /// The command could not be run at all, or the filesystem operation
    /// failed.
    IoError,
}

/// Mathematical view of `StepVerdict`.
pub enum StepVerdictView {
    Proceed,
    ProceedWithWarning,
    Abort { error: BuildErrorView },
}

/// What the pipeline does after one step's outcome: go on, go on but log a
/// warning, or abort with the step's error.
#[derive(Debug, Clone, PartialEq, Eq)]
pub enum StepVerdict {
    Proceed,
    ProceedWithWarning,
    Abort { error: BuildError },
}

impl View for StepVerdict {
    type V = StepVerdictView;

    open spec fn view(&self) -> StepVerdictView {
        match self {
            StepVerdict::Proceed => StepVerdictView::Proceed,
            StepVerdict::ProceedWithWarning => StepVerdictView::ProceedWithWarning,
            StepVerdict::Abort { error } => StepVerdictView::Abort { error: error@ },
        }
    }
}

/// Joins a directory and a name with a single separator.
pub open spec fn spec_join(dir: Seq<char>, name: Seq<char>) -> Seq<char> {
    dir + "/"@ + name
}

/// The fixed list of bootloader artifacts the pipeline needs: their joint
/// presence in the bootloader directory is the sole cache-validity signal.
pub open spec fn spec_required_limine_files() -> Seq<Seq<char>> {
    seq![
        "limine-bios.sys"@,
        "limine-bios-cd.bin"@,
        "limine-uefi-cd.bin"@,
        "BOOTX64.EFI"@,
        "BOOTIA32.EFI"@,
    ]
}

/// The bootloader artifacts staged into the legacy boot directory.
pub open spec fn spec_limine_bios_files() -> Seq<Seq<char>> {
    seq!["limine-bios.sys"@, "limine-bios-cd.bin"@, "limine-uefi-cd.bin"@]
}

/// The bootloader artifacts staged into the EFI boot directory.
pub open spec fn spec_limine_efi_files() -> Seq<Seq<char>> {
    seq!["BOOTX64.EFI"@, "BOOTIA32.EFI"@]
}

/// Where the bootloader sources are cloned from.
pub open spec fn spec_limine_git_url() -> Seq<char> {
    "https://github.com/limine-bootloader/limine.git"@
}

/// The binary release branch of the bootloader that is cloned.
pub open spec fn spec_limine_branch() -> Seq<char> {
    "v8.x-binary"@
}

/// The name of one firmware file, by its kind (`code` or `vars`).
pub open spec fn spec_ovmf_file(kind: Seq<char>) -> Seq<char> {
    "ovmf-"@ + kind + "-x86_64.fd"@
}

/// Where one firmware file is downloaded from.
pub open spec fn spec_ovmf_url(kind: Seq<char>) -> Seq<char> {
    "https://github.com/osdev0/edk2-ovmf-nightly/releases/latest/download/"@ + spec_ovmf_file(
        kind,
    )
}

/// The conventional kernel build output used when no kernel path is given.
pub open spec fn spec_default_kernel_path() -> Seq<char> {
    "target/x86_64-unknown-none/debug/kernel"@
}

/// The payload filesystem kinds the pipeline can format: the FAT variants
/// and ext4. Any other configured kind is a hard error.
pub open spec fn spec_supported_filesystem(kind: Seq<char>) -> bool {
    ||| kind == "fat12"@
    ||| kind == "fat16"@
    ||| kind == "fat32"@
    ||| kind == "ext4"@
}

/// The staging directory for the boot configuration and the legacy
/// bootloader binaries.
pub open spec fn spec_boot_dir(c: LimageConfigView) -> Seq<char> {
    spec_join(spec_join(c.build.iso_root, "boot"@), "limine"@)
}

/// The staging directory for the EFI bootloader binaries.
pub open spec fn spec_efi_dir(c: LimageConfigView) -> Seq<char> {
    spec_join(spec_join(c.build.iso_root, "EFI"@), "BOOT"@)
}

/// The staging directory for the kernel binary.
pub open spec fn spec_kernel_dir(c: LimageConfigView) -> Seq<char> {
    spec_join(spec_join(c.build.iso_root, "boot"@), "kernel"@)
}

/// The prelude of the pipeline: the prebuild hook when one is configured,
/// then the firmware directory and the two firmware downloads. The
/// firmware stage is not cached: it fetches on every run.
pub open spec fn spec_prelude_plan(c: LimageConfigView) -> Seq<BuildStepView> {
    (match c.build.prebuilder {
        Some(command) => seq![BuildStepView::RunPrebuilder { command }],
        None => Seq::<BuildStepView>::empty(),
    }) + seq![
        BuildStepView::EnsureDir { path: c.build.ovmf_path },
        BuildStepView::DownloadFile {
            url: spec_ovmf_url("code"@),
            dest: spec_join(c.build.ovmf_path, spec_ovmf_file("code"@)),
        },
        BuildStepView::DownloadFile {
            url: spec_ovmf_url("vars"@),
            dest: spec_join(c.build.ovmf_path, spec_ovmf_file("vars"@)),
        },
    ]
}

/// The bootloader acquisition segment, decided by the observed state of the
/// bootloader directory: nothing at all when the directory exists and holds
/// every required file; otherwise a purge of the stale directory (only if
/// one exists), then recreate, clone and build.
pub open spec fn spec_limine_plan(
    c: LimageConfigView,
    dir_exists: bool,
    all_present: bool,
) -> Seq<BuildStepView> {
    if dir_exists && all_present {
        Seq::<BuildStepView>::empty()
    } else {
        (if dir_exists {
            seq![BuildStepView::PurgeDir { path: c.build.limine_path }]
        } else {
            Seq::<BuildStepView>::empty()
        }) + seq![
            BuildStepView::EnsureDir { path: c.build.limine_path },
            BuildStepView::CloneLimine {
                url: spec_limine_git_url(),
                branch: spec_limine_branch(),
                dest: c.build.limine_path,
            },
            BuildStepView::MakeLimine { dir: c.build.limine_path },
        ]
    }
}

/// The staging of one bootloader artifact from the bootloader directory
/// into a staging directory.
pub open spec fn spec_binary_copy(
    c: LimageConfigView,
    dest_dir: Seq<char>,
    file: Seq<char>,
) -> BuildStepView {
    BuildStepView::CopyLimineBinary {
        file,
        src: spec_join(c.build.limine_path, file),
        dest: spec_join(dest_dir, file),
    }
}

/// All bootloader binary staging steps: the legacy artifacts into the boot
/// directory, then the EFI artifacts into the EFI directory.
pub open spec fn spec_binary_copies(c: LimageConfigView) -> Seq<BuildStepView> {
    spec_limine_bios_files().map_values(|f: Seq<char>| spec_binary_copy(c, spec_boot_dir(c), f))
        + spec_limine_efi_files().map_values(
        |f: Seq<char>| spec_binary_copy(c, spec_efi_dir(c), f),
    )
}

/// The optional payload stage: skipped entirely with no filesystem
/// configured; with a supported kind, create, format and populate the
/// payload image; with an unsupported kind, a single always-failing step.
pub open spec fn spec_payload_plan(c: LimageConfigView) -> Seq<BuildStepView> {
    match c.build.filesystem {
        Some(kind) => if spec_supported_filesystem(kind) {
            seq![
                BuildStepView::CreatePayloadImage { kind },
                BuildStepView::FormatPayload { kind },
                BuildStepView::PopulatePayload { kind },
            ]
        } else {
            seq![BuildStepView::RejectPayloadKind { kind }]
        },
        None => Seq::<BuildStepView>::empty(),
    }
}

/// Everything after bootloader acquisition: stage the boot configuration,
/// the bootloader binaries and the kernel, create the image's parent
/// directory when the image path has one, master the image, install the
/// bootloader into it, and run the optional payload stage.
pub open spec fn spec_staging_plan(
    c: LimageConfigView,
    kernel: Option<Seq<char>>,
) -> Seq<BuildStepView> {
    seq![
        BuildStepView::EnsureDir { path: spec_boot_dir(c) },
        BuildStepView::CopyLimineConfig {
            src: "limine.conf"@,
            dest: spec_join(spec_boot_dir(c), "limine.conf"@),
        },
        BuildStepView::EnsureDir { path: spec_boot_dir(c) },
        BuildStepView::EnsureDir { path: spec_efi_dir(c) },
    ] + spec_binary_copies(c) + seq![
        BuildStepView::EnsureDir { path: spec_kernel_dir(c) },
        BuildStepView::CopyKernel {
            src: match kernel {
                Some(k) => k,
                None => spec_default_kernel_path(),
            },
            dest: spec_join(spec_kernel_dir(c), "kernel"@),
        },
    ] + (match paths::spec_parent_dir(c.build.image_path) {
        Some(parent) => seq![BuildStepView::EnsureDir { path: parent }],
        None => Seq::<BuildStepView>::empty(),
    }) + seq![
        BuildStepView::MasterIso { iso_root: c.build.iso_root, image: c.build.image_path },
        BuildStepView::InstallLimine {
            installer: spec_join(c.build.limine_path, "limine"@),
            image: c.build.image_path,
        },
    ] + spec_payload_plan(c)
}

/// The full ordered plan of one build, given the observation of the
/// bootloader directory taken between the prelude and the acquisition
/// segment.
pub open spec fn spec_build_plan(
    c: LimageConfigView,
    kernel: Option<Seq<char>>,
    dir_exists: bool,
    all_present: bool,
) -> Seq<BuildStepView> {
    spec_prelude_plan(c) + spec_limine_plan(c, dir_exists, all_present) + spec_staging_plan(
        c,
        kernel,
    )
}

/// The error reported when the given step fails.
pub open spec fn spec_step_error(s: BuildStepView) -> BuildErrorView {
    match s {
        BuildStepView::RunPrebuilder { .. } => BuildErrorView::Prebuilder,
        BuildStepView::EnsureDir { path } => BuildErrorView::CreateDirectory { path },
        BuildStepView::DownloadFile { url, .. } => BuildErrorView::DownloadOvmf { url },
        BuildStepView::PurgeDir { .. } => BuildErrorView::CloneLimine,
        BuildStepView::CloneLimine { .. } => BuildErrorView::CloneLimine,
        BuildStepView::MakeLimine { .. } => BuildErrorView::CloneLimine,
        BuildStepView::CopyLimineConfig { .. } => BuildErrorView::CopyLimineConfig,
        BuildStepView::CopyLimineBinary { file, .. } => BuildErrorView::CopyLimineBinary { file },
        BuildStepView::CopyKernel { .. } => BuildErrorView::CopyKernel,
        BuildStepView::MasterIso { .. } => BuildErrorView::CreateIso,
        BuildStepView::InstallLimine { .. } => BuildErrorView::InstallLimine,
        BuildStepView::RejectPayloadKind { kind } => BuildErrorView::UnsupportedFilesystem {
            kind,
        },
        BuildStepView::CreatePayloadImage { kind } => BuildErrorView::PayloadFormat { kind },
        BuildStepView::FormatPayload { kind } => BuildErrorView::PayloadFormat { kind },
        BuildStepView::PopulatePayload { .. } => BuildErrorView::PayloadPopulate,
    }
}

/// The pipeline's failure policy: a step that reports success proceeds; a
/// non-zero exit of the prebuild hook is downgraded to a warning; an
/// unsupported payload kind always aborts; every other failure aborts with
/// the step's error. There are no retries and no rollback.
pub open spec fn spec_step_verdict(s: BuildStepView, o: CmdOutcome) -> StepVerdictView {
    if s is RejectPayloadKind {
        StepVerdictView::Abort { error: spec_step_error(s) }
    } else {
        match o {
            CmdOutcome::Succeeded => StepVerdictView::Proceed,
            CmdOutcome::ExitNonZero => if s is RunPrebuilder {
                StepVerdictView::ProceedWithWarning
            } else {
                StepVerdictView::Abort { error: spec_step_error(s) }
            },
            CmdOutcome::IoError => StepVerdictView::Abort { error: spec_step_error(s) },
        }
    }
}

/// A step of the bootloader acquisition stage: the only steps that purge,
/// clone or build the bootloader.
pub open spec fn is_acquisition_step(s: BuildStepView) -> bool {
    ||| s is PurgeDir
    ||| s is CloneLimine
    ||| s is MakeLimine
}

/// No step of the pipeline's prelude touches the bootloader directory.
proof fn lemma_prelude_no_acquisition(c: LimageConfigView)
    ensures
        forall|i: int|
            0 <= i < spec_prelude_plan(c).len() ==> !is_acquisition_step(
                #[trigger] spec_prelude_plan(c)[i],
            ),
{
    let p = spec_prelude_plan(c);
    let head_len: int = match c.build.prebuilder {
        Some(command) => 1,
        None => 0,
    };
    assert forall|i: int| 0 <= i < p.len() implies !is_acquisition_step(p[i]) by {
        if i < head_len {
            assert(p[i] is RunPrebuilder);
        } else if i == head_len {
            assert(p[i] is EnsureDir);
        } else {
            assert(p[i] is DownloadFile);
        }
    }
}

/// No step after bootloader acquisition purges, clones or builds the
/// bootloader.
proof fn lemma_staging_no_acquisition(c: LimageConfigView, kernel: Option<Seq<char>>)
    ensures
        forall|i: int|
            0 <= i < spec_staging_plan(c, kernel).len() ==> !is_acquisition_step(
                #[trigger] spec_staging_plan(c, kernel)[i],
            ),
{
    let p = spec_staging_plan(c, kernel);
    let copies = spec_binary_copies(c);
    assert(copies.len() == 5);
    let parent_len: int = match paths::spec_parent_dir(c.build.image_path) {
        Some(parent) => 1,
        None => 0,
    };
    assert forall|i: int| 0 <= i < p.len() implies !is_acquisition_step(p[i]) by {
        if i < 4 {
            assert(!is_acquisition_step(p[i]));
        } else if i < 9 {
            assert(p[i] == copies[i - 4]);
            assert(copies[i - 4] is CopyLimineBinary);
        } else if i < 11 {
            assert(!is_acquisition_step(p[i]));
        } else if i < 11 + parent_len {
            assert(p[i] is EnsureDir);
        } else if i < 13 + parent_len {
            assert(!is_acquisition_step(p[i]));
        } else {
            let payload = spec_payload_plan(c);
            assert(p[i] == payload[i - 13 - parent_len]);
            assert(!is_acquisition_step(payload[i - 13 - parent_len]));
        }
    }
}

/// Idempotent acquisition law: when the bootloader directory exists and
/// already holds every required file, the acquisition segment is empty, and
/// the whole build plan issues no purge, clone or bootloader-build command
/// at all.
pub proof fn lemma_idempotent_acquisition(c: LimageConfigView, kernel: Option<Seq<char>>)
    ensures
        spec_limine_plan(c, true, true) == Seq::<BuildStepView>::empty(),
        forall|i: int|
            0 <= i < spec_build_plan(c, kernel, true, true).len() ==> !is_acquisition_step(
                #[trigger] spec_build_plan(c, kernel, true, true)[i],
            ),
{
    lemma_prelude_no_acquisition(c);
    lemma_staging_no_acquisition(c, kernel);
    let plan = spec_build_plan(c, kernel, true, true);
    let pre = spec_prelude_plan(c);
    let stage = spec_staging_plan(c, kernel);
    assert forall|i: int| 0 <= i < plan.len() implies !is_acquisition_step(plan[i]) by {
        if i < pre.len() {
            assert(plan[i] == pre[i]);
        } else {
            assert(plan[i] == stage[i - pre.len()]);
        }
    }
}

/// Cache invalidation law: a bootloader directory that exists but misses
/// any required file is purged and re-acquired in full; an absent directory
/// is acquired without a purge. Either way the acquisition segment issues
/// the clone; it is never skipped silently.
pub proof fn lemma_cache_invalidation(c: LimageConfigView, dir_exists: bool, all_present: bool)
    ensures
        spec_limine_plan(c, true, false) == seq![
            BuildStepView::PurgeDir { path: c.build.limine_path },
            BuildStepView::EnsureDir { path: c.build.limine_path },
            BuildStepView::CloneLimine {
                url: spec_limine_git_url(),
                branch: spec_limine_branch(),
                dest: c.build.limine_path,
            },
            BuildStepView::MakeLimine { dir: c.build.limine_path },
        ],
        !dir_exists ==> spec_limine_plan(c, dir_exists, all_present) == seq![
            BuildStepView::EnsureDir { path: c.build.limine_path },
            BuildStepView::CloneLimine {
                url: spec_limine_git_url(),
                branch: spec_limine_branch(),
                dest: c.build.limine_path,
            },
            BuildStepView::MakeLimine { dir: c.build.limine_path },
        ],
        !(dir_exists && all_present) ==> exists|i: int|
            0 <= i < spec_limine_plan(c, dir_exists, all_present).len() && (
            #[trigger] spec_limine_plan(c, dir_exists, all_present)[i]) is CloneLimine,
{
    assert(spec_limine_plan(c, true, false) =~= seq![
        BuildStepView::PurgeDir { path: c.build.limine_path },
        BuildStepView::EnsureDir { path: c.build.limine_path },
        BuildStepView::CloneLimine {
            url: spec_limine_git_url(),
            branch: spec_limine_branch(),
            dest: c.build.limine_path,
        },
        BuildStepView::MakeLimine { dir: c.build.limine_path },
    ]);
    if !dir_exists {
        assert(spec_limine_plan(c, dir_exists, all_present) =~= seq![
            BuildStepView::EnsureDir { path: c.build.limine_path },
            BuildStepView::CloneLimine {
                url: spec_limine_git_url(),
                branch: spec_limine_branch(),
                dest: c.build.limine_path,
            },
            BuildStepView::MakeLimine { dir: c.build.limine_path },
        ]);
    }
    if !(dir_exists && all_present) {
        let plan = spec_limine_plan(c, dir_exists, all_present);
        if dir_exists {
            assert(plan[2] is CloneLimine);
        } else {
            assert(plan[1] is CloneLimine);
        }
    }
}

/// Joins a directory and a name with a single separator.
fn join(dir: &String, name: &str) -> (r: String)
    ensures
        r@ == spec_join(dir@, name@),
{
    let mut r = dir.clone();
    r.append("/");
    r.append(name);
    r
}

/// The name of one firmware file, by its kind.
fn ovmf_file(kind: &str) -> (r: String)
    ensures
        r@ == spec_ovmf_file(kind@),
{
    let mut r = "ovmf-".to_owned();
    r.append(kind);
    r.append("-x86_64.fd");
    r
}

/// Where one firmware file is downloaded from.
fn ovmf_url(kind: &str) -> (r: String)
    ensures
        r@ == spec_ovmf_url(kind@),
{
    let mut r = "https://github.com/osdev0/edk2-ovmf-nightly/releases/latest/download/".to_owned();
    let file = ovmf_file(kind);
    r.append(file.as_str());
    r
}

/// Whether the pipeline can format a payload image of the given kind.
pub fn is_supported_filesystem(kind: &String) -> (r: bool)
    ensures
        r == spec_supported_filesystem(kind@),
{
    let fat12 = "fat12".to_owned();
    let fat16 = "fat16".to_owned();
    let fat32 = "fat32".to_owned();
    let ext4 = "ext4".to_owned();
    *kind == fat12 || *kind == fat16 || *kind == fat32 || *kind == ext4
}

/// The error reported when the given step fails.
pub fn step_error(step: &BuildStep) -> (e: BuildError)
    ensures
        e@ == spec_step_error(step@),
{
    match step {
        BuildStep::RunPrebuilder { .. } => BuildError::Prebuilder,
        BuildStep::EnsureDir { path } => BuildError::CreateDirectory { path: path.clone() },
        BuildStep::DownloadFile { url, .. } => BuildError::DownloadOvmf { url: url.clone() },
        BuildStep::PurgeDir { .. } => BuildError::CloneLimine,
        BuildStep::CloneLimine { .. } => BuildError::CloneLimine,
        BuildStep::MakeLimine { .. } => BuildError::CloneLimine,
        BuildStep::CopyLimineConfig { .. } => BuildError::CopyLimineConfig,
        BuildStep::CopyLimineBinary { file, .. } => BuildError::CopyLimineBinary {
            file: file.clone(),
        },
        BuildStep::CopyKernel { .. } => BuildError::CopyKernel,
        BuildStep::MasterIso { .. } => BuildError::CreateIso,
        BuildStep::InstallLimine { .. } => BuildError::InstallLimine,
        BuildStep::RejectPayloadKind { kind } => BuildError::UnsupportedFilesystem {
            kind: kind.clone(),
        },
        BuildStep::CreatePayloadImage { kind } => BuildError::PayloadFormat { kind: kind.clone() },
        BuildStep::FormatPayload { kind } => BuildError::PayloadFormat { kind: kind.clone() },
        BuildStep::PopulatePayload { .. } => BuildError::PayloadPopulate,
    }
}

/// Judges one executed step's outcome, as `spec_step_verdict` lays the
/// policy down.
pub fn step_verdict(step: &BuildStep, outcome: CmdOutcome) -> (v: StepVerdict)
    ensures
        v@ == spec_step_verdict(step@, outcome),
{
    match step {
        BuildStep::RejectPayloadKind { .. } => StepVerdict::Abort { error: step_error(step) },
        _ => match outcome {
            CmdOutcome::Succeeded => StepVerdict::Proceed,
            CmdOutcome::ExitNonZero => match step {
                BuildStep::RunPrebuilder { .. } => StepVerdict::ProceedWithWarning,
                _ => StepVerdict::Abort { error: step_error(step) },
            },
            CmdOutcome::IoError => StepVerdict::Abort { error: step_error(step) },
        },
    }
}

/// The fixed list of bootloader artifacts whose joint presence in the
/// bootloader directory makes the cache valid.
pub fn required_limine_files() -> (files: Vec<String>)
    ensures
        files.deep_view() == spec_required_limine_files(),
{
    let mut files: Vec<String> = Vec::new();
    files.push("limine-bios.sys".to_owned());
    files.push("limine-bios-cd.bin".to_owned());
    files.push("limine-uefi-cd.bin".to_owned());
    files.push("BOOTX64.EFI".to_owned());
    files.push("BOOTIA32.EFI".to_owned());
    proof {
        assert(files.deep_view() =~= spec_required_limine_files());
    }
    files
}

/// Drives the fixed-order pipeline that turns a kernel binary and a
/// configuration into a bootable image.
pub struct Builder {
    pub config: LimageConfig,
}

impl Builder {
    pub fn new(config: LimageConfig) -> (r: Result<Builder, BuildError>)
        ensures
            r matches Ok(b) && b.config == config,
    {
        Ok(Builder { config })
    }

    /// The staging directory for the boot configuration and the legacy
    /// bootloader binaries.
    fn boot_dir(&self) -> (r: String)
        ensures
            r@ == spec_boot_dir(self.config@),
    {
        let b = join(&self.config.build.iso_root, "boot");
        join(&b, "limine")
    }

    /// The staging directory for the EFI bootloader binaries.
    fn efi_dir(&self) -> (r: String)
        ensures
            r@ == spec_efi_dir(self.config@),
    {
        let b = join(&self.config.build.iso_root, "EFI");
        join(&b, "BOOT")
    }

    /// The staging directory for the kernel binary.
    fn kernel_dir(&self) -> (r: String)
        ensures
            r@ == spec_kernel_dir(self.config@),
    {
        let b = join(&self.config.build.iso_root, "boot");
        join(&b, "kernel")
    }

    /// One bootloader binary staging step.
    fn binary_copy(&self, dest_dir: &String, file: &str) -> (s: BuildStep)
        ensures
            s@ == spec_binary_copy(self.config@, dest_dir@, file@),
    {
        BuildStep::CopyLimineBinary {
            file: file.to_owned(),
            src: join(&self.config.build.limine_path, file),
            dest: join(dest_dir, file),
        }
    }

    /// The prelude of the pipeline: prebuild hook, firmware directory,
    /// firmware downloads. The driver runs these before it observes the
    /// bootloader directory.
    pub fn prelude_plan(&self) -> (steps: Vec<BuildStep>)
        ensures
            steps.deep_view() == spec_prelude_plan(self.config@),
    {
        let mut steps: Vec<BuildStep> = Vec::new();
        match &self.config.build.prebuilder {
            Some(command) => {
                steps.push(BuildStep::RunPrebuilder { command: command.clone() });
            },
            None => {},
        }
        steps.push(BuildStep::EnsureDir { path: self.config.build.ovmf_path.clone() });
        let code_file = ovmf_file("code");
        steps.push(
            BuildStep::DownloadFile {
                url: ovmf_url("code"),
                dest: join(&self.config.build.ovmf_path, code_file.as_str()),
            },
        );
        let vars_file = ovmf_file("vars");
        steps.push(
            BuildStep::DownloadFile {
                url: ovmf_url("vars"),
                dest: join(&self.config.build.ovmf_path, vars_file.as_str()),
            },
        );
        proof {
            assert(steps.deep_view() =~= spec_prelude_plan(self.config@));
        }
        steps
    }

    /// The bootloader acquisition segment, decided by the observed state of
    /// the bootloader directory: empty exactly when the directory exists
    /// and holds every required file.
    pub fn limine_plan(&self, dir_exists: bool, all_present: bool) -> (steps: Vec<BuildStep>)
        ensures
            steps.deep_view() == spec_limine_plan(self.config@, dir_exists, all_present),
    {
        let mut steps: Vec<BuildStep> = Vec::new();
        if !(dir_exists && all_present) {
            if dir_exists {
                steps.push(BuildStep::PurgeDir { path: self.config.build.limine_path.clone() });
            }
            steps.push(BuildStep::EnsureDir { path: self.config.build.limine_path.clone() });
            steps.push(
                BuildStep::CloneLimine {
                    url: "https://github.com/limine-bootloader/limine.git".to_owned(),
                    branch: "v8.x-binary".to_owned(),
                    dest: self.config.build.limine_path.clone(),
                },
            );
            steps.push(BuildStep::MakeLimine { dir: self.config.build.limine_path.clone() });
        }
        proof {
            assert(steps.deep_view() =~= spec_limine_plan(self.config@, dir_exists, all_present));
        }
        steps
    }

    /// Everything after bootloader acquisition: staging, mastering, install
    /// and the optional payload stage.
    pub fn staging_plan(&self, kernel_path: Option<&String>) -> (steps: Vec<BuildStep>)
        ensures
            steps.deep_view() == spec_staging_plan(self.config@, kernel_path.deep_view()),
    {
        let boot_dir = self.boot_dir();
        let efi_dir = self.efi_dir();
        let kernel_dir = self.kernel_dir();
        let mut steps: Vec<BuildStep> = Vec::new();
        steps.push(BuildStep::EnsureDir { path: boot_dir.clone() });
        steps.push(
            BuildStep::CopyLimineConfig {
                src: "limine.conf".to_owned(),
                dest: join(&boot_dir, "limine.conf"),
            },
        );
        steps.push(BuildStep::EnsureDir { path: boot_dir.clone() });
        steps.push(BuildStep::EnsureDir { path: efi_dir.clone() });
        steps.push(self.binary_copy(&boot_dir, "limine-bios.sys"));
        steps.push(self.binary_copy(&boot_dir, "limine-bios-cd.bin"));
        steps.push(self.binary_copy(&boot_dir, "limine-uefi-cd.bin"));
        steps.push(self.binary_copy(&efi_dir, "BOOTX64.EFI"));
        steps.push(self.binary_copy(&efi_dir, "BOOTIA32.EFI"));
        steps.push(BuildStep::EnsureDir { path: kernel_dir.clone() });
        let kernel_src: String = match kernel_path {
            Some(p) => (*p).clone(),
            None => "target/x86_64-unknown-none/debug/kernel".to_owned(),
        };
        steps.push(BuildStep::CopyKernel { src: kernel_src, dest: join(&kernel_dir, "kernel") });
        match paths::parent_dir(self.config.build.image_path.as_str()) {
            Some(parent) => {
                steps.push(BuildStep::EnsureDir { path: parent });
            },
            None => {},
        }
        steps.push(
            BuildStep::MasterIso {
                iso_root: self.config.build.iso_root.clone(),
                image: self.config.build.image_path.clone(),
            },
        );
        steps.push(
            BuildStep::InstallLimine {
                installer: join(&self.config.build.limine_path, "limine"),
                image: self.config.build.image_path.clone(),
            },
        );
        match &self.config.build.filesystem {
            Some(kind) => {
                if is_supported_filesystem(kind) {
                    steps.push(BuildStep::CreatePayloadImage { kind: kind.clone() });
                    steps.push(BuildStep::FormatPayload { kind: kind.clone() });
                    steps.push(BuildStep::PopulatePayload { kind: kind.clone() });
                } else {
                    steps.push(BuildStep::RejectPayloadKind { kind: kind.clone() });
                }
            },
            None => {},
        }
        proof {
            assert(steps.deep_view() =~= spec_staging_plan(self.config@, kernel_path.deep_view()));
        }
        steps
    }

    /// The full ordered plan of one build. The two observation flags say
    /// whether the bootloader directory exists and whether it holds every
    /// required file; the driver takes that observation between the prelude
    /// and the acquisition segment, which `prelude_plan`, `limine_plan` and
    /// `staging_plan` expose separately.
    pub fn build(
        &self,
        kernel_path: Option<&String>,
        limine_dir_exists: bool,
        limine_all_present: bool,
    ) -> (steps: Vec<BuildStep>)
        ensures
            steps.deep_view() == spec_build_plan(
                self.config@,
                kernel_path.deep_view(),
                limine_dir_exists,
                limine_all_present,
            ),
    {
        let mut steps = self.prelude_plan();
        let mut limine = self.limine_plan(limine_dir_exists, limine_all_present);
        let mut staging = self.staging_plan(kernel_path);
        steps.append(&mut limine);
        steps.append(&mut staging);
        proof {
            assert(steps.deep_view() =~= spec_build_plan(
                self.config@,
                kernel_path.deep_view(),
                limine_dir_exists,
                limine_all_present,
            ));
        }
        steps
    }
}

} // verus!
