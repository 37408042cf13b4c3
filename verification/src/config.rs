//! Resolved build, emulator and test settings. The configuration is
//! produced once (by the driver program, from an optional configuration
//! file, or from the defaults here) and is immutable afterwards.

use vstd::prelude::*;
use vstd::string::*;
use crate::template;
use crate::template::CommandTemplate;

verus! {

/// Mathematical view of `BuildConfig`.
pub struct BuildConfigView {
    pub image_path: Seq<char>,
    pub prebuilder: Option<Seq<char>>,
    pub filesystem: Option<Seq<char>>,
    pub ovmf_path: Seq<char>,
    pub limine_path: Seq<char>,
    pub iso_root: Seq<char>,
}

/// Paths and hooks of the image-assembly pipeline. All paths are plain,
/// already-resolved filesystem locations.
pub struct BuildConfig {
    /// Where the finished bootable image is written.
    pub image_path: String,
    /// Optional shell command run before anything else; its failure is a
    /// warning, not an error.
    pub prebuilder: Option<String>,
    /// Optional filesystem kind of an auxiliary payload image; absent means
    /// the payload stage is skipped entirely.
    pub filesystem: Option<String>,
    /// Working directory for the downloaded firmware files.
    pub ovmf_path: String,
    /// Working directory for the cloned and built bootloader.
    pub limine_path: String,
    /// Staging tree mirrored onto the final image.
    pub iso_root: String,
}

impl View for BuildConfig {
    type V = BuildConfigView;

    open spec fn view(&self) -> BuildConfigView {
        BuildConfigView {
            image_path: self.image_path@,
            prebuilder: self.prebuilder.deep_view(),
            filesystem: self.filesystem.deep_view(),
            ovmf_path: self.ovmf_path@,
            limine_path: self.limine_path@,
            iso_root: self.iso_root@,
        }
    }
}

/// Mathematical view of `QemuConfig`.
pub struct QemuConfigView {
    pub binary: Seq<char>,
    pub base_args: Seq<Seq<char>>,
    pub extra_args: Seq<Seq<char>>,
}

/// How the emulator is invoked.
pub struct QemuConfig {
    /// The emulator executable name.
    pub binary: String,
    /// Ordered argument templates; occurrences of `{image}` and `{ovmf}`
    /// are substituted before dispatch.
    pub base_args: Vec<String>,
    /// Appended verbatim after the rendered base arguments.
    pub extra_args: Vec<String>,
}

impl View for QemuConfig {
    type V = QemuConfigView;

    open spec fn view(&self) -> QemuConfigView {
        QemuConfigView {
            binary: self.binary@,
            base_args: self.base_args.deep_view(),
            extra_args: self.extra_args.deep_view(),
        }
    }
}

/// Mathematical view of `TestConfig`.
pub struct TestConfigView {
    pub timeout_secs: u32,
    pub success_exit_code: i32,
    pub no_reboot: bool,
    pub extra_args: Seq<Seq<char>>,
}

/// Settings of the supervised test run.
pub struct TestConfig {
    /// Wall-clock deadline of a supervised run, in seconds; meaningful
    /// values are positive.
    pub timeout_secs: u32,
    /// The exit code with which the emulated test harness signals that all
    /// tests passed. Distinct in meaning from exit code 0, which the
    /// emulator returns on an unrelated ordinary shutdown.
    pub success_exit_code: i32,
    /// Whether a no-reboot flag is appended to the emulator invocation in
    /// test mode.
    pub no_reboot: bool,
    /// Appended verbatim at the end of a test-mode invocation.
    pub extra_args: Vec<String>,
}

impl View for TestConfig {
    type V = TestConfigView;

    open spec fn view(&self) -> TestConfigView {
        TestConfigView {
            timeout_secs: self.timeout_secs,
            success_exit_code: self.success_exit_code,
            no_reboot: self.no_reboot,
            extra_args: self.extra_args.deep_view(),
        }
    }
}

/// Mathematical view of `LimageConfig`.
pub struct LimageConfigView {
    pub build: BuildConfigView,
    pub qemu: QemuConfigView,
    pub test: TestConfigView,
}

/// The resolved settings of one invocation: build pipeline, emulator and
/// test harness.
pub struct LimageConfig {
    pub build: BuildConfig,
    pub qemu: QemuConfig,
    pub test: TestConfig,
}

impl View for LimageConfig {
    type V = LimageConfigView;

    open spec fn view(&self) -> LimageConfigView {
        LimageConfigView { build: self.build@, qemu: self.qemu@, test: self.test@ }
    }
}

impl LimageConfigView {
    /// The configuration's invariant: the supervised deadline is positive.
    pub open spec fn well_formed(self) -> bool {
        self.test.timeout_secs > 0
    }
}

/// A configuration error: the file could not be read, or its contents do
/// not fit the schema, or a working directory could not be created.
#[derive(Debug, PartialEq, Eq)]
pub enum ConfigError {
    ReadConfig { message: String },
    ParseConfig { message: String },
    CreateDirectory { path: String, name: String },
}

/// The default build settings.
pub open spec fn spec_default_build_config() -> BuildConfigView {
    BuildConfigView {
        image_path: "target/kernel.iso"@,
        prebuilder: None,
        filesystem: None,
        ovmf_path: "target/ovmf"@,
        limine_path: "target/limine"@,
        iso_root: "target/iso_root"@,
    }
}

/// The default emulator argument templates, using the `{image}` and
/// `{ovmf}` placeholders.
pub open spec fn spec_default_qemu_args() -> Seq<Seq<char>> {
    seq![
        "-m"@,
        "2G"@,
        "-cdrom"@,
        "{image}"@,
        "-drive"@,
        "if=pflash,unit=0,format=raw,file={ovmf}/ovmf-code-x86_64.fd,readonly=on"@,
        "-drive"@,
        "if=pflash,unit=1,format=raw,file={ovmf}/ovmf-vars-x86_64.fd"@,
    ]
}

/// The default emulator settings.
pub open spec fn spec_default_qemu_config() -> QemuConfigView {
    QemuConfigView {
        binary: "qemu-system-x86_64"@,
        base_args: spec_default_qemu_args(),
        extra_args: Seq::empty(),
    }
}

/// The default test-harness settings.
pub open spec fn spec_default_test_config() -> TestConfigView {
    TestConfigView {
        timeout_secs: 300,
        success_exit_code: 33,
        no_reboot: true,
        extra_args: Seq::empty(),
    }
}

/// The all-defaults configuration, used when no configuration file is
/// present.
pub open spec fn spec_default_config() -> LimageConfigView {
    LimageConfigView {
        build: spec_default_build_config(),
        qemu: spec_default_qemu_config(),
        test: spec_default_test_config(),
    }
}

fn default_build_config() -> (c: BuildConfig)
    ensures
        c@ == spec_default_build_config(),
{
    BuildConfig {
        image_path: "target/kernel.iso".to_owned(),
        prebuilder: None,
        filesystem: None,
        ovmf_path: "target/ovmf".to_owned(),
        limine_path: "target/limine".to_owned(),
        iso_root: "target/iso_root".to_owned(),
    }
}

fn default_qemu_args() -> (args: Vec<String>)
    ensures
        args.deep_view() == spec_default_qemu_args(),
{
    let mut args: Vec<String> = Vec::new();
    args.push("-m".to_owned());
    args.push("2G".to_owned());
    args.push("-cdrom".to_owned());
    args.push("{image}".to_owned());
    args.push("-drive".to_owned());
    args.push("if=pflash,unit=0,format=raw,file={ovmf}/ovmf-code-x86_64.fd,readonly=on".to_owned());
    args.push("-drive".to_owned());
    args.push("if=pflash,unit=1,format=raw,file={ovmf}/ovmf-vars-x86_64.fd".to_owned());
    proof {
        assert(args.deep_view() =~= spec_default_qemu_args());
    }
    args
}

fn default_qemu_config() -> (c: QemuConfig)
    ensures
        c@ == spec_default_qemu_config(),
{
    let c = QemuConfig {
        binary: "qemu-system-x86_64".to_owned(),
        base_args: default_qemu_args(),
        extra_args: Vec::new(),
    };
    proof {
        assert(c.extra_args.deep_view() =~= Seq::<Seq<char>>::empty());
    }
    c
}

fn default_test_config() -> (c: TestConfig)
    ensures
        c@ == spec_default_test_config(),
{
    let c = TestConfig {
        timeout_secs: 300,
        success_exit_code: 33,
        no_reboot: true,
        extra_args: Vec::new(),
    };
    proof {
        assert(c.extra_args.deep_view() =~= Seq::<Seq<char>>::empty());
    }
    c
}

impl Default for LimageConfig {
    /// The all-defaults configuration.
    fn default() -> (c: LimageConfig)
        ensures
            c@ == spec_default_config(),
            c@.well_formed(),
    {
        LimageConfig {
            build: default_build_config(),
            qemu: default_qemu_config(),
            test: default_test_config(),
        }
    }
}

/// The placeholder bindings of one emulator invocation: `{image}` bound to
/// the image location, `{ovmf}` bound to the firmware directory.
pub open spec fn spec_placeholder_bindings(
    image_path: Seq<char>,
    ovmf_path: Seq<char>,
) -> Seq<(Seq<char>, Seq<char>)> {
    seq![("{image}"@, image_path), ("{ovmf}"@, ovmf_path)]
}

fn placeholder_bindings(image_path: &String, ovmf_path: &String) -> (b: Vec<(String, String)>)
    ensures
        b.deep_view() == spec_placeholder_bindings(image_path@, ovmf_path@),
{
    let mut b: Vec<(String, String)> = Vec::new();
    b.push(("{image}".to_owned(), image_path.clone()));
    b.push(("{ovmf}".to_owned(), ovmf_path.clone()));
    proof {
        assert(b.deep_view() =~= spec_placeholder_bindings(image_path@, ovmf_path@));
    }
    b
}

/// Appends clones of all of `src` to `dst`, in order.
fn append_all(dst: &mut Vec<String>, src: &Vec<String>)
    ensures
        final(dst).deep_view() == old(dst).deep_view() + src.deep_view(),
{
    let ghost dst0: Seq<Seq<char>> = dst.deep_view();
    let mut i: usize = 0;
    while i < src.len()
        invariant
            i <= src.len(),
            src.deep_view().len() == src.len(),
            dst.deep_view() =~= dst0 + src.deep_view().subrange(0, i as int),
        decreases src.len() - i,
    {
        let ghost before: Seq<Seq<char>> = dst.deep_view();
        dst.push(src[i].clone());
        proof {
            assert(dst.deep_view() =~= before.push(src.deep_view()[i as int]));
        }
        i += 1;
    }
    proof {
        assert(src.deep_view().subrange(0, src.deep_view().len() as int) =~= src.deep_view());
    }
}

/// The full emulator argument vector of one run: the emulator binary, the
/// base argument templates with both placeholders substituted, the verbatim
/// extra arguments, and, in test mode only, the no-reboot flag (when
/// configured) followed by the test-specific extra arguments.
pub open spec fn spec_qemu_command(
    c: LimageConfigView,
    image_path: Seq<char>,
    is_test: bool,
) -> Seq<Seq<char>> {
    seq![c.qemu.binary] + CommandTemplate::spec_render(
        c.qemu.base_args,
        spec_placeholder_bindings(image_path, c.build.ovmf_path),
    ) + c.qemu.extra_args + (if is_test {
        (if c.test.no_reboot {
            seq!["-no-reboot"@]
        } else {
            Seq::<Seq<char>>::empty()
        }) + c.test.extra_args
    } else {
        Seq::<Seq<char>>::empty()
    })
}

impl LimageConfig {
    /// Assembles the emulator invocation for the given image location and
    /// mode, exactly as `spec_qemu_command` lays it out.
    pub fn get_qemu_command(&self, image_path: &String, is_test: bool) -> (cmd: Vec<String>)
        ensures
            cmd.deep_view() == spec_qemu_command(self@, image_path@, is_test),
    {
        let mut cmd: Vec<String> = Vec::new();
        cmd.push(self.qemu.binary.clone());
        proof {
            assert(cmd.deep_view() =~= seq![self.qemu.binary@]);
        }
        let bindings = placeholder_bindings(image_path, &self.build.ovmf_path);
        let rendered = template::render_args(&self.qemu.base_args, &bindings);
        append_all(&mut cmd, &rendered);
        append_all(&mut cmd, &self.qemu.extra_args);
        if is_test {
            if self.test.no_reboot {
                let ghost before: Seq<Seq<char>> = cmd.deep_view();
                cmd.push("-no-reboot".to_owned());
                proof {
                    assert(cmd.deep_view() =~= before.push("-no-reboot"@));
                    assert(cmd.deep_view() =~= before + seq!["-no-reboot"@]);
                }
            }
            append_all(&mut cmd, &self.test.extra_args);
        }
        proof {
            assert(cmd.deep_view() =~= spec_qemu_command(self@, image_path@, is_test));
        }
        cmd
    }

    /// Checks the resolved configuration; every resolved configuration is
    /// accepted.
    pub fn validate(&self) -> (r: Result<(), ConfigError>)
        ensures
            r is Ok,
    {
        Ok(())
    }

    /// What the clean operation removes: the generated working directories
    /// and the final image, in this order. Removal of paths that are
    /// already absent is a no-op for the driver.
    pub fn clean_targets(&self) -> (r: Vec<String>)
        ensures
            r.deep_view() == seq![
                "target/iso_root"@,
                "target/ovmf"@,
                "target/limine"@,
                self.build.image_path@,
            ],
    {
        let mut r: Vec<String> = Vec::new();
        r.push("target/iso_root".to_owned());
        r.push("target/ovmf".to_owned());
        r.push("target/limine".to_owned());
        r.push(self.build.image_path.clone());
        proof {
            assert(r.deep_view() =~= seq![
                "target/iso_root"@,
                "target/ovmf"@,
                "target/limine"@,
                self.build.image_path@,
            ]);
        }
        r
    }
}

} // verus!
