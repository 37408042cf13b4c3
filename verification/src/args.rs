//! The bare argument parser: folds a raw argument list into a command.
//! A help or version flag wins as soon as it is seen; the word `build`
//! asks for a build-only run; any other argument names the kernel
//! executable, the last one winning; and fewer than two arguments also
//! mean build-only. A kernel executable is required either way.

use vstd::prelude::*;
use vstd::string::*;

verus! {

/// Mathematical view of `LimageCommand`.
pub enum LimageCommandView {
    Build,
    Run { executable: Seq<char> },
    Version,
    Help,
}

/// The command a raw argument list resolves to.
#[derive(Debug, Clone, PartialEq, Eq)]
pub enum LimageCommand {
    Build,
    Run(LimageArgs),
    Version,
    Help,
}

/// The arguments of a resolved run command.
#[derive(Debug, Clone, PartialEq, Eq)]
pub struct LimageArgs {
    pub executable: String,
}

impl View for LimageCommand {
    type V = LimageCommandView;

    open spec fn view(&self) -> LimageCommandView {
        match self {
            LimageCommand::Build => LimageCommandView::Build,
            LimageCommand::Run(args) => LimageCommandView::Run { executable: args.executable@ },
            LimageCommand::Version => LimageCommandView::Version,
            LimageCommand::Help => LimageCommandView::Help,
        }
    }
}

/// Raw argument lists that name no kernel executable are rejected.
#[derive(Debug, Clone, Copy, PartialEq, Eq, Structural)]
pub enum ArgsError {
    MissingExecutable,
}

impl ArgsError {
    /// The error's message.
    pub fn message(&self) -> (m: String)
        ensures
            m@ == "expected path to kernel executable as first argument"@,
    {
        "expected path to kernel executable as first argument".to_owned()
    }
}

/// The argument asks for the help text.
pub open spec fn is_flag_help(a: Seq<char>) -> bool {
    a == "--help"@ || a == "-h"@
}

/// The argument asks for the version.
pub open spec fn is_flag_version(a: Seq<char>) -> bool {
    a == "--version"@ || a == "-v"@
}

/// What is resolved from the arguments still unread, given the executable
/// and build-only choices made so far. A help or version flag ends the
/// fold at once; `build` sets build-only; anything else becomes the
/// executable.
pub open spec fn spec_parse_loop(
    args: Seq<Seq<char>>,
    executable: Option<Seq<char>>,
    build_only: bool,
) -> Result<LimageCommandView, ArgsError>
    decreases args.len(),
{
    if args.len() == 0 {
        match executable {
            None => Err(ArgsError::MissingExecutable),
            Some(exe) => if build_only {
                Ok(LimageCommandView::Build)
            } else {
                Ok(LimageCommandView::Run { executable: exe })
            },
        }
    } else if is_flag_help(args[0]) {
        Ok(LimageCommandView::Help)
    } else if is_flag_version(args[0]) {
        Ok(LimageCommandView::Version)
    } else if args[0] == "build"@ {
        spec_parse_loop(args.drop_first(), executable, true)
    } else {
        spec_parse_loop(args.drop_first(), Some(args[0]), build_only)
    }
}

/// What a raw argument list resolves to. The build-only choice starts as
/// true for argument lists of fewer than two entries.
pub open spec fn spec_parse_args(args: Seq<Seq<char>>) -> Result<LimageCommandView, ArgsError> {
    spec_parse_loop(args, None, args.len() < 2)
}

/// An argument list whose every entry is the word `build` is rejected: the
/// parser demands a kernel executable even for a build-only run.
pub proof fn lemma_parse_needs_executable(args: Seq<Seq<char>>)
    requires
        forall|i: int| 0 <= i < args.len() ==> args[i] == "build"@,
    ensures
        spec_parse_args(args) is Err,
{
    lemma_parse_loop_no_executable(args, args.len() < 2);
}

proof fn lemma_parse_loop_no_executable(args: Seq<Seq<char>>, build_only: bool)
    requires
        forall|i: int| 0 <= i < args.len() ==> args[i] == "build"@,
    ensures
        spec_parse_loop(args, None, build_only) is Err,
    decreases args.len(),
{
    if args.len() > 0 {
        assert(args[0] == "build"@);
        assert(!is_flag_help(args[0])) by {
            assert("build"@.len() == 5 && "--help"@.len() == 6 && "-h"@.len() == 2) by {
                reveal_strlit("build");
                reveal_strlit("--help");
                reveal_strlit("-h");
            }
        }
        assert(!is_flag_version(args[0])) by {
            assert("build"@.len() == 5 && "--version"@.len() == 9 && "-v"@.len() == 2) by {
                reveal_strlit("build");
                reveal_strlit("--version");
                reveal_strlit("-v");
            }
        }
        assert(forall|i: int|
            0 <= i < args.drop_first().len() ==> args.drop_first()[i] == "build"@);
        lemma_parse_loop_no_executable(args.drop_first(), true);
    }
}

impl LimageCommand {
    /// Resolves a raw argument list, as `spec_parse_args` lays it down.
    pub fn parse_args(args: Vec<String>) -> (r: Result<LimageCommand, ArgsError>)
        ensures
            match r {
                Ok(cmd) => spec_parse_args(args.deep_view()) == Ok::<LimageCommandView, ArgsError>(
                    cmd@,
                ),
                Err(e) => spec_parse_args(args.deep_view()) == Err::<LimageCommandView, ArgsError>(
                    e,
                ),
            },
    {
        let ghost av: Seq<Seq<char>> = args.deep_view();
        let mut executable: Option<String> = None;
        let mut build_only: bool = args.len() < 2;
        let mut i: usize = 0;
        proof {
            assert(av.subrange(0, av.len() as int) =~= av);
        }
        while i < args.len()
            invariant
                i <= args.len(),
                av == args.deep_view(),
                av.len() == args.len(),
                spec_parse_args(av) == spec_parse_loop(
                    av.subrange(i as int, av.len() as int),
                    executable.deep_view(),
                    build_only,
                ),
            decreases args.len() - i,
        {
            let arg = &args[i];
            proof {
                assert(av.subrange(i as int, av.len() as int)[0] == arg@);
                assert(av.subrange(i as int, av.len() as int).drop_first() =~= av.subrange(
                    i + 1,
                    av.len() as int,
                ));
            }
            let help_long = "--help".to_owned();
            let help_short = "-h".to_owned();
            let version_long = "--version".to_owned();
            let version_short = "-v".to_owned();
            let build_word = "build".to_owned();
            if *arg == help_long || *arg == help_short {
                return Ok(LimageCommand::Help);
            } else if *arg == version_long || *arg == version_short {
                return Ok(LimageCommand::Version);
            } else if *arg == build_word {
                build_only = true;
            } else {
                executable = Some(arg.clone());
            }
            i += 1;
        }
        proof {
            assert(av.subrange(av.len() as int, av.len() as int) =~= Seq::<Seq<char>>::empty());
        }
        match executable {
            None => Err(ArgsError::MissingExecutable),
            Some(exe) => if build_only {
                Ok(LimageCommand::Build)
            } else {
                Ok(LimageCommand::Run(LimageArgs { executable: exe }))
            },
        }
    }
}

} // verus!
