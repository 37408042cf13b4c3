use limage::args::{ArgsError, LimageArgs, LimageCommand};

fn parse(args: &[&str]) -> Result<LimageCommand, ArgsError> {
    LimageCommand::parse_args(args.iter().map(|a| a.to_string()).collect())
}

#[test]
fn empty_arguments_are_rejected() {
    assert_eq!(parse(&[]), Err(ArgsError::MissingExecutable));
}

#[test]
fn single_argument_means_build_only() {
    assert_eq!(parse(&["limage"]), Ok(LimageCommand::Build));
}

#[test]
fn last_plain_argument_is_the_executable() {
    assert_eq!(
        parse(&["limage", "target/debug/kernel"]),
        Ok(LimageCommand::Run(LimageArgs { executable: "target/debug/kernel".to_string() }))
    );
}

#[test]
fn build_word_requests_build_only() {
    assert_eq!(parse(&["limage", "build", "kernel"]), Ok(LimageCommand::Build));
}

#[test]
fn build_word_alone_still_needs_an_executable() {
    assert_eq!(parse(&["build", "build"]), Err(ArgsError::MissingExecutable));
}

#[test]
fn help_flag_wins_immediately() {
    assert_eq!(parse(&["limage", "--help", "kernel"]), Ok(LimageCommand::Help));
    assert_eq!(parse(&["limage", "-h"]), Ok(LimageCommand::Help));
}

#[test]
fn version_flag_wins_immediately() {
    assert_eq!(parse(&["--version", "kernel"]), Ok(LimageCommand::Version));
    assert_eq!(parse(&["limage", "kernel", "-v"]), Ok(LimageCommand::Version));
}

#[test]
fn first_flag_decides() {
    assert_eq!(parse(&["-h", "-v"]), Ok(LimageCommand::Help));
    assert_eq!(parse(&["-v", "-h"]), Ok(LimageCommand::Version));
}

#[test]
fn later_executable_overrides_earlier() {
    assert_eq!(
        parse(&["limage", "first", "second"]),
        Ok(LimageCommand::Run(LimageArgs { executable: "second".to_string() }))
    );
}

#[test]
fn error_message_names_the_missing_executable() {
    assert_eq!(
        ArgsError::MissingExecutable.message(),
        "expected path to kernel executable as first argument"
    );
}
