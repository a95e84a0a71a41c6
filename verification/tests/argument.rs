use std::io::Write;

use tempfile::{NamedTempFile, TempDir};
use triad_runtime::{ArgumentError, ComponentArgument, ComponentCommand};

/// Creates `name` inside `directory` holding `contents`; the file lives as
/// long as the returned handle.
fn write_file(directory: &TempDir, name: &str, contents: &[u8]) -> NamedTempFile {
    let mut file = tempfile::Builder::new()
        .prefix(name)
        .rand_bytes(0)
        .tempfile_in(directory.path())
        .expect("create input");
    file.write_all(contents).expect("write input");
    file
}

fn command(arguments: &[&str]) -> ComponentCommand {
    ComponentCommand::from_arguments(arguments.iter().map(|argument| argument.to_string()).collect())
}

#[test]
fn command_classifies_inline_dotos_text_for_text_clients() {
    let command = command(&["(Record [payload])"]);

    let argument = command.dotos_argument().expect("dotos argument");

    assert_eq!(
        argument.into_inline_dotos().expect("inline dotos").as_str(),
        "(Record [payload])"
    );
}

#[test]
fn command_classifies_existing_file_as_dotos_file_for_text_clients() {
    let directory = TempDir::new().expect("tempdir");
    let path = directory.path().join("input.dotos");
    let _file = write_file(&directory, "input.dotos", b"(Record [payload])");
    let command = ComponentCommand::from_arguments(vec![path.display().to_string()]);

    let argument = command.dotos_argument().expect("dotos file argument");

    assert_eq!(
        argument.into_dotos_file().expect("dotos file").as_path(),
        path.as_path()
    );
}

#[test]
fn command_classifies_existing_file_as_signal_file_for_daemons() {
    let directory = TempDir::new().expect("tempdir");
    let path = directory.path().join("configuration.rkyv");
    let _file = write_file(&directory, "configuration.rkyv", &[1, 2, 3]);
    let command = ComponentCommand::from_arguments(vec![path.display().to_string()]);

    let argument = command
        .signal_file_argument()
        .expect("signal file argument");

    assert_eq!(
        argument.into_signal_file().expect("signal file").as_path(),
        path.as_path()
    );
}

#[test]
fn command_rejects_zero_or_multiple_arguments() {
    let missing = ComponentCommand::from_arguments(Vec::<String>::new())
        .dotos_argument()
        .expect_err("missing argument");
    let multiple = command(&["one", "two"])
        .dotos_argument()
        .expect_err("multiple arguments");

    assert!(matches!(missing, ArgumentError::ArgumentCount { count: 0 }));
    assert!(matches!(
        multiple,
        ArgumentError::ArgumentCount { count: 2 }
    ));
}

#[test]
fn daemon_argument_rejects_inline_text() {
    let command = command(&["(BindingSurface ...)"]);

    let error = command
        .signal_file_argument()
        .expect_err("daemon expects a signal file");

    assert!(matches!(error, ArgumentError::ExpectedSignalFile));
}

#[test]
fn daemon_argument_rejects_dotos_file() {
    let directory = TempDir::new().expect("tempdir");
    let path = directory.path().join("configuration.dotos");
    let _file = write_file(&directory, "configuration.dotos", b"(BindingSurface)");
    let command = ComponentCommand::from_arguments(vec![path.display().to_string()]);

    let error = command
        .signal_file_argument()
        .expect_err("daemon rejects a DOTOS file path");

    assert!(matches!(error, ArgumentError::ExpectedSignalFile));
}

#[test]
fn pretty_flag_is_recognized_and_removed_from_the_dotos_operand() {
    let plain = command(&["(Record [payload])"]);
    assert!(!plain.pretty_requested());

    let pretty = command(&["--pretty", "(Record [payload])"]);
    assert!(pretty.pretty_requested());
    assert_eq!(pretty.argument_count(), 1);
    assert_eq!(
        pretty
            .dotos_argument()
            .expect("dotos argument")
            .into_inline_dotos()
            .expect("inline dotos")
            .as_str(),
        "(Record [payload])"
    );
}

#[test]
fn pretty_flag_does_not_relax_the_single_argument_rule() {
    let error = command(&["--pretty", "one", "two"])
        .dotos_argument()
        .expect_err("two operands remain an error even with --pretty");

    assert!(matches!(error, ArgumentError::ArgumentCount { count: 2 }));
}

#[test]
fn component_argument_variants_are_distinct() {
    let command = command(&["(Record [payload])"]);

    let argument = command.dotos_argument().expect("dotos argument");

    assert!(matches!(argument, ComponentArgument::InlineDotos(_)));
}

#[test]
fn classification_given_existence_decides_file_or_text() {
    let command = command(&["/some/where/input.dotos"]);

    let file = command.dotos_argument_given(true).expect("file");
    let text = command.dotos_argument_given(false).expect("text");

    assert_eq!(
        file.into_dotos_file().expect("dotos file").into_path(),
        std::path::PathBuf::from("/some/where/input.dotos")
    );
    assert_eq!(
        text.into_inline_dotos().expect("inline text").into_string(),
        "/some/where/input.dotos"
    );
}

#[test]
fn signal_file_classification_checks_the_extension_of_the_file_name() {
    let accepted = [
        "state.rkyv",
        "dir.dotos/state",
        "archive.dotos.bak",
        ".dotos",
        "plain",
        "state.dotos/..",
        ".",
    ];
    for operand in accepted {
        let argument = command(&[operand])
            .signal_file_argument_given(true)
            .expect("existing non-dotos path is a signal file");
        assert!(argument.into_signal_file().is_some(), "{operand}");
    }

    let refused = [
        "state.dotos",
        "dir/state.dotos",
        "a.b.dotos",
        "..dotos",
        "state.dotos/",
        "state.dotos/.",
        "dir//state.dotos/./",
    ];
    for operand in refused {
        let error = command(&[operand])
            .signal_file_argument_given(true)
            .expect_err("dotos file is refused");
        assert!(matches!(error, ArgumentError::ExpectedSignalFile), "{operand}");
    }

    let error = command(&["state.rkyv"])
        .signal_file_argument_given(false)
        .expect_err("missing path is refused");
    assert!(matches!(error, ArgumentError::ExpectedSignalFile));
}

#[test]
fn pretty_flag_alone_leaves_no_operand() {
    let command = command(&["--pretty", "--pretty"]);

    assert!(command.pretty_requested());
    assert_eq!(command.argument_count(), 0);
    assert!(matches!(
        command.signal_file_argument(),
        Err(ArgumentError::ArgumentCount { count: 0 })
    ));
}
