use backup::config::get;
use backup::report::{
    help_text, prog_error, report, try_help_error, INVALID_ARG_EXIT_CODE, PROG_NAME,
    SUCCESS_EXIT_CODE,
};

fn raw(args: &[&str]) -> Vec<String> {
    args.iter().map(|arg| arg.to_string()).collect()
}

const USAGE: &str = "Usage: backup [OPTION]... FILE_TO_BACKUP

Puts a copy of FILE_TO_BACKUP in the same directory as the original file.
If this is the only copy, this copy's filename has \".bak\" appended to it.
If other copies exist, this copy's filename has \".bak.n\" appended to it, where
n is the (nth - 1) copy. For example, if a copy of a.txt is being made and a.txt.bak
exists, then this copy is written to a.txt.bak.1.
";

#[test]
fn constants() {
    assert_eq!(SUCCESS_EXIT_CODE, 0);
    assert_eq!(INVALID_ARG_EXIT_CODE, 22);
    assert_eq!(PROG_NAME, "backup");
}

#[test]
fn usage_text_is_exact() {
    assert_eq!(help_text(), USAGE);
}

#[test]
fn error_lines_are_exact() {
    assert_eq!(prog_error(&"missing file operand".to_string()), "backup: missing file operand\n");
    assert_eq!(try_help_error(), "Try 'backup --help' for more information.\n");
}

#[test]
fn success_names_the_file() {
    let said = report(&get(&raw(&["-t", "a.txt", "b.txt"])));
    assert_eq!(said.exit_code, 0);
    assert_eq!(said.stdout, "The source filename is: a.txt\n");
    assert_eq!(said.stderr, "");
}

#[test]
fn help_prints_usage_and_succeeds() {
    let said = report(&get(&raw(&["--help"])));
    assert_eq!(said.exit_code, 0);
    assert_eq!(said.stdout, USAGE);
    assert_eq!(said.stderr, "");
}

#[test]
fn help_trumps_errors_and_operands() {
    let said = report(&get(&raw(&["-z", "a.txt", "--help", "--bogus"])));
    assert_eq!(said.exit_code, 0);
    assert_eq!(said.stdout, USAGE);
    assert_eq!(said.stderr, "");
}

#[test]
fn unknown_short_option_is_reported_on_stderr() {
    let said = report(&get(&raw(&["-z", "a.txt"])));
    assert_eq!(said.exit_code, 22);
    assert_eq!(said.stdout, "");
    assert_eq!(
        said.stderr,
        "backup: invalid option -- z\nTry 'backup --help' for more information.\n"
    );
}

#[test]
fn unknown_long_option_is_reported_on_stderr() {
    let said = report(&get(&raw(&["a.txt", "--bogus"])));
    assert_eq!(said.exit_code, 22);
    assert_eq!(said.stdout, "");
    assert_eq!(
        said.stderr,
        "backup: unrecognized option 'bogus'\nTry 'backup --help' for more information.\n"
    );
}

#[test]
fn missing_operand_is_reported_on_stderr() {
    let said = report(&get(&raw(&["--truncate"])));
    assert_eq!(said.exit_code, 22);
    assert_eq!(said.stdout, "");
    assert_eq!(
        said.stderr,
        "backup: missing file operand\nTry 'backup --help' for more information.\n"
    );
}

#[test]
fn report_of_a_given_error() {
    let said = report(&Err("anything".to_string()));
    assert_eq!(said.exit_code, 22);
    assert_eq!(said.stderr, "backup: anything\nTry 'backup --help' for more information.\n");
}
