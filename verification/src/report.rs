//! What a run prints and the status it exits with, decided from the result
//! of binding the command line.

use crate::config::{outcome, Config, ConfigView};
use vstd::prelude::*;
use vstd::string::*;

verus! {

/// The exit status of a run that went well, or that showed the usage text.
pub const SUCCESS_EXIT_CODE: i32 = 0;

/// The exit status of a run whose command line was refused.
pub const INVALID_ARG_EXIT_CODE: i32 = 22;

/// The name under which the tool speaks of itself.
pub const PROG_NAME: &'static str = "backup";

/// The usage text after the tool's name.
pub const USAGE_SYNOPSIS: &'static str =
    " [OPTION]... FILE_TO_BACKUP\n\nPuts a copy of FILE_TO_BACKUP in the same directory as the original file.\nIf this is the only copy, this copy's filename has \".bak\" appended to it.\nIf other copies exist, this copy's filename has \".bak.n\" appended to it, where\nn is the (nth - 1) copy. For example, if a copy of a.txt is being made and a.txt.bak\nexists, then this copy is written to a.txt.bak.1.\n";

/// What a run writes to its two streams, and its exit status.
#[derive(Debug)]
pub struct Report {
    pub exit_code: i32,
    pub stdout: String,
    pub stderr: String,
}

/// The mathematical value of a [`Report`].
pub struct ReportView {
    pub exit_code: int,
    pub stdout: Seq<char>,
    pub stderr: Seq<char>,
}

impl View for Report {
    type V = ReportView;

    open spec fn view(&self) -> ReportView {
        ReportView {
            exit_code: self.exit_code as int,
            stdout: self.stdout@,
            stderr: self.stderr@,
        }
    }
}

/// The usage text, with the line break that ends it.
pub open spec fn usage_text() -> Seq<char> {
    "Usage: "@ + PROG_NAME@ + USAGE_SYNOPSIS@
}

/// The line that reports the error `message` under the tool's name.
pub open spec fn prog_error_line(message: Seq<char>) -> Seq<char> {
    PROG_NAME@ + ": "@ + message + "\n"@
}

/// The line that points to the usage text.
pub open spec fn try_help_line() -> Seq<char> {
    "Try '"@ + PROG_NAME@ + " --help' for more information.\n"@
}

/// The line that names the file that the run works on.
pub open spec fn filename_line(filename: Seq<char>) -> Seq<char> {
    "The source filename is: "@ + filename + "\n"@
}

/// What a run reports for each result of binding.
///
/// An error is reported on the error stream, followed by the pointer to the
/// usage text, with the status for a refused command line. A request for
/// help prints the usage text and nothing else. Any other run names its
/// file. Both of these succeed.
pub open spec fn report_of(result: Result<ConfigView, Seq<char>>) -> ReportView {
    match result {
        Err(message) => ReportView {
            exit_code: INVALID_ARG_EXIT_CODE as int,
            stdout: Seq::empty(),
            stderr: prog_error_line(message) + try_help_line(),
        },
        Ok(config) => ReportView {
            exit_code: SUCCESS_EXIT_CODE as int,
            stdout: if config.show_help {
                usage_text()
            } else {
                filename_line(config.filename)
            },
            stderr: Seq::empty(),
        },
    }
}

/// The usage text.
pub fn help_text() -> (text: String)
    ensures
        text@ == usage_text(),
{
    let mut text = String::from_str("Usage: ");
    text.append(PROG_NAME);
    text.append(USAGE_SYNOPSIS);
    text
}

/// The line that reports `err` under the tool's name.
pub fn prog_error(err: &String) -> (line: String)
    ensures
        line@ == prog_error_line(err@),
{
    let mut line = String::from_str(PROG_NAME);
    line.append(": ");
    line.append(err.as_str());
    line.append("\n");
    line
}

/// The line that points to the usage text.
pub fn try_help_error() -> (line: String)
    ensures
        line@ == try_help_line(),
{
    let mut line = String::from_str("Try '");
    line.append(PROG_NAME);
    line.append(" --help' for more information.\n");
    line
}

/// Decides what a run prints and how it exits.
pub fn report(result: &Result<Config, String>) -> (said: Report)
    ensures
        said@ == report_of(outcome(*result)),
{
    match result {
        Err(err) => {
            let mut stderr = prog_error(err);
            let hint = try_help_error();
            stderr.append(hint.as_str());
            Report { exit_code: INVALID_ARG_EXIT_CODE, stdout: String::new(), stderr }
        },
        Ok(config) => {
            // --help trumps any other configuration field
            let stdout = if config.should_show_help() {
                help_text()
            } else {
                let mut line = String::from_str("The source filename is: ");
                line.append(config.get_filename().as_str());
                line.append("\n");
                line
            };
            Report { exit_code: SUCCESS_EXIT_CODE, stdout, stderr: String::new() }
        },
    }
}

} // verus!
