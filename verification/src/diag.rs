//! Failure diagnostics.
//!
//! Every way a resolution attempt can fail gets its own variant, mirroring the
//! error taxonomy of the launcher: window-utility failures, identity-extraction
//! failures, missing candidates, and failures of the exec call itself.  The
//! free-text `detail` fields carry operating-system error text supplied by the
//! unverified caller.  `message` renders the one diagnostic line reported for
//! a failed attempt.

use crate::text::dec_int;
use crate::text::format_i32;
use vstd::prelude::*;

verus! {

/// One failure of one resolution attempt.
#[derive(Debug, PartialEq, Eq)]
pub enum Diagnostic {
    /// The window utility could not be started at all.
    UtilityUnreachable { detail: String },
    /// The window utility ran but exited with this non-zero code.
    UtilityExit { code: i32 },
    /// The window utility failed without reporting an exit code.
    UtilityNoExitCode,
    /// The window utility's output was not valid text.
    UtilityOutputNotText,
    /// The process-metadata link of the owning process could not be read.
    LinkUnreadable { detail: String },
    /// The executable's name was not valid text.
    NameNotText,
    /// The executable's path has no final component to take a name from.
    NoBaseName,
    /// The location of the running program itself could not be determined.
    ProgramPathUnknown { detail: String },
    /// No `by-exe` directory exists for the focused window's executable.
    NoMacroDirectory { exe: String },
    /// The application-specific directory exists but lacks the script file.
    NoScript { path: String },
    /// The fallback directory lacks the script file.
    NoDefaultScript { path: String },
    /// The exec call on a resolved script failed.
    ExecFailed { detail: String },
}

/// The mathematical shape of a [`Diagnostic`], with text as `Seq<char>`.
pub enum DiagnosticView {
    UtilityUnreachable { detail: Seq<char> },
    UtilityExit { code: int },
    UtilityNoExitCode,
    UtilityOutputNotText,
    LinkUnreadable { detail: Seq<char> },
    NameNotText,
    NoBaseName,
    ProgramPathUnknown { detail: Seq<char> },
    NoMacroDirectory { exe: Seq<char> },
    NoScript { path: Seq<char> },
    NoDefaultScript { path: Seq<char> },
    ExecFailed { detail: Seq<char> },
}

impl View for Diagnostic {
    type V = DiagnosticView;

    open spec fn view(&self) -> DiagnosticView {
        match self {
            Diagnostic::UtilityUnreachable { detail } => DiagnosticView::UtilityUnreachable {
                detail: detail@,
            },
            Diagnostic::UtilityExit { code } => DiagnosticView::UtilityExit { code: *code as int },
            Diagnostic::UtilityNoExitCode => DiagnosticView::UtilityNoExitCode,
            Diagnostic::UtilityOutputNotText => DiagnosticView::UtilityOutputNotText,
            Diagnostic::LinkUnreadable { detail } => DiagnosticView::LinkUnreadable {
                detail: detail@,
            },
            Diagnostic::NameNotText => DiagnosticView::NameNotText,
            Diagnostic::NoBaseName => DiagnosticView::NoBaseName,
            Diagnostic::ProgramPathUnknown { detail } => DiagnosticView::ProgramPathUnknown {
                detail: detail@,
            },
            Diagnostic::NoMacroDirectory { exe } => DiagnosticView::NoMacroDirectory { exe: exe@ },
            Diagnostic::NoScript { path } => DiagnosticView::NoScript { path: path@ },
            Diagnostic::NoDefaultScript { path } => DiagnosticView::NoDefaultScript {
                path: path@,
            },
            Diagnostic::ExecFailed { detail } => DiagnosticView::ExecFailed { detail: detail@ },
        }
    }
}

/// The diagnostic line reported for `d`.
pub open spec fn message_view(d: DiagnosticView) -> Seq<char> {
    match d {
        DiagnosticView::UtilityUnreachable { detail } => "could not run xdotool: "@ + detail,
        DiagnosticView::UtilityExit { code } => "xdotool exited with error code "@ + dec_int(code),
        DiagnosticView::UtilityNoExitCode => {
            "xdotool unsuccessfully completed without error code"@
        },
        DiagnosticView::UtilityOutputNotText => "xdotool output is not valid UTF-8"@,
        DiagnosticView::LinkUnreadable { detail } => "could not read the executable link: "@
            + detail,
        DiagnosticView::NameNotText => "File not valid UTF-8"@,
        DiagnosticView::NoBaseName => "Executable path does not exist"@,
        DiagnosticView::ProgramPathUnknown { detail } => {
            "could not locate the running program: "@ + detail
        },
        DiagnosticView::NoMacroDirectory { exe } => {
            "No macro directory for current active window: '"@ + exe + "'"@
        },
        DiagnosticView::NoScript { path } => "No script: "@ + path,
        DiagnosticView::NoDefaultScript { path } => "No default script: "@ + path,
        DiagnosticView::ExecFailed { detail } => "could not execute the script: "@ + detail,
    }
}

impl Diagnostic {
    /// Render the one diagnostic line reported for this failure.
    pub fn message(&self) -> (r: String)
        ensures
            r@ == message_view(self@),
    {
        match self {
            Diagnostic::UtilityUnreachable { detail } => {
                let mut s = String::from_str("could not run xdotool: ");
                s.append(detail.as_str());
                s
            },
            Diagnostic::UtilityExit { code } => {
                let mut s = String::from_str("xdotool exited with error code ");
                let digits = format_i32(*code);
                s.append(digits.as_str());
                s
            },
            Diagnostic::UtilityNoExitCode => {
                String::from_str("xdotool unsuccessfully completed without error code")
            },
            Diagnostic::UtilityOutputNotText => {
                String::from_str("xdotool output is not valid UTF-8")
            },
            Diagnostic::LinkUnreadable { detail } => {
                let mut s = String::from_str("could not read the executable link: ");
                s.append(detail.as_str());
                s
            },
            Diagnostic::NameNotText => String::from_str("File not valid UTF-8"),
            Diagnostic::NoBaseName => String::from_str("Executable path does not exist"),
            Diagnostic::ProgramPathUnknown { detail } => {
                let mut s = String::from_str("could not locate the running program: ");
                s.append(detail.as_str());
                s
            },
            Diagnostic::NoMacroDirectory { exe } => {
                let mut s = String::from_str("No macro directory for current active window: '");
                s.append(exe.as_str());
                s.append("'");
                s
            },
            Diagnostic::NoScript { path } => {
                let mut s = String::from_str("No script: ");
                s.append(path.as_str());
                s
            },
            Diagnostic::NoDefaultScript { path } => {
                let mut s = String::from_str("No default script: ");
                s.append(path.as_str());
                s
            },
            Diagnostic::ExecFailed { detail } => {
                let mut s = String::from_str("could not execute the script: ");
                s.append(detail.as_str());
                s
            },
        }
    }
}

} // verus!
