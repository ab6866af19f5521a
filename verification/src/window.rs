//! Window identity resolution.
//!
//! The unverified caller runs the window-management utility and reads the
//! owning process's executable link; the functions here hold the decisions.
//! [`utility_outcome`] turns the utility's exit status and decoded output into
//! either the trimmed process id or a diagnostic, and [`link_target_base`]
//! turns the link's target into the executable's base name or a diagnostic.

use crate::diag::Diagnostic;
use crate::diag::DiagnosticView;
use crate::text::base_name;
use crate::text::base_name_of;
use crate::text::trim_spaces;
use crate::text::trimmed;
use vstd::prelude::*;

verus! {

/// The shape of one resolution step's outcome: a piece of text on success, a
/// diagnostic on failure.
pub open spec fn outcome_view(r: Result<String, Diagnostic>) -> Result<
    Seq<char>,
    DiagnosticView,
> {
    match r {
        Result::Ok(s) => Result::Ok(s@),
        Result::Err(d) => Result::Err(d@),
    }
}

pub open spec fn opt_code_view(o: Option<i32>) -> Option<int> {
    match o {
        Option::Some(c) => Option::Some(c as int),
        Option::None => Option::None,
    }
}

pub open spec fn opt_text_view(o: Option<&str>) -> Option<Seq<char>> {
    match o {
        Option::Some(s) => Option::Some(s@),
        Option::None => Option::None,
    }
}

/// What the utility's run means: its trimmed output is the owning process id
/// when it exited successfully with textual output; otherwise the exact
/// failure, the reported exit code first.
pub open spec fn utility_outcome_view(
    exit_ok: bool,
    exit_code: Option<int>,
    out: Option<Seq<char>>,
) -> Result<Seq<char>, DiagnosticView> {
    if !exit_ok {
        match exit_code {
            Option::Some(c) => Result::Err(DiagnosticView::UtilityExit { code: c }),
            Option::None => Result::Err(DiagnosticView::UtilityNoExitCode),
        }
    } else {
        match out {
            Option::Some(s) => Result::Ok(trimmed(s)),
            Option::None => Result::Err(DiagnosticView::UtilityOutputNotText),
        }
    }
}

/// Interpret one run of the window-management utility.  `exit_ok` and
/// `exit_code` come from its exit status; `stdout_text` is its standard
/// output, `None` when that output was not valid text.
pub fn utility_outcome(exit_ok: bool, exit_code: Option<i32>, stdout_text: Option<&str>) -> (r:
    Result<String, Diagnostic>)
    ensures
        outcome_view(r) == utility_outcome_view(
            exit_ok,
            opt_code_view(exit_code),
            opt_text_view(stdout_text),
        ),
{
    if !exit_ok {
        match exit_code {
            Some(c) => Err(Diagnostic::UtilityExit { code: c }),
            None => Err(Diagnostic::UtilityNoExitCode),
        }
    } else {
        match stdout_text {
            Some(s) => Ok(String::from_str(trim_spaces(s))),
            None => Err(Diagnostic::UtilityOutputNotText),
        }
    }
}

/// What the executable link's target means: the target's base name is the
/// window's executable identity; a target that is not valid text, or one with
/// no final component, is a failure of its own.
pub open spec fn link_target_view(target: Option<Seq<char>>) -> Result<
    Seq<char>,
    DiagnosticView,
> {
    match target {
        Option::None => Result::Err(DiagnosticView::NameNotText),
        Option::Some(p) => if base_name_of(p).len() == 0 {
            Result::Err(DiagnosticView::NoBaseName)
        } else {
            Result::Ok(base_name_of(p))
        },
    }
}

/// Extract the executable identity from the link's target.  `target` is the
/// target path, `None` when it was not valid text.
pub fn link_target_base(target: Option<&str>) -> (r: Result<String, Diagnostic>)
    ensures
        outcome_view(r) == link_target_view(opt_text_view(target)),
{
    match target {
        None => Err(Diagnostic::NameNotText),
        Some(p) => match base_name(p) {
            None => Err(Diagnostic::NoBaseName),
            Some(b) => Ok(b),
        },
    }
}

} // verus!
