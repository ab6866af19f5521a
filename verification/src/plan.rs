//! Dispatch planning.
//!
//! One invocation makes two attempts, the application-specific one always
//! evaluated before the default one.  Given the window-identity outcome and
//! the observed filesystem state, [`plan_attempts`] decides both: each is
//! either the launch of one exact script path or a failure carrying its
//! diagnostic.  The unverified caller performs the launches; when both
//! attempts fail it reports both diagnostics and exits non-zero.  The proof
//! functions at the end state the policy's guarantees.

use crate::diag::Diagnostic;
use crate::diag::DiagnosticView;
use crate::paths::default_script_path;
use crate::paths::default_script_view;
use crate::paths::specific_script_path;
use crate::paths::specific_script_view;
use crate::window::outcome_view;
use vstd::prelude::*;

verus! {

/// One planned resolution attempt: launch this script, or fail with this
/// diagnostic.
#[derive(Debug, PartialEq, Eq)]
pub enum Attempt {
    Launch { script: String },
    Fail { diag: Diagnostic },
}

/// The mathematical shape of an [`Attempt`].
pub enum AttemptView {
    Launch { script: Seq<char> },
    Fail { diag: DiagnosticView },
}

impl View for Attempt {
    type V = AttemptView;

    open spec fn view(&self) -> AttemptView {
        match self {
            Attempt::Launch { script } => AttemptView::Launch { script: script@ },
            Attempt::Fail { diag } => AttemptView::Fail { diag: diag@ },
        }
    }
}

/// The application-specific attempt.  A window-identity failure is carried
/// over unchanged; a missing directory is diagnosed by the executable's name,
/// a missing file by the candidate script's full path; otherwise the candidate
/// script is launched.
pub open spec fn specific_plan_view(
    program_dir: Seq<char>,
    id: Seq<char>,
    window: Result<Seq<char>, DiagnosticView>,
    dir_exists: bool,
    file_exists: bool,
) -> AttemptView {
    match window {
        Result::Err(d) => AttemptView::Fail { diag: d },
        Result::Ok(exe) => if !dir_exists {
            AttemptView::Fail { diag: DiagnosticView::NoMacroDirectory { exe } }
        } else if !file_exists {
            AttemptView::Fail {
                diag: DiagnosticView::NoScript { path: specific_script_view(program_dir, exe, id) },
            }
        } else {
            AttemptView::Launch { script: specific_script_view(program_dir, exe, id) }
        },
    }
}

/// The default attempt: launch the fallback script when it exists, else fail
/// naming its path.  It depends on no window identity.
pub open spec fn default_plan_view(
    program_dir: Seq<char>,
    id: Seq<char>,
    file_exists: bool,
) -> AttemptView {
    if file_exists {
        AttemptView::Launch { script: default_script_view(program_dir, id) }
    } else {
        AttemptView::Fail {
            diag: DiagnosticView::NoDefaultScript { path: default_script_view(program_dir, id) },
        }
    }
}

/// Both attempts of one invocation, the application-specific one first.
pub open spec fn resolution_view(
    program_dir: Seq<char>,
    id: Seq<char>,
    window: Result<Seq<char>, DiagnosticView>,
    dir_exists: bool,
    file_exists: bool,
    default_exists: bool,
) -> (AttemptView, AttemptView) {
    (
        specific_plan_view(program_dir, id, window, dir_exists, file_exists),
        default_plan_view(program_dir, id, default_exists),
    )
}

/// Plan the application-specific attempt.  `dir_exists` and `file_exists`
/// report whether the candidate directory and script were observed on disk;
/// they are ignored when `window` failed.
pub fn specific_attempt(
    program_dir: &str,
    id: &str,
    window: Result<String, Diagnostic>,
    dir_exists: bool,
    file_exists: bool,
) -> (r: Attempt)
    ensures
        r@ == specific_plan_view(program_dir@, id@, outcome_view(window), dir_exists, file_exists),
{
    match window {
        Err(d) => Attempt::Fail { diag: d },
        Ok(exe) => {
            if !dir_exists {
                Attempt::Fail { diag: Diagnostic::NoMacroDirectory { exe } }
            } else if !file_exists {
                let path = specific_script_path(program_dir, exe.as_str(), id);
                Attempt::Fail { diag: Diagnostic::NoScript { path } }
            } else {
                let script = specific_script_path(program_dir, exe.as_str(), id);
                Attempt::Launch { script }
            }
        },
    }
}

/// Plan the default attempt.  `file_exists` reports whether the fallback
/// script was observed on disk.
pub fn default_attempt(program_dir: &str, id: &str, file_exists: bool) -> (r: Attempt)
    ensures
        r@ == default_plan_view(program_dir@, id@, file_exists),
{
    let path = default_script_path(program_dir, id);
    if file_exists {
        Attempt::Launch { script: path }
    } else {
        Attempt::Fail { diag: Diagnostic::NoDefaultScript { path } }
    }
}

/// Plan both attempts of one invocation from the observed state.
pub fn plan_attempts(
    program_dir: &str,
    id: &str,
    window: Result<String, Diagnostic>,
    dir_exists: bool,
    file_exists: bool,
    default_exists: bool,
) -> (r: (Attempt, Attempt))
    ensures
        (r.0@, r.1@) == resolution_view(
            program_dir@,
            id@,
            outcome_view(window),
            dir_exists,
            file_exists,
            default_exists,
        ),
{
    let first = specific_attempt(program_dir, id, window, dir_exists, file_exists);
    let second = default_attempt(program_dir, id, default_exists);
    (first, second)
}

/// A known executable identity whose script exists is launched: when the
/// window resolves to `exe` and both the `by-exe` directory and the script
/// file are present, the first attempt launches exactly the
/// application-specific candidate.
pub proof fn lemma_specific_script_launched(
    program_dir: Seq<char>,
    id: Seq<char>,
    exe: Seq<char>,
    default_exists: bool,
)
    ensures
        resolution_view(program_dir, id, Result::Ok(exe), true, true, default_exists).0
            == (AttemptView::Launch { script: specific_script_view(program_dir, exe, id) }),
{
}

/// The default attempt is planned from the identifier and the fallback
/// script's presence alone: any two invocations with the same identifier plan
/// the same default attempt, whatever their window outcomes or specific
/// observations — including when window identity resolution itself failed.
/// When the fallback script exists, that attempt launches it.
pub proof fn lemma_default_fallback(
    program_dir: Seq<char>,
    id: Seq<char>,
    window1: Result<Seq<char>, DiagnosticView>,
    window2: Result<Seq<char>, DiagnosticView>,
    dir_exists1: bool,
    file_exists1: bool,
    dir_exists2: bool,
    file_exists2: bool,
    default_exists: bool,
)
    ensures
        resolution_view(program_dir, id, window1, dir_exists1, file_exists1, default_exists).1
            == resolution_view(program_dir, id, window2, dir_exists2, file_exists2, default_exists).1,
        default_exists ==> resolution_view(
            program_dir,
            id,
            window1,
            dir_exists1,
            file_exists1,
            default_exists,
        ).1 == (AttemptView::Launch { script: default_script_view(program_dir, id) }),
{
}

/// Total failure reports both candidates: with the window resolved but no
/// candidate script present on either path, both attempts fail, the first
/// diagnostic names the missing application-specific candidate (the script
/// path when its directory exists, the executable's name when it does not)
/// and the second names the missing default script's path.
pub proof fn lemma_total_failure(
    program_dir: Seq<char>,
    id: Seq<char>,
    exe: Seq<char>,
    dir_exists: bool,
)
    ensures
        ({
            let r = resolution_view(program_dir, id, Result::Ok(exe), dir_exists, false, false);
            &&& r.0 is Fail
            &&& r.1 is Fail
            &&& dir_exists ==> r.0 == (AttemptView::Fail {
                diag: DiagnosticView::NoScript { path: specific_script_view(program_dir, exe, id) },
            })
            &&& !dir_exists ==> r.0 == (AttemptView::Fail {
                diag: DiagnosticView::NoMacroDirectory { exe },
            })
            &&& r.1 == (AttemptView::Fail {
                diag: DiagnosticView::NoDefaultScript {
                    path: default_script_view(program_dir, id),
                },
            })
        }),
{
}

/// A window-identity failure skips application-specific resolution: the first
/// attempt fails with exactly the carried-over diagnostic, and the default
/// attempt is planned exactly as if the window had resolved.
pub proof fn lemma_window_failure_skips_specific(
    program_dir: Seq<char>,
    id: Seq<char>,
    d: DiagnosticView,
    dir_exists: bool,
    file_exists: bool,
    default_exists: bool,
)
    ensures
        resolution_view(program_dir, id, Result::Err(d), dir_exists, file_exists, default_exists).0
            == (AttemptView::Fail { diag: d }),
        resolution_view(program_dir, id, Result::Err(d), dir_exists, file_exists, default_exists).1
            == default_plan_view(program_dir, id, default_exists),
{
}

/// When the application directory exists but lacks the script file, the
/// diagnostic names the missing file's path, not the directory.
pub proof fn lemma_missing_file_named(
    program_dir: Seq<char>,
    id: Seq<char>,
    exe: Seq<char>,
    default_exists: bool,
)
    ensures
        resolution_view(program_dir, id, Result::Ok(exe), true, false, default_exists).0
            == (AttemptView::Fail {
            diag: DiagnosticView::NoScript { path: specific_script_view(program_dir, exe, id) },
        }),
{
}

/// Resolution is a function of the observed state alone: two invocations that
/// observe the same program location, identifier, window outcome and
/// filesystem state plan the same two attempts.  No state survives an
/// invocation to make a repetition differ.
pub proof fn lemma_resolution_deterministic(
    program_dir1: Seq<char>,
    id1: Seq<char>,
    window1: Result<Seq<char>, DiagnosticView>,
    dir_exists1: bool,
    file_exists1: bool,
    default_exists1: bool,
    program_dir2: Seq<char>,
    id2: Seq<char>,
    window2: Result<Seq<char>, DiagnosticView>,
    dir_exists2: bool,
    file_exists2: bool,
    default_exists2: bool,
)
    requires
        program_dir1 == program_dir2,
        id1 == id2,
        window1 == window2,
        dir_exists1 == dir_exists2,
        file_exists1 == file_exists2,
        default_exists1 == default_exists2,
    ensures
        resolution_view(program_dir1, id1, window1, dir_exists1, file_exists1, default_exists1)
            == resolution_view(
            program_dir2,
            id2,
            window2,
            dir_exists2,
            file_exists2,
            default_exists2,
        ),
{
}

} // verus!
