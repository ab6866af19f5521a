//! Candidate script paths.
//!
//! Both candidates live next to the running program: the application-specific
//! script under `by-exe/<executable>/<id>.sh` and the fallback under
//! `default/<id>.sh`.  The executable owning the focused window is found
//! through the live `/proc/<pid>/exe` link.  Every path is a pure function of
//! its parts; nothing here touches the filesystem.

use vstd::prelude::*;

verus! {

/// The application-specific script directory for `exe`.
pub open spec fn specific_dir_view(program_dir: Seq<char>, exe: Seq<char>) -> Seq<char> {
    program_dir + "/by-exe/"@ + exe
}

/// The application-specific candidate script for `exe` and `id`.
pub open spec fn specific_script_view(
    program_dir: Seq<char>,
    exe: Seq<char>,
    id: Seq<char>,
) -> Seq<char> {
    specific_dir_view(program_dir, exe) + "/"@ + id + ".sh"@
}

/// The fallback candidate script for `id`, independent of any window identity.
pub open spec fn default_script_view(program_dir: Seq<char>, id: Seq<char>) -> Seq<char> {
    program_dir + "/default/"@ + id + ".sh"@
}

/// The process-metadata link whose target is the executable backing `pid`.
pub open spec fn proc_exe_link_view(pid: Seq<char>) -> Seq<char> {
    "/proc/"@ + pid + "/exe"@
}

/// Build the application-specific script directory for `exe`.
pub fn specific_dir_path(program_dir: &str, exe: &str) -> (r: String)
    ensures
        r@ == specific_dir_view(program_dir@, exe@),
{
    let mut s = program_dir.to_owned();
    s.append("/by-exe/");
    s.append(exe);
    s
}

/// Build the application-specific candidate script path for `exe` and `id`.
pub fn specific_script_path(program_dir: &str, exe: &str, id: &str) -> (r: String)
    ensures
        r@ == specific_script_view(program_dir@, exe@, id@),
{
    let mut s = specific_dir_path(program_dir, exe);
    s.append("/");
    s.append(id);
    s.append(".sh");
    s
}

/// Build the fallback candidate script path for `id`.
pub fn default_script_path(program_dir: &str, id: &str) -> (r: String)
    ensures
        r@ == default_script_view(program_dir@, id@),
{
    let mut s = program_dir.to_owned();
    s.append("/default/");
    s.append(id);
    s.append(".sh");
    s
}

/// Build the path of the process-metadata link for `pid`.
pub fn proc_exe_link(pid: &str) -> (r: String)
    ensures
        r@ == proc_exe_link_view(pid@),
{
    let mut s = String::from_str("/proc/");
    s.append(pid);
    s.append("/exe");
    s
}

} // verus!
