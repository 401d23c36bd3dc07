//! Running an AI script: natively on ROCm first, then through ZLUDA if the
//! native run crashed.
use vstd::prelude::*;
use crate::shell::string_views;
use crate::text::{append_str, chars_of, decimal, push_decimal, string_of};

verus! {

/// The name of the log file of the shell process `pid`.
pub open spec fn log_file_name_of(pid: u32) -> Seq<char> {
    "ghost_ai_"@ + decimal(pid as nat) + ".log"@
}

/// Names the log file that a script's output goes to.
pub fn log_file_name(pid: u32) -> (r: String)
    ensures
        r@ == log_file_name_of(pid),
{
    let mut v = chars_of("ghost_ai_");
    push_decimal(&mut v, pid as u64);
    append_str(&mut v, ".log");
    string_of(&v)
}

/// How a crashed script is run again.
#[derive(Clone, Copy, Debug, PartialEq, Eq, Structural)]
pub enum Failover {
    /// Run it under the ZLUDA launcher.
    Launcher,
    /// Run Python again with the ZLUDA DLL directory in front of `PATH`.
    DllPath,
    /// ZLUDA is not installed: give up.
    Unavailable,
}

/// The way to rerun a crashed script: the launcher if it was found, the
/// DLLs otherwise, nothing if neither was found.
pub open spec fn failover_of(launcher_found: bool, dll_found: bool) -> Failover {
    if launcher_found {
        Failover::Launcher
    } else if dll_found {
        Failover::DllPath
    } else {
        Failover::Unavailable
    }
}

/// A crashed script is rerun under the launcher whenever the launcher was
/// found, through the DLLs only when the launcher is missing, and the
/// failover is given up exactly when neither was found.
pub proof fn lemma_failover_preference(launcher_found: bool, dll_found: bool)
    ensures
        launcher_found ==> failover_of(launcher_found, dll_found) == Failover::Launcher,
        !launcher_found && dll_found ==> failover_of(launcher_found, dll_found) == Failover::DllPath,
        failover_of(launcher_found, dll_found) == Failover::Unavailable <==> !launcher_found
            && !dll_found,
{
}

/// Decides how a crashed script is run again.
pub fn choose_failover(launcher_found: bool, dll_found: bool) -> (r: Failover)
    ensures
        r == failover_of(launcher_found, dll_found),
{
    if launcher_found {
        Failover::Launcher
    } else if dll_found {
        Failover::DllPath
    } else {
        Failover::Unavailable
    }
}

fn copy_strings(into: &mut Vec<String>, from: &Vec<String>)
    ensures
        string_views(final(into)@) == string_views(old(into)@) + string_views(from@),
{
    let mut i: usize = 0;
    while i < from.len()
        invariant
            i <= from.len(),
            string_views(into@) == string_views(old(into)@) + string_views(from@.take(i as int)),
        decreases from.len() - i,
    {
        let s = string_of(&chars_of(from[i].as_str()));
        let ghost prev = into@;
        into.push(s);
        proof {
            assert(string_views(into@) =~= string_views(prev).push(from@[i as int]@));
            assert(string_views(from@.take(i + 1)) =~= string_views(from@.take(i as int)).push(
                from@[i as int]@,
            ));
        }
        i = i + 1;
    }
    assert(from@.take(from.len() as int) == from@);
}

/// The arguments of the ZLUDA launcher: `-- python <script> <args...>`.
pub fn launcher_arguments(script: &str, args: &Vec<String>) -> (r: Vec<String>)
    ensures
        string_views(r@) == seq!["--"@, "python"@, script@] + string_views(args@),
{
    let mut r: Vec<String> = Vec::new();
    r.push(string_of(&chars_of("--")));
    r.push(string_of(&chars_of("python")));
    r.push(string_of(&chars_of(script)));
    assert(string_views(r@) =~= seq!["--"@, "python"@, script@]);
    copy_strings(&mut r, args);
    r
}

/// The arguments of Python: `<script> <args...>`.
pub fn python_arguments(script: &str, args: &Vec<String>) -> (r: Vec<String>)
    ensures
        string_views(r@) == seq![script@] + string_views(args@),
{
    let mut r: Vec<String> = Vec::new();
    r.push(string_of(&chars_of(script)));
    assert(string_views(r@) =~= seq![script@]);
    copy_strings(&mut r, args);
    r
}

} // verus!
