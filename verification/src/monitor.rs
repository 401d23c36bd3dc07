//! Watching an AI script start up: when it counts as ready, when it counts
//! as crashed, what the waiting-room dashboard shows and what its hotkeys do.
use vstd::prelude::*;
use regex::Regex;
use crate::text::{
    append_str, chars_of, contains_str, decimal, ends_with_chars, has_substr, has_suffix, lemma_substr_in_middle, lines,
    lines_of, lowercased, owned, padded, push_decimal, push_padded, string_of, to_lowercase,
};

verus! {

// ---------------------------------------------------------------------
// Readiness
// ---------------------------------------------------------------------

/// How many bytes at the end of the log are searched for a server banner.
pub const LOG_TAIL_BYTES: u64 = 8192;

/// Where reading of a log of `len` bytes starts: its last 8 KiB.
pub fn log_tail_start(len: u64) -> (r: u64)
    ensures
        r == if len > LOG_TAIL_BYTES { len - LOG_TAIL_BYTES } else { 0 },
{
    if len > LOG_TAIL_BYTES {
        len - LOG_TAIL_BYTES
    } else {
        0
    }
}

/// A lower-case log text that announces a running web server.
pub open spec fn announces_server(t: Seq<char>) -> bool {
    ||| has_substr(t, "running on local url"@)
    ||| has_substr(t, "uvicorn running on"@)
    ||| has_substr(t, "starting web server"@)
    ||| has_substr(t, "http://127.0.0.1"@)
    ||| has_substr(t, "http://0.0.0.0"@)
    ||| has_substr(t, "http://localhost"@)
}

/// Whether a log text that is already in lower case announces a server.
pub fn lowered_log_announces_server(lower: &str) -> (r: bool)
    ensures
        r == announces_server(lower@),
{
    let v = chars_of(lower);
    contains_str(&v, "running on local url") || contains_str(&v, "uvicorn running on")
        || contains_str(&v, "starting web server") || contains_str(&v, "http://127.0.0.1")
        || contains_str(&v, "http://0.0.0.0") || contains_str(&v, "http://localhost")
}

/// Whether a log text announces a server, ignoring case.
pub fn log_announces_server(content: &str) -> (r: bool)
    ensures
        r == announces_server(lowercased(content@)),
{
    let lower = to_lowercase(content);
    lowered_log_announces_server(lower.as_str())
}

/// Each of the six server banners announces a server wherever it stands
/// in the lower-case log text, and a text with none of them announces
/// nothing.
pub proof fn lemma_server_banners(t: Seq<char>, before: Seq<char>, after: Seq<char>)
    ensures
        has_substr(t, "running on local url"@) ==> announces_server(t),
        has_substr(t, "uvicorn running on"@) ==> announces_server(t),
        has_substr(t, "starting web server"@) ==> announces_server(t),
        has_substr(t, "http://127.0.0.1"@) ==> announces_server(t),
        has_substr(t, "http://0.0.0.0"@) ==> announces_server(t),
        has_substr(t, "http://localhost"@) ==> announces_server(t),
        !has_substr(t, "running on local url"@) && !has_substr(t, "uvicorn running on"@)
            && !has_substr(t, "starting web server"@) && !has_substr(t, "http://127.0.0.1"@)
            && !has_substr(t, "http://0.0.0.0"@) && !has_substr(t, "http://localhost"@)
            ==> !announces_server(t),
        announces_server(before + "running on local url"@ + after),
        announces_server(before + "uvicorn running on"@ + after),
        announces_server(before + "starting web server"@ + after),
        announces_server(before + "http://127.0.0.1"@ + after),
        announces_server(before + "http://0.0.0.0"@ + after),
        announces_server(before + "http://localhost"@ + after),
{
    lemma_substr_in_middle(before, "running on local url"@, after);
    lemma_substr_in_middle(before, "uvicorn running on"@, after);
    lemma_substr_in_middle(before, "starting web server"@, after);
    lemma_substr_in_middle(before, "http://127.0.0.1"@, after);
    lemma_substr_in_middle(before, "http://0.0.0.0"@, after);
    lemma_substr_in_middle(before, "http://localhost"@, after);
}

/// A line of `netstat -ano` that shows process `pid` listening.
pub open spec fn shows_listener(line: Seq<char>, pid: u32) -> bool {
    has_substr(line, "LISTENING"@) && has_suffix(line, " "@ + decimal(pid as nat))
}

/// Whether some line of the socket table shows process `pid` listening.
pub fn socket_table_shows_listener(output: &str, pid: u32) -> (r: bool)
    ensures
        r == exists|k: int| 0 <= k < lines(output@).len() && shows_listener(#[trigger] lines(output@)[k], pid),
{
    let v = chars_of(output);
    let ls = lines_of(&v);
    let mut suffix = chars_of(" ");
    push_decimal(&mut suffix, pid as u64);
    let mut i: usize = 0;
    while i < ls.len()
        invariant
            i <= ls.len(),
            ls@.len() == lines(output@).len(),
            forall|k: int| 0 <= k < ls@.len() ==> #[trigger] ls@[k]@ == lines(output@)[k],
            suffix@ == " "@ + decimal(pid as nat),
            forall|k: int| 0 <= k < i ==> !shows_listener(#[trigger] lines(output@)[k], pid),
        decreases ls.len() - i,
    {
        let line = &ls[i];
        if contains_str(line, "LISTENING") && ends_with_chars(line, &suffix) {
            assert(shows_listener(lines(output@)[i as int], pid));
            return true;
        }
        i = i + 1;
    }
    false
}

// ---------------------------------------------------------------------
// The waiting room
// ---------------------------------------------------------------------

/// How long a script may take to come up before it is given up on: ten
/// minutes, in nanoseconds.
pub const BOOT_TIMEOUT_NANOS: u128 = 600_000_000_000;

/// What the waiting room has just observed.
#[derive(Clone, Copy, Debug, PartialEq, Eq, Structural)]
pub enum WaitEvent {
    /// Time since the script was started.
    Clock { elapsed_nanos: u128 },
    /// The script has ended, successfully or not.
    Exited { success: bool },
    /// The script is still running.
    Running,
    /// The result of the readiness check.
    ReadyCheck { ready: bool },
    /// A key was pressed.
    Key { key: char },
    /// No key was pressed within the polling interval.
    NoKey,
}

/// What the waiting room does next.
#[derive(Clone, Copy, Debug, PartialEq, Eq, Structural)]
pub enum WaitAction {
    /// Kill the script and leave, reporting a crash.
    GiveUp,
    /// Leave the waiting room; `crashed` tells whether to fail over.
    Leave { crashed: bool },
    /// Ask whether the script is still running.
    CheckScript,
    /// Check the log and sockets for a running server.
    CheckReady,
    /// Draw the dashboard and poll the keyboard.
    Redraw,
    /// Start DOOM.
    LaunchDoom,
    /// Start or stop the music.
    ToggleMusic,
    /// Go on with the next round.
    NextRound,
}

/// The waiting room's decision on each observation.
pub open spec fn wait_action_of(e: WaitEvent) -> WaitAction {
    match e {
        WaitEvent::Clock { elapsed_nanos } => if elapsed_nanos > BOOT_TIMEOUT_NANOS {
            WaitAction::GiveUp
        } else {
            WaitAction::CheckScript
        },
        WaitEvent::Exited { success } => WaitAction::Leave { crashed: !success },
        WaitEvent::Running => WaitAction::CheckReady,
        WaitEvent::ReadyCheck { ready } => if ready {
            WaitAction::Leave { crashed: false }
        } else {
            WaitAction::Redraw
        },
        WaitEvent::Key { key } => if key == 'd' || key == 'D' {
            WaitAction::LaunchDoom
        } else if key == 'm' || key == 'M' {
            WaitAction::ToggleMusic
        } else {
            WaitAction::NextRound
        },
        WaitEvent::NoKey => WaitAction::NextRound,
    }
}

/// Decides what the waiting room does on an observation.
pub fn wait_step(e: WaitEvent) -> (r: WaitAction)
    ensures
        r == wait_action_of(e),
{
    match e {
        WaitEvent::Clock { elapsed_nanos } => if elapsed_nanos > BOOT_TIMEOUT_NANOS {
            WaitAction::GiveUp
        } else {
            WaitAction::CheckScript
        },
        WaitEvent::Exited { success } => WaitAction::Leave { crashed: !success },
        WaitEvent::Running => WaitAction::CheckReady,
        WaitEvent::ReadyCheck { ready } => if ready {
            WaitAction::Leave { crashed: false }
        } else {
            WaitAction::Redraw
        },
        WaitEvent::Key { key } => if key == 'd' || key == 'D' {
            WaitAction::LaunchDoom
        } else if key == 'm' || key == 'M' {
            WaitAction::ToggleMusic
        } else {
            WaitAction::NextRound
        },
        WaitEvent::NoKey => WaitAction::NextRound,
    }
}

/// A script counts as crashed exactly when it ran out of time or ended
/// unsuccessfully; a server that comes up is never a crash.
pub proof fn lemma_crash_verdicts(e: WaitEvent)
    ensures
        wait_action_of(e) == WaitAction::GiveUp <==> (e matches WaitEvent::Clock { elapsed_nanos }
            && elapsed_nanos > BOOT_TIMEOUT_NANOS),
        wait_action_of(e) == (WaitAction::Leave { crashed: true }) <==> e == (WaitEvent::Exited {
            success: false,
        }),
        e matches WaitEvent::ReadyCheck { ready } ==> wait_action_of(e) != (WaitAction::Leave {
            crashed: true,
        }),
{
}

/// The waiting room's rules: after ten minutes the script is given up on,
/// before that its state is asked for; a running script is checked for a
/// server, and a server that is up ends the wait without a crash, while no
/// server yet redraws the dashboard; `d` starts DOOM and `m` the music, in
/// either case, and any other key or none goes on waiting.
pub proof fn lemma_waiting_room_rules(elapsed_nanos: u128, key: char)
    ensures
        elapsed_nanos > 600_000_000_000 ==> wait_action_of(WaitEvent::Clock { elapsed_nanos })
            == WaitAction::GiveUp,
        elapsed_nanos <= 600_000_000_000 ==> wait_action_of(WaitEvent::Clock { elapsed_nanos })
            == WaitAction::CheckScript,
        wait_action_of(WaitEvent::Exited { success: true }) == (WaitAction::Leave { crashed: false }),
        wait_action_of(WaitEvent::Exited { success: false }) == (WaitAction::Leave { crashed: true }),
        wait_action_of(WaitEvent::Running) == WaitAction::CheckReady,
        wait_action_of(WaitEvent::ReadyCheck { ready: true }) == (WaitAction::Leave {
            crashed: false,
        }),
        wait_action_of(WaitEvent::ReadyCheck { ready: false }) == WaitAction::Redraw,
        key == 'd' || key == 'D' ==> wait_action_of(WaitEvent::Key { key }) == WaitAction::LaunchDoom,
        key == 'm' || key == 'M' ==> wait_action_of(WaitEvent::Key { key })
            == WaitAction::ToggleMusic,
        key != 'd' && key != 'D' && key != 'm' && key != 'M' ==> wait_action_of(
            WaitEvent::Key { key },
        ) == WaitAction::NextRound,
        wait_action_of(WaitEvent::NoKey) == WaitAction::NextRound,
{
}

// ---------------------------------------------------------------------
// The dashboard
// ---------------------------------------------------------------------

/// The dashboard line that names the presented GPU.
pub open spec fn gpu_line_of(spoof: Seq<char>) -> Seq<char> {
    "|  [ GPU: "@ + padded(spoof, 46) + " ]|\r\n"@
}

/// The dashboard line with temperature and memory.
pub open spec fn stats_line_of(temp: Seq<char>, vram: Seq<char>) -> Seq<char> {
    "|  [ TEMP: "@ + padded(temp, 5) + "C ]             [ VRAM: "@ + padded(vram, 16) + " ]|\r\n"@
}

/// The dashboard line that names the backend.
pub open spec fn backend_line_of(backend: Seq<char>) -> Seq<char> {
    "|  [ BACKEND: "@ + padded(backend, 44) + " ]|\r\n"@
}

/// The dashboard line with GPU load and video memory in use.
pub open spec fn usage_line_of(load: Seq<char>, memory: Seq<char>) -> Seq<char> {
    "|  [ LOAD: "@ + padded(load, 5) + "% ]             [ VRAM USE: "@ + padded(memory, 11) + "% ]|\r\n"@
}

/// Renders the load and memory-use line of the dashboard.
pub fn usage_line(load: &str, memory: &str) -> (r: String)
    ensures
        r@ == usage_line_of(load@, memory@),
{
    let mut v = chars_of("|  [ LOAD: ");
    push_padded(&mut v, &chars_of(load), 5);
    append_str(&mut v, "% ]             [ VRAM USE: ");
    push_padded(&mut v, &chars_of(memory), 11);
    append_str(&mut v, "% ]|\r\n");
    string_of(&v)
}

/// Renders the GPU line of the dashboard.
pub fn gpu_line(spoof: &str) -> (r: String)
    ensures
        r@ == gpu_line_of(spoof@),
{
    let mut v = chars_of("|  [ GPU: ");
    push_padded(&mut v, &chars_of(spoof), 46);
    append_str(&mut v, " ]|\r\n");
    string_of(&v)
}

/// Renders the temperature and memory line of the dashboard.
pub fn stats_line(temp: &str, vram: &str) -> (r: String)
    ensures
        r@ == stats_line_of(temp@, vram@),
{
    let mut v = chars_of("|  [ TEMP: ");
    push_padded(&mut v, &chars_of(temp), 5);
    append_str(&mut v, "C ]             [ VRAM: ");
    push_padded(&mut v, &chars_of(vram), 16);
    append_str(&mut v, " ]|\r\n");
    string_of(&v)
}

/// Renders the backend line of the dashboard.
pub fn backend_line(backend: &str) -> (r: String)
    ensures
        r@ == backend_line_of(backend@),
{
    let mut v = chars_of("|  [ BACKEND: ");
    push_padded(&mut v, &chars_of(backend), 44);
    append_str(&mut v, " ]|\r\n");
    string_of(&v)
}

// ---------------------------------------------------------------------
// Readings of rocm-smi
// ---------------------------------------------------------------------

/// The capture groups (group 0 first) of the leftmost match of the regular
/// expression `pattern` in `haystack`, as the `regex` crate finds them;
/// `None` when the pattern is not a valid expression or does not match.
pub uninterp spec fn regex_groups(pattern: Seq<char>, haystack: Seq<char>) -> Option<
    Seq<Option<Seq<char>>>,
>;

/// The texts of a list of capture groups.
pub open spec fn groups_view(g: Option<Vec<Option<String>>>) -> Option<Seq<Option<Seq<char>>>> {
    match g {
        Some(v) => Some(
            v@.map_values(
                |x: Option<String>|
                    match x {
                        Some(t) => Some(t@),
                        None => None,
                    },
            ),
        ),
        None => None,
    }
}

/// `Regex::new` followed by `Regex::captures`: the texts of the capture
/// groups of the leftmost match of `pattern` in `haystack`.
#[verifier::external_body]
fn capture_groups(pattern: &str, haystack: &str) -> (r: Option<Vec<Option<String>>>)
    ensures
        groups_view(r) == regex_groups(pattern@, haystack@),
{
    let caps = match Regex::new(pattern) {
        Ok(re) => re.captures(haystack),
        Err(_) => return None,
    };
    let mut groups = Vec::new();
    for g in caps?.iter() {
        groups.push(match g {
            Some(m) => Some(m.as_str().to_string()),
            None => None,
        });
    }
    Some(groups)
}

/// Group `i` of a match, if the match has that group and it took part.
pub open spec fn group_at(g: Seq<Option<Seq<char>>>, i: int) -> Option<Seq<char>> {
    if 0 <= i < g.len() {
        g[i]
    } else {
        None
    }
}

fn group_text(groups: &Vec<Option<String>>, i: usize) -> (r: Option<&str>)
    ensures
        (match r {
            Some(t) => Some(t@),
            None => None,
        }) == group_at(
            groups@.map_values(
                |x: Option<String>|
                    match x {
                        Some(t) => Some(t@),
                        None => None,
                    },
            ),
            i as int,
        ),
{
    if i < groups.len() {
        match &groups[i] {
            Some(t) => Some(t.as_str()),
            None => None,
        }
    } else {
        None
    }
}

/// The temperature in the lower-cased output of `rocm-smi --showtemp`: a
/// decimal or whole number followed by `c`.
pub const TEMPERATURE_PATTERN: &'static str = r"(\d+\.\d+)c|(\d+)c";

/// The GPU load in the lower-cased output of `rocm-smi --showuse`.
pub const LOAD_PATTERN: &'static str = r"gpu use \(%\)\s*:\s*(\d+)";

/// The share of video memory in use in the lower-cased output of
/// `rocm-smi --showmemuse`.
pub const MEMORY_USE_PATTERN: &'static str = r"(?:vram%\)|memory use \(%\))\s*:\s*(\d+)";

/// The temperature text from the two groups of a match: the decimal form
/// if present, else the whole number, else `N/A`.
pub open spec fn temperature_text(decimal_group: Option<Seq<char>>, whole_group: Option<Seq<char>>) -> Seq<char> {
    match decimal_group {
        Some(d) => d,
        None => match whole_group {
            Some(w) => w,
            None => "N/A"@,
        },
    }
}

/// The temperature text from the two groups of a match.
pub fn temperature_from_groups(decimal_group: Option<&str>, whole_group: Option<&str>) -> (r: String)
    ensures
        r@ == temperature_text(
            match decimal_group {
                Some(d) => Some(d@),
                None => None,
            },
            match whole_group {
                Some(w) => Some(w@),
                None => None,
            },
        ),
{
    match decimal_group {
        Some(d) => owned(d),
        None => match whole_group {
            Some(w) => owned(w),
            None => owned("N/A"),
        },
    }
}

/// The temperature a `rocm-smi --showtemp` output reports: `None` when the
/// pattern finds nothing in the output (the shown value is then left as it
/// was).
pub open spec fn temperature_reading(smi_output: Seq<char>) -> Option<Seq<char>> {
    match regex_groups(TEMPERATURE_PATTERN@, lowercased(smi_output)) {
        Some(g) => Some(temperature_text(group_at(g, 1), group_at(g, 2))),
        None => None,
    }
}

/// Reads the temperature from the output of `rocm-smi --showtemp`.
pub fn read_temperature(smi_output: &str) -> (r: Option<String>)
    ensures
        (match r {
            Some(t) => Some(t@),
            None => None,
        }) == temperature_reading(smi_output@),
{
    let lower = to_lowercase(smi_output);
    match capture_groups(TEMPERATURE_PATTERN, lower.as_str()) {
        Some(groups) => Some(temperature_from_groups(group_text(&groups, 1), group_text(&groups, 2))),
        None => None,
    }
}

/// The percentage that `pattern` finds in the lower-cased `output`: its
/// first group; `None` when the pattern finds nothing.
pub open spec fn percentage_reading(pattern: Seq<char>, output: Seq<char>) -> Option<Seq<char>> {
    match regex_groups(pattern, lowercased(output)) {
        Some(g) => group_at(g, 1),
        None => None,
    }
}

fn read_percentage(pattern: &str, output: &str) -> (r: Option<String>)
    ensures
        (match r {
            Some(t) => Some(t@),
            None => None,
        }) == percentage_reading(pattern@, output@),
{
    let lower = to_lowercase(output);
    match capture_groups(pattern, lower.as_str()) {
        Some(groups) => match group_text(&groups, 1) {
            Some(t) => Some(owned(t)),
            None => None,
        },
        None => None,
    }
}

/// Reads the GPU load (percent) from the output of `rocm-smi --showuse`.
pub fn read_gpu_load(smi_output: &str) -> (r: Option<String>)
    ensures
        (match r {
            Some(t) => Some(t@),
            None => None,
        }) == percentage_reading(LOAD_PATTERN@, smi_output@),
{
    read_percentage(LOAD_PATTERN, smi_output)
}

/// Reads the share of video memory in use (percent) from the output of
/// `rocm-smi --showmemuse`.
pub fn read_memory_use(smi_output: &str) -> (r: Option<String>)
    ensures
        (match r {
            Some(t) => Some(t@),
            None => None,
        }) == percentage_reading(MEMORY_USE_PATTERN@, smi_output@),
{
    read_percentage(MEMORY_USE_PATTERN, smi_output)
}

} // verus!
