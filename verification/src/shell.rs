//! The interactive shell's command language and the cleaner's menu.
use vstd::prelude::*;
use crate::text::{
    chars_are, chars_of, join_from, lemma_trim_idempotent, joined, lemma_trimmed_has_word, string_of, trim,
    trim_chars, words, words_of,
};

verus! {

/// A line typed at the shell prompt, as the shell understands it.
#[derive(Debug)]
pub enum ShellCommand {
    /// Nothing but whitespace.
    Empty,
    /// `exit` or `quit`.
    Exit,
    /// `cd`, with the rest of the words joined by single spaces
    /// (`None` when no directory is given; nothing happens then).
    ChangeDir(Option<String>),
    /// `ls` or `dir`.
    List,
    /// `run [--no-tui] <script> [args]`.
    Run { script: String, args: Vec<String>, use_tui: bool },
    /// `run` without a script: the usage text is shown.
    RunUsage,
    /// `translate <folder> [--aggressive]`.
    Translate { folder: String, aggressive: bool },
    /// `translate` without a folder: the usage text is shown.
    TranslateUsage,
    /// `benchmark`.
    Benchmark,
    /// `doctor`.
    Doctor,
    /// `install-deps`.
    InstallDeps,
    /// `clean`.
    Clean,
    /// An attempt to start the shell inside itself.
    AlreadyInShell,
    /// Any other program: run it with the remaining words as arguments,
    /// falling back to `cmd /C <line>` if it cannot be started.
    External { program: String, args: Vec<String>, line: String },
}

/// The mathematical form of a [`ShellCommand`].
pub enum ShellCommandView {
    Empty,
    Exit,
    ChangeDir(Option<Seq<char>>),
    List,
    Run { script: Seq<char>, args: Seq<Seq<char>>, use_tui: bool },
    RunUsage,
    Translate { folder: Seq<char>, aggressive: bool },
    TranslateUsage,
    Benchmark,
    Doctor,
    InstallDeps,
    Clean,
    AlreadyInShell,
    External { program: Seq<char>, args: Seq<Seq<char>>, line: Seq<char> },
}

/// The texts of a list of strings.
pub open spec fn string_views(v: Seq<String>) -> Seq<Seq<char>> {
    v.map_values(|s: String| s@)
}

impl View for ShellCommand {
    type V = ShellCommandView;

    open spec fn view(&self) -> ShellCommandView {
        match self {
            ShellCommand::Empty => ShellCommandView::Empty,
            ShellCommand::Exit => ShellCommandView::Exit,
            ShellCommand::ChangeDir(d) => ShellCommandView::ChangeDir(
                match d {
                    Some(s) => Some(s@),
                    None => None,
                },
            ),
            ShellCommand::List => ShellCommandView::List,
            ShellCommand::Run { script, args, use_tui } => ShellCommandView::Run {
                script: script@,
                args: string_views(args@),
                use_tui: *use_tui,
            },
            ShellCommand::RunUsage => ShellCommandView::RunUsage,
            ShellCommand::Translate { folder, aggressive } => ShellCommandView::Translate {
                folder: folder@,
                aggressive: *aggressive,
            },
            ShellCommand::TranslateUsage => ShellCommandView::TranslateUsage,
            ShellCommand::Benchmark => ShellCommandView::Benchmark,
            ShellCommand::Doctor => ShellCommandView::Doctor,
            ShellCommand::InstallDeps => ShellCommandView::InstallDeps,
            ShellCommand::Clean => ShellCommandView::Clean,
            ShellCommand::AlreadyInShell => ShellCommandView::AlreadyInShell,
            ShellCommand::External { program, args, line } => ShellCommandView::External {
                program: program@,
                args: string_views(args@),
                line: line@,
            },
        }
    }
}

/// The meaning of `run` followed by the words `parts[1..]`.
pub open spec fn run_command(parts: Seq<Seq<char>>) -> ShellCommandView {
    if parts.len() > 1 {
        let no_tui = parts[1] == "--no-tui"@;
        let idx: int = if no_tui { 2 } else { 1 };
        if parts.len() > idx {
            ShellCommandView::Run { script: parts[idx], args: parts.skip(idx + 1), use_tui: !no_tui }
        } else {
            ShellCommandView::RunUsage
        }
    } else {
        ShellCommandView::RunUsage
    }
}

/// The meaning of a line typed at the prompt: it is trimmed and split into
/// words, and the first word selects the command.
pub open spec fn command_of(input: Seq<char>) -> ShellCommandView {
    let line = trim(input);
    let parts = words(line);
    if line.len() == 0 {
        ShellCommandView::Empty
    } else {
        let c = parts[0];
        if c == "exit"@ || c == "quit"@ {
            ShellCommandView::Exit
        } else if c == "cd"@ {
            if parts.len() > 1 {
                ShellCommandView::ChangeDir(Some(joined(parts.skip(1), " "@)))
            } else {
                ShellCommandView::ChangeDir(None)
            }
        } else if c == "ls"@ || c == "dir"@ {
            ShellCommandView::List
        } else if c == "run"@ {
            run_command(parts)
        } else if c == "translate"@ {
            if parts.len() > 1 {
                ShellCommandView::Translate {
                    folder: parts[1],
                    aggressive: parts.contains("--aggressive"@),
                }
            } else {
                ShellCommandView::TranslateUsage
            }
        } else if c == "benchmark"@ {
            ShellCommandView::Benchmark
        } else if c == "doctor"@ {
            ShellCommandView::Doctor
        } else if c == "install-deps"@ {
            ShellCommandView::InstallDeps
        } else if c == "clean"@ {
            ShellCommandView::Clean
        } else if c == "ghost"@ || c == "ghost.exe"@ || c == "./ghost"@ || c == ".\\ghost.exe"@ {
            ShellCommandView::AlreadyInShell
        } else {
            ShellCommandView::External { program: c, args: parts.skip(1), line }
        }
    }
}

/// Whitespace around a command line does not change its meaning.
pub proof fn lemma_command_ignores_surrounding_space(input: Seq<char>)
    ensures
        command_of(trim(input)) == command_of(input),
{
    lemma_trim_idempotent(input);
}

/// `run --no-tui <script> <args..>` runs the script without the dashboard,
/// with exactly the words after the script as its arguments.
pub proof fn lemma_run_without_dashboard(input: Seq<char>, script: Seq<char>, args: Seq<Seq<char>>)
    requires
        words(trim(input)) == seq!["run"@, "--no-tui"@, script] + args,
    ensures
        command_of(input) == (ShellCommandView::Run { script, args, use_tui: false }),
{
    lemma_run_words(input);
    let parts = words(trim(input));
    assert(parts[0] == "run"@);
    assert(parts[1] == "--no-tui"@);
    assert(parts[2] == script);
    assert(parts.skip(3) =~= args);
}

/// `run <script> <args..>`, where the script is not `--no-tui`, runs the
/// script with the dashboard, with exactly the words after the script as
/// its arguments.
pub proof fn lemma_run_with_dashboard(input: Seq<char>, script: Seq<char>, args: Seq<Seq<char>>)
    requires
        words(trim(input)) == seq!["run"@, script] + args,
        script != "--no-tui"@,
    ensures
        command_of(input) == (ShellCommandView::Run { script, args, use_tui: true }),
{
    lemma_run_words(input);
    let parts = words(trim(input));
    assert(parts[0] == "run"@);
    assert(parts[1] == script);
    assert(parts.skip(2) =~= args);
}

/// A line with no words is empty, whatever whitespace it holds.
pub proof fn lemma_blank_line(input: Seq<char>)
    requires
        words(trim(input)).len() == 0,
    ensures
        command_of(input) == ShellCommandView::Empty,
{
    if trim(input).len() > 0 {
        lemma_trimmed_has_word(input);
    }
}

/// The command table: the first word of a line selects the command, and
/// the words after it are its operands. A first word that names no
/// command of the shell runs that program with the other words as its
/// arguments.
pub proof fn lemma_command_table(input: Seq<char>, first: Seq<char>, rest: Seq<Seq<char>>)
    requires
        words(trim(input)) == seq![first] + rest,
    ensures
        first == "exit"@ || first == "quit"@ ==> command_of(input) == ShellCommandView::Exit,
        first == "cd"@ && rest.len() == 0 ==> command_of(input) == ShellCommandView::ChangeDir(None),
        first == "cd"@ && rest.len() > 0 ==> command_of(input) == ShellCommandView::ChangeDir(
            Some(joined(rest, " "@)),
        ),
        first == "ls"@ || first == "dir"@ ==> command_of(input) == ShellCommandView::List,
        first == "run"@ && (rest.len() == 0 || rest == seq!["--no-tui"@]) ==> command_of(input)
            == ShellCommandView::RunUsage,
        first == "translate"@ && rest.len() == 0 ==> command_of(input)
            == ShellCommandView::TranslateUsage,
        first == "translate"@ && rest.len() > 0 ==> command_of(input) == (ShellCommandView::Translate {
            folder: rest[0],
            aggressive: rest.contains("--aggressive"@),
        }),
        first == "benchmark"@ ==> command_of(input) == ShellCommandView::Benchmark,
        first == "doctor"@ ==> command_of(input) == ShellCommandView::Doctor,
        first == "install-deps"@ ==> command_of(input) == ShellCommandView::InstallDeps,
        first == "clean"@ ==> command_of(input) == ShellCommandView::Clean,
        first == "ghost"@ || first == "ghost.exe"@ || first == "./ghost"@ || first == ".\\ghost.exe"@
            ==> command_of(input) == ShellCommandView::AlreadyInShell,
        first != "exit"@ && first != "quit"@ && first != "cd"@ && first != "ls"@ && first != "dir"@
            && first != "run"@ && first != "translate"@ && first != "benchmark"@ && first
            != "doctor"@ && first != "install-deps"@ && first != "clean"@ && first != "ghost"@
            && first != "ghost.exe"@ && first != "./ghost"@ && first != ".\\ghost.exe"@
            ==> command_of(input) == (ShellCommandView::External {
            program: first,
            args: rest,
            line: trim(input),
        }),
{
    let parts = words(trim(input));
    if trim(input).len() == 0 {
        assert(parts.len() == 0);
    }
    assert(parts[0] == first);
    assert(parts.skip(1) =~= rest);
    reveal_strlit("exit");
    reveal_strlit("quit");
    reveal_strlit("cd");
    reveal_strlit("ls");
    reveal_strlit("dir");
    reveal_strlit("run");
    reveal_strlit("translate");
    reveal_strlit("benchmark");
    reveal_strlit("doctor");
    reveal_strlit("install-deps");
    reveal_strlit("clean");
    reveal_strlit("ghost");
    reveal_strlit("ghost.exe");
    reveal_strlit("./ghost");
    reveal_strlit(".\\ghost.exe");
    reveal_strlit("--aggressive");
    assert("cd"@[0] != "ls"@[0]);
    assert("dir"@[0] != "run"@[0]);
    assert("clean"@[0] != "ghost"@[0]);
    assert("translate"@[0] != "benchmark"@[0]);
    assert("translate"@[0] != "ghost.exe"@[0]);
    assert("benchmark"@[0] != "ghost.exe"@[0]);
    if first == "run"@ && rest.len() > 0 {
        assert(parts[1] == rest[0]);
    }
    if first == "ghost"@ || first == "ghost.exe"@ || first == "./ghost"@ || first == ".\\ghost.exe"@ {
        assert(first != "clean"@ && first != "translate"@ && first != "benchmark"@);
        assert(first.len() != "run"@.len() && first.len() != "exit"@.len() && first.len() != "cd"@.len());
        assert(first.len() != "doctor"@.len() && first.len() != "install-deps"@.len());
    }
    if first == "doctor"@ || first == "install-deps"@ {
        assert(first.len() != "benchmark"@.len() && first.len() != "translate"@.len());
        assert(first.len() != "run"@.len() && first.len() != "exit"@.len() && first.len() != "cd"@.len());
    }
    if first == "translate"@ {
        vstd::seq_lib::lemma_seq_concat_contains_all_elements(seq![first], rest, "--aggressive"@);
        assert(seq![first].contains("--aggressive"@) ==> seq![first][0] == "--aggressive"@);
        assert("translate"@[0] != "--aggressive"@[0]);
        if rest.len() > 0 {
            assert(parts[1] == rest[0]);
        }
    }
}

/// A line whose first word is `run` is not blank, and `run` is none of the
/// words tested before it.
proof fn lemma_run_words(input: Seq<char>)
    requires
        words(trim(input)).len() > 0,
        words(trim(input))[0] == "run"@,
    ensures
        trim(input).len() > 0,
        "run"@ != "exit"@,
        "run"@ != "quit"@,
        "run"@ != "cd"@,
        "run"@ != "ls"@,
        "run"@ != "dir"@,
{
    reveal_strlit("run");
    reveal_strlit("exit");
    reveal_strlit("quit");
    reveal_strlit("cd");
    reveal_strlit("ls");
    reveal_strlit("dir");
    assert("run"@[0] != "dir"@[0]);
    assert("run"@[0] != "quit"@[0]);
}

/// The words `parts[from..]` as strings.
fn strings_from(parts: &Vec<Vec<char>>, from: usize) -> (r: Vec<String>)
    requires
        from <= parts.len(),
    ensures
        string_views(r@) == parts@.skip(from as int).map_values(|w: Vec<char>| w@),
{
    let mut r: Vec<String> = Vec::new();
    let mut i = from;
    while i < parts.len()
        invariant
            from <= i <= parts.len(),
            string_views(r@) == parts@.subrange(from as int, i as int).map_values(
                |w: Vec<char>| w@,
            ),
        decreases parts.len() - i,
    {
        let s = string_of(&parts[i]);
        let ghost prev = r@;
        r.push(s);
        proof {
            assert(string_views(r@) =~= string_views(prev).push(parts@[i as int]@));
            assert(parts@.subrange(from as int, i + 1).map_values(|w: Vec<char>| w@)
                =~= parts@.subrange(from as int, i as int).map_values(|w: Vec<char>| w@).push(
                parts@[i as int]@,
            ));
        }
        i = i + 1;
    }
    assert(parts@.subrange(from as int, parts.len() as int) == parts@.skip(from as int));
    r
}

/// Whether one of the words is `w`.
fn has_word(parts: &Vec<Vec<char>>, w: &str) -> (r: bool)
    ensures
        r == parts@.map_values(|x: Vec<char>| x@).contains(w@),
{
    let ghost views = parts@.map_values(|x: Vec<char>| x@);
    let mut i: usize = 0;
    while i < parts.len()
        invariant
            i <= parts.len(),
            views == parts@.map_values(|x: Vec<char>| x@),
            forall|k: int| 0 <= k < i ==> views[k] != w@,
        decreases parts.len() - i,
    {
        if chars_are(&parts[i], w) {
            assert(views[i as int] == w@);
            return true;
        }
        i = i + 1;
    }
    false
}

/// Reads a line typed at the shell prompt.
pub fn parse_command(input: &str) -> (r: ShellCommand)
    ensures
        r@ == command_of(input@),
{
    let raw = chars_of(input);
    let line = trim_chars(&raw);
    if line.len() == 0 {
        return ShellCommand::Empty;
    }
    let parts = words_of(&line);
    let ghost views = parts@.map_values(|x: Vec<char>| x@);
    proof {
        lemma_trimmed_has_word(input@);
        assert(views =~= words(line@));
    }
    let c = &parts[0];
    assert(c@ == words(line@)[0]);
    if chars_are(c, "exit") || chars_are(c, "quit") {
        ShellCommand::Exit
    } else if chars_are(c, "cd") {
        if parts.len() > 1 {
            let dir = join_from(&parts, 1, " ");
            assert(parts@.skip(1).map_values(|w: Vec<char>| w@) =~= views.skip(1));
            ShellCommand::ChangeDir(Some(string_of(&dir)))
        } else {
            ShellCommand::ChangeDir(None)
        }
    } else if chars_are(c, "ls") || chars_are(c, "dir") {
        ShellCommand::List
    } else if chars_are(c, "run") {
        if parts.len() > 1 {
            let no_tui = chars_are(&parts[1], "--no-tui");
            let idx: usize = if no_tui { 2 } else { 1 };
            if parts.len() > idx {
                let script = string_of(&parts[idx]);
                let args = strings_from(&parts, idx + 1);
                assert(parts@.skip(idx + 1).map_values(|w: Vec<char>| w@) =~= views.skip(idx + 1));
                ShellCommand::Run { script, args, use_tui: !no_tui }
            } else {
                ShellCommand::RunUsage
            }
        } else {
            ShellCommand::RunUsage
        }
    } else if chars_are(c, "translate") {
        if parts.len() > 1 {
            let aggressive = has_word(&parts, "--aggressive");
            ShellCommand::Translate { folder: string_of(&parts[1]), aggressive }
        } else {
            ShellCommand::TranslateUsage
        }
    } else if chars_are(c, "benchmark") {
        ShellCommand::Benchmark
    } else if chars_are(c, "doctor") {
        ShellCommand::Doctor
    } else if chars_are(c, "install-deps") {
        ShellCommand::InstallDeps
    } else if chars_are(c, "clean") {
        ShellCommand::Clean
    } else if chars_are(c, "ghost") || chars_are(c, "ghost.exe") || chars_are(c, "./ghost")
        || chars_are(c, ".\\ghost.exe") {
        ShellCommand::AlreadyInShell
    } else {
        let program = string_of(c);
        let args = strings_from(&parts, 1);
        assert(parts@.skip(1).map_values(|w: Vec<char>| w@) =~= views.skip(1));
        ShellCommand::External { program, args, line: string_of(&line) }
    }
}

// ---------------------------------------------------------------------
// The cleaner's menu
// ---------------------------------------------------------------------

/// What the cleaner removes.
#[derive(Clone, Copy, Debug, PartialEq, Eq, Structural)]
pub enum CleanChoice {
    /// Option 1: the registry keys.
    Registry,
    /// Option 2: the `.ghost` folder.
    Folder,
    /// Option 3: both.
    Everything,
    /// Anything else.
    Cancel,
}

/// The menu entry a typed answer selects (surrounding whitespace ignored).
pub open spec fn clean_choice_of(input: Seq<char>) -> CleanChoice {
    let t = trim(input);
    if t == "1"@ {
        CleanChoice::Registry
    } else if t == "2"@ {
        CleanChoice::Folder
    } else if t == "3"@ {
        CleanChoice::Everything
    } else {
        CleanChoice::Cancel
    }
}

/// Reads the answer to the cleaner's menu.
pub fn parse_clean_choice(input: &str) -> (r: CleanChoice)
    ensures
        r == clean_choice_of(input@),
{
    let raw = chars_of(input);
    let t = trim_chars(&raw);
    if chars_are(&t, "1") {
        CleanChoice::Registry
    } else if chars_are(&t, "2") {
        CleanChoice::Folder
    } else if chars_are(&t, "3") {
        CleanChoice::Everything
    } else {
        CleanChoice::Cancel
    }
}

} // verus!
