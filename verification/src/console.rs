use vstd::prelude::*;
use crate::text::{has_prefix, has_substring, occurs_at, str_chars, chars_start_with, chars_contain};

verus! {

/// Number of scripted commands the console cycles through.
pub const COMMAND_COUNT: usize = 5;

/// The console keeps at most this many lines, dropping the oldest first.
pub const MAX_CONSOLE_LINES: usize = 100;

/// The `c`-th scripted command line.
pub open spec fn command_text(c: int) -> Seq<char> {
    if c == 0 {
        "ping -c 3 trance-labs.com"@
    } else if c == 1 {
        "cargo build --release"@
    } else if c == 2 {
        "netstat -an | findstr :8080"@
    } else if c == 3 {
        "git status"@
    } else {
        "cat /etc/passwd | grep trance"@
    }
}

/// How many lines of output the `c`-th command prints.
pub open spec fn output_count(c: int) -> int {
    if c == 0 {
        7
    } else if c == 1 {
        4
    } else if c == 2 {
        3
    } else if c == 3 {
        7
    } else {
        1
    }
}

/// Line `k` of the output of the `c`-th command.
pub open spec fn output_line(c: int, k: int) -> Seq<char> {
    if c == 0 {
        if k == 0 {
            "PING trance-labs.com (104.21.32.222): 56 data bytes"@
        } else if k == 1 {
            "64 bytes from 104.21.32.222: icmp_seq=0 ttl=56 time=12.4 ms"@
        } else if k == 2 {
            "64 bytes from 104.21.32.222: icmp_seq=1 ttl=56 time=14.1 ms"@
        } else if k == 3 {
            "64 bytes from 104.21.32.222: icmp_seq=2 ttl=56 time=11.8 ms"@
        } else if k == 4 {
            "--- trance-labs.com ping statistics ---"@
        } else if k == 5 {
            "3 packets transmitted, 3 received, 0% packet loss"@
        } else {
            "rtt min/avg/max = 11.8/12.7/14.1 ms"@
        }
    } else if c == 1 {
        if k == 0 {
            "   Compiling once_cell v1.19.0"@
        } else if k == 1 {
            "   Compiling windows-sys v0.59.0"@
        } else if k == 2 {
            "   Compiling trance_screensaver v0.1.0"@
        } else {
            "    Finished `release` profile [optimized] target(s) in 3.42s"@
        }
    } else if c == 2 {
        if k == 0 {
            "  TCP    0.0.0.0:8080           0.0.0.0:0              LISTENING"@
        } else if k == 1 {
            "  TCP    127.0.0.1:8080         127.0.0.1:54932        ESTABLISHED"@
        } else {
            "  TCP    127.0.0.1:54932        127.0.0.1:8080         ESTABLISHED"@
        }
    } else if c == 3 {
        if k == 0 {
            "On branch main"@
        } else if k == 1 {
            "Your branch is up to date with 'origin/main'."@
        } else if k == 2 {
            "Changes not staged for commit:"@
        } else if k == 3 {
            "  (use \"git add <file>...\" to update what will be committed)"@
        } else if k == 4 {
            "\tmodified:   src/animation.rs"@
        } else if k == 5 {
            "\tmodified:   src/renderer.rs"@
        } else {
            "no changes added to commit (use \"git add\" and/or \"git commit -a\")"@
        }
    } else {
        "trance:x:1001:1001:Windows Admin,,,:/home/trance:/bin/bash"@
    }
}

/// The `idx`-th scripted command line.
pub fn command_line(idx: usize) -> (r: &'static str)
    requires
        idx < COMMAND_COUNT,
    ensures
        r@ == command_text(idx as int),
{
    match idx {
        0 => "ping -c 3 trance-labs.com",
        1 => "cargo build --release",
        2 => "netstat -an | findstr :8080",
        3 => "git status",
        _ => "cat /etc/passwd | grep trance",
    }
}

/// How many lines of output the `idx`-th command prints.
pub fn command_output_count(idx: usize) -> (r: usize)
    requires
        idx < COMMAND_COUNT,
    ensures
        r == output_count(idx as int),
{
    match idx {
        0 => 7,
        1 => 4,
        2 => 3,
        3 => 7,
        _ => 1,
    }
}

/// Line `k` of the output of the `idx`-th command.
pub fn command_output_line(idx: usize, k: usize) -> (r: &'static str)
    requires
        idx < COMMAND_COUNT,
        k < output_count(idx as int),
    ensures
        r@ == output_line(idx as int, k as int),
{
    match idx {
        0 => match k {
            0 => "PING trance-labs.com (104.21.32.222): 56 data bytes",
            1 => "64 bytes from 104.21.32.222: icmp_seq=0 ttl=56 time=12.4 ms",
            2 => "64 bytes from 104.21.32.222: icmp_seq=1 ttl=56 time=14.1 ms",
            3 => "64 bytes from 104.21.32.222: icmp_seq=2 ttl=56 time=11.8 ms",
            4 => "--- trance-labs.com ping statistics ---",
            5 => "3 packets transmitted, 3 received, 0% packet loss",
            _ => "rtt min/avg/max = 11.8/12.7/14.1 ms",
        },
        1 => match k {
            0 => "   Compiling once_cell v1.19.0",
            1 => "   Compiling windows-sys v0.59.0",
            2 => "   Compiling trance_screensaver v0.1.0",
            _ => "    Finished `release` profile [optimized] target(s) in 3.42s",
        },
        2 => match k {
            0 => "  TCP    0.0.0.0:8080           0.0.0.0:0              LISTENING",
            1 => "  TCP    127.0.0.1:8080         127.0.0.1:54932        ESTABLISHED",
            _ => "  TCP    127.0.0.1:54932        127.0.0.1:8080         ESTABLISHED",
        },
        3 => match k {
            0 => "On branch main",
            1 => "Your branch is up to date with 'origin/main'.",
            2 => "Changes not staged for commit:",
            3 => "  (use \"git add <file>...\" to update what will be committed)",
            4 => "\tmodified:   src/animation.rs",
            5 => "\tmodified:   src/renderer.rs",
            _ => "no changes added to commit (use \"git add\" and/or \"git commit -a\")",
        },
        _ => "trance:x:1001:1001:Windows Admin,,,:/home/trance:/bin/bash",
    }
}

/// The scripted command lines have these lengths; none is empty.
pub proof fn lemma_command_lengths()
    ensures
        command_text(0).len() == 25,
        command_text(1).len() == 21,
        command_text(2).len() == 27,
        command_text(3).len() == 10,
        command_text(4).len() == 29,
        forall|c: int| 0 <= c < COMMAND_COUNT ==> #[trigger] command_text(c).len() > 0,
{
    reveal_strlit("ping -c 3 trance-labs.com");
    reveal_strlit("cargo build --release");
    reveal_strlit("netstat -an | findstr :8080");
    reveal_strlit("git status");
    reveal_strlit("cat /etc/passwd | grep trance");
}

/// Each command prints its own scripted output: the ping reports its three echo
/// replies and statistics, the build compiles three crates and finishes, netstat
/// lists the three connections on port 8080, git status describes the working tree,
/// and the password lookup prints the matching account.
pub proof fn lemma_command_outputs()
    ensures
        command_text(0) == "ping -c 3 trance-labs.com"@,
        output_count(0) == 7,
        output_line(0, 0) == "PING trance-labs.com (104.21.32.222): 56 data bytes"@,
        output_line(0, 1) == "64 bytes from 104.21.32.222: icmp_seq=0 ttl=56 time=12.4 ms"@,
        output_line(0, 2) == "64 bytes from 104.21.32.222: icmp_seq=1 ttl=56 time=14.1 ms"@,
        output_line(0, 3) == "64 bytes from 104.21.32.222: icmp_seq=2 ttl=56 time=11.8 ms"@,
        output_line(0, 4) == "--- trance-labs.com ping statistics ---"@,
        output_line(0, 5) == "3 packets transmitted, 3 received, 0% packet loss"@,
        output_line(0, 6) == "rtt min/avg/max = 11.8/12.7/14.1 ms"@,
        command_text(1) == "cargo build --release"@,
        output_count(1) == 4,
        output_line(1, 0) == "   Compiling once_cell v1.19.0"@,
        output_line(1, 1) == "   Compiling windows-sys v0.59.0"@,
        output_line(1, 2) == "   Compiling trance_screensaver v0.1.0"@,
        output_line(1, 3) == "    Finished `release` profile [optimized] target(s) in 3.42s"@,
        command_text(2) == "netstat -an | findstr :8080"@,
        output_count(2) == 3,
        output_line(2, 0) == "  TCP    0.0.0.0:8080           0.0.0.0:0              LISTENING"@,
        output_line(2, 1) == "  TCP    127.0.0.1:8080         127.0.0.1:54932        ESTABLISHED"@,
        output_line(2, 2) == "  TCP    127.0.0.1:54932        127.0.0.1:8080         ESTABLISHED"@,
        command_text(3) == "git status"@,
        output_count(3) == 7,
        output_line(3, 0) == "On branch main"@,
        output_line(3, 1) == "Your branch is up to date with 'origin/main'."@,
        output_line(3, 2) == "Changes not staged for commit:"@,
        output_line(3, 3) == "  (use \"git add <file>...\" to update what will be committed)"@,
        output_line(3, 4) == "\tmodified:   src/animation.rs"@,
        output_line(3, 5) == "\tmodified:   src/renderer.rs"@,
        output_line(3, 6) == "no changes added to commit (use \"git add\" and/or \"git commit -a\")"@,
        command_text(4) == "cat /etc/passwd | grep trance"@,
        output_count(4) == 1,
        output_line(4, 0) == "trance:x:1001:1001:Windows Admin,,,:/home/trance:/bin/bash"@,
{
}

/// Phase of the scripted console.
#[derive(Clone, Copy, PartialEq, Eq, Debug, Structural)]
pub enum CommandState {
    /// The current command is being typed after the prompt, one character per tick.
    Typing,
    /// The current command's output is being printed, one line per tick.
    Executing,
    /// Pause before the next prompt.
    CoolDown,
}

/// Abstract console: its lines, the current command, how much of it has been
/// typed, and the phase.
pub struct ConsoleView {
    pub lines: Seq<Seq<char>>,
    pub command: int,
    pub typed: int,
    pub state: CommandState,
}

/// What every console state satisfies: a valid command, no more typed than the
/// command holds (strictly less while typing), and at most the line limit.
pub open spec fn console_wf(v: ConsoleView) -> bool {
    &&& 0 <= v.command < COMMAND_COUNT
    &&& 0 <= v.typed <= command_text(v.command).len()
    &&& v.state == CommandState::Typing ==> v.typed < command_text(v.command).len()
    &&& v.lines.len() <= MAX_CONSOLE_LINES
}

/// The prompt-detection prefix: the user name followed by `@`.
pub open spec fn prompt_prefix(username: Seq<char>) -> Seq<char> {
    username + seq!['@']
}

/// The marker that a prompt line carries.
pub open spec fn prompt_marker() -> Seq<char> {
    seq!['$', ' ']
}

/// A line is taken as a shell prompt of `username` when it begins with the user
/// name and `@` and contains `"$ "`.
pub open spec fn is_prompt_line(line: Seq<char>, username: Seq<char>) -> bool {
    has_prefix(line, prompt_prefix(username)) && has_substring(line, prompt_marker())
}

/// How many lines follow the most recent prompt line (all of them if there is none).
pub open spec fn lines_since_prompt(lines: Seq<Seq<char>>, username: Seq<char>) -> int
    decreases lines.len(),
{
    if lines.len() == 0 {
        0
    } else if is_prompt_line(lines.last(), username) {
        0
    } else {
        1 + lines_since_prompt(lines.drop_last(), username)
    }
}

/// The prompt line written before each command: `user@host:~$ `.
pub open spec fn prompt_line(username: Seq<char>, host: Seq<char>) -> Seq<char> {
    username + seq!['@'] + host + seq![':', '~', '$', ' ']
}

/// Appends `line`, dropping the oldest line if that exceeds the limit.
pub open spec fn append_line(lines: Seq<Seq<char>>, line: Seq<char>) -> Seq<Seq<char>> {
    let pushed = lines.push(line);
    if pushed.len() > MAX_CONSOLE_LINES { pushed.drop_first() } else { pushed }
}

/// What one tick of the console does once the current phase's delay has run out.
/// Typing types one more character and starts executing once the whole command is
/// typed. Executing prints the next output line of the command, counted from the
/// last prompt, or, once all of them are out, cools down. Cooling down moves to
/// the next command (cyclically), writes a fresh prompt for `host` and starts typing.
pub open spec fn console_step(v: ConsoleView, username: Seq<char>, host: Seq<char>) -> ConsoleView {
    match v.state {
        CommandState::Typing => {
            let t = v.typed + 1;
            ConsoleView {
                typed: t,
                state: if t >= command_text(v.command).len() { CommandState::Executing } else { CommandState::Typing },
                ..v
            }
        },
        CommandState::Executing => {
            if v.lines.len() == 0 {
                v
            } else {
                let printed = lines_since_prompt(v.lines, username);
                if printed < output_count(v.command) {
                    ConsoleView { lines: append_line(v.lines, output_line(v.command, printed)), ..v }
                } else {
                    ConsoleView { state: CommandState::CoolDown, ..v }
                }
            }
        },
        CommandState::CoolDown => ConsoleView {
            lines: append_line(v.lines, prompt_line(username, host)),
            command: (v.command + 1) % (COMMAND_COUNT as int),
            typed: 0,
            state: CommandState::Typing,
        },
    }
}

/// Lower-case form of a text, as Rust's `str::to_lowercase` computes it.
pub uninterp spec fn lowercase(s: Seq<char>) -> Seq<char>;

/// Calls `str::to_lowercase`; the result is named `lowercase` of the input, which it
/// depends on alone (the mapping is Unicode's, independent of locale).
#[verifier::external_body]
pub(crate) fn to_lowercase(s: &str) -> (r: String)
    ensures
        r@ == lowercase(s@),
{
    s.to_lowercase()
}

/// Never more lines since the last prompt than there are lines.
pub proof fn lemma_lines_since_prompt_bounded(lines: Seq<Seq<char>>, username: Seq<char>)
    ensures
        0 <= lines_since_prompt(lines, username) <= lines.len(),
    decreases lines.len(),
{
    if lines.len() > 0 {
        lemma_lines_since_prompt_bounded(lines.drop_last(), username);
    }
}

/// Dropping the oldest line does not change the count when a prompt lies after it.
proof fn lemma_lines_since_prompt_drop_first(lines: Seq<Seq<char>>, username: Seq<char>)
    requires
        lines_since_prompt(lines, username) < lines.len() - 1,
    ensures
        lines_since_prompt(lines.drop_first(), username) == lines_since_prompt(lines, username),
    decreases lines.len(),
{
    lemma_lines_since_prompt_bounded(lines, username);
    let d = lines.drop_first();
    assert(d.last() == lines.last());
    if !is_prompt_line(lines.last(), username) {
        assert(d.drop_last() =~= lines.drop_last().drop_first());
        lemma_lines_since_prompt_drop_first(lines.drop_last(), username);
    }
}

/// The prompt the console writes is one it recognizes as a prompt: it begins with
/// the user name and `@`, and it ends in `"$ "`.
pub proof fn lemma_prompt_is_recognized(username: Seq<char>, host: Seq<char>)
    ensures
        is_prompt_line(prompt_line(username, host), username),
{
    let p = prompt_line(username, host);
    assert(p.subrange(0, prompt_prefix(username).len() as int) =~= prompt_prefix(username));
    assert(p.subrange(p.len() - 2, p.len() as int) =~= prompt_marker());
    assert(occurs_at(p, prompt_marker(), p.len() - 2));
}

/// After a cool-down tick the newest line is the fresh prompt, so the next command's
/// output is counted from zero; the command index moves on cyclically.
pub proof fn lemma_cool_down_starts_next_command(v: ConsoleView, username: Seq<char>, host: Seq<char>)
    requires
        console_wf(v),
        v.state == CommandState::CoolDown,
    ensures
        console_step(v, username, host).lines.last() == prompt_line(username, host),
        lines_since_prompt(console_step(v, username, host).lines, username) == 0,
        console_step(v, username, host).command == (v.command + 1) % (COMMAND_COUNT as int),
        console_step(v, username, host).typed == 0,
        console_step(v, username, host).state == CommandState::Typing,
{
    lemma_prompt_is_recognized(username, host);
}

/// While executing, each tick prints the next line of the command's output: the
/// newest line becomes output line `k`, where `k` lines had been printed since the
/// prompt, and the count goes up by one (provided that output line does not itself
/// look like a prompt of this user).
pub proof fn lemma_execution_prints_next_line(v: ConsoleView, username: Seq<char>, host: Seq<char>)
    requires
        console_wf(v),
        v.state == CommandState::Executing,
        v.lines.len() > 0,
        lines_since_prompt(v.lines, username) < output_count(v.command),
        !is_prompt_line(output_line(v.command, lines_since_prompt(v.lines, username)), username),
    ensures
        console_step(v, username, host).lines.last() == output_line(v.command, lines_since_prompt(v.lines, username)),
        lines_since_prompt(console_step(v, username, host).lines, username)
            == lines_since_prompt(v.lines, username) + 1,
        console_step(v, username, host).state == CommandState::Executing,
{
    let k = lines_since_prompt(v.lines, username);
    let line = output_line(v.command, k);
    let pushed = v.lines.push(line);
    assert(pushed.drop_last() =~= v.lines);
    assert(lines_since_prompt(pushed, username) == k + 1);
    if pushed.len() > MAX_CONSOLE_LINES {
        lemma_lines_since_prompt_drop_first(pushed, username);
    }
}

/// Once every output line since the prompt is out, the next tick stops executing
/// and cools down, leaving the lines as they are.
pub proof fn lemma_execution_finishes(v: ConsoleView, username: Seq<char>, host: Seq<char>)
    requires
        console_wf(v),
        v.state == CommandState::Executing,
        v.lines.len() > 0,
        lines_since_prompt(v.lines, username) >= output_count(v.command),
    ensures
        console_step(v, username, host).state == CommandState::CoolDown,
        console_step(v, username, host).lines == v.lines,
{
}

/// The console after `n` ticks.
pub open spec fn console_steps(v: ConsoleView, username: Seq<char>, host: Seq<char>, n: nat) -> ConsoleView
    decreases n,
{
    if n == 0 {
        v
    } else {
        console_step(console_steps(v, username, host, (n - 1) as nat), username, host)
    }
}

/// Typing a command takes one tick per remaining character: from any typing state,
/// after as many ticks as characters are left, the whole command has been typed and
/// its execution begins, with the lines and the command unchanged.
pub proof fn lemma_typing_completes(v: ConsoleView, username: Seq<char>, host: Seq<char>)
    requires
        console_wf(v),
        v.state == CommandState::Typing,
    ensures
        ({
            let done = console_steps(v, username, host, (command_text(v.command).len() - v.typed) as nat);
            &&& done.state == CommandState::Executing
            &&& done.typed == command_text(v.command).len()
            &&& done.lines == v.lines
            &&& done.command == v.command
        }),
    decreases command_text(v.command).len() - v.typed,
{
    let len = command_text(v.command).len() as int;
    let next = console_step(v, username, host);
    if v.typed + 1 < len {
        lemma_typing_completes(next, username, host);
        lemma_steps_shift(v, username, host, (len - v.typed - 1) as nat);
    } else {
        assert(console_steps(v, username, host, 1) == next) by {
            assert(console_steps(v, username, host, 0) == v);
        }
    }
}

/// Every tick keeps the console well formed.
pub proof fn lemma_step_keeps_wf(v: ConsoleView, username: Seq<char>, host: Seq<char>)
    requires
        console_wf(v),
    ensures
        console_wf(console_step(v, username, host)),
{
    lemma_command_lengths();
}

/// Once a command is typed, executing it prints its output lines one per tick, in
/// order, and the tick after the last one cools down: from an executing state with
/// `k` lines printed since the prompt, after `n - k` ticks (`n` the command's output
/// count) all `n` are out, and one more tick cools down. This holds when no output
/// line of the command looks like a prompt of the user.
pub proof fn lemma_execution_completes(v: ConsoleView, username: Seq<char>, host: Seq<char>)
    requires
        console_wf(v),
        v.state == CommandState::Executing,
        v.lines.len() > 0,
        lines_since_prompt(v.lines, username) <= output_count(v.command),
        forall|j: int| 0 <= j < output_count(v.command) ==> !is_prompt_line(#[trigger] output_line(v.command, j), username),
    ensures
        ({
            let done = console_steps(v, username, host, (output_count(v.command) - lines_since_prompt(v.lines, username)) as nat);
            &&& done.state == CommandState::Executing
            &&& done.command == v.command
            &&& lines_since_prompt(done.lines, username) == output_count(v.command)
            &&& console_wf(done)
            &&& console_step(done, username, host).state == CommandState::CoolDown
        }),
    decreases output_count(v.command) - lines_since_prompt(v.lines, username),
{
    let k = lines_since_prompt(v.lines, username);
    let n = output_count(v.command);
    if k < n {
        let next = console_step(v, username, host);
        lemma_lines_since_prompt_bounded(v.lines, username);
        assert(!is_prompt_line(output_line(v.command, k), username));
        lemma_execution_prints_next_line(v, username, host);
        lemma_step_keeps_wf(v, username, host);
        assert(next.lines.len() > 0);
        lemma_execution_completes(next, username, host);
        lemma_steps_shift(v, username, host, (n - k - 1) as nat);
    } else {
        assert(console_steps(v, username, host, 0) == v);
    }
}

/// Running `n + 1` ticks is one tick followed by `n` more.
pub proof fn lemma_steps_shift(v: ConsoleView, username: Seq<char>, host: Seq<char>, n: nat)
    ensures
        console_steps(v, username, host, n + 1) == console_steps(console_step(v, username, host), username, host, n),
    decreases n,
{
    let first = console_step(v, username, host);
    if n > 0 {
        lemma_steps_shift(v, username, host, (n - 1) as nat);
        assert(console_steps(v, username, host, n + 1) == console_step(console_steps(v, username, host, n), username, host));
        assert(console_steps(first, username, host, n) == console_step(console_steps(first, username, host, (n - 1) as nat), username, host));
    } else {
        assert(console_steps(v, username, host, 0) == v);
        assert(console_steps(first, username, host, 0) == first);
        assert(console_steps(v, username, host, 1) == console_step(console_steps(v, username, host, 0), username, host));
    }
}

/// The scripted command console shown on the dashboard.
pub struct ConsoleState {
    lines: Vec<String>,
    command_idx: usize,
    typed_len: usize,
    state: CommandState,
}

impl View for ConsoleState {
    type V = ConsoleView;

    closed spec fn view(&self) -> ConsoleView {
        ConsoleView {
            lines: self.lines@.map_values(|l: String| l@),
            command: self.command_idx as int,
            typed: self.typed_len as int,
            state: self.state,
        }
    }
}

/// Whether `line` is a prompt line for the prompt prefix `prefix` and marker `marker`.
fn line_is_prompt(line: &String, prefix: &Vec<char>, marker: &Vec<char>) -> (r: bool)
    ensures
        r == (has_prefix(line@, prefix@) && has_substring(line@, marker@)),
{
    let chars = str_chars(line.as_str());
    chars_start_with(&chars, prefix) && chars_contain(&chars, marker)
}

/// Counting lines back from the end up to a prompt at position `i - 1` (or the
/// start) gives the number of lines since the prompt.
proof fn lemma_count_back(lines: Seq<Seq<char>>, username: Seq<char>, i: int)
    requires
        0 <= i <= lines.len(),
        forall|j: int| i <= j < lines.len() ==> !is_prompt_line(#[trigger] lines[j], username),
        i == 0 || is_prompt_line(lines[i - 1], username),
    ensures
        lines_since_prompt(lines, username) == lines.len() - i,
    decreases lines.len(),
{
    if lines.len() > i {
        assert(!is_prompt_line(lines[lines.len() - 1], username));
        let shorter = lines.drop_last();
        assert forall|j: int| i <= j < shorter.len() implies !is_prompt_line(#[trigger] shorter[j], username) by {
            assert(shorter[j] == lines[j]);
        }
        if i > 0 {
            assert(shorter[i - 1] == lines[i - 1]);
        }
        lemma_count_back(shorter, username, i);
    }
}

impl ConsoleState {
    #[verifier::type_invariant]
    spec fn well_formed(self) -> bool {
        console_wf(self@)
    }

    /// The console at start-up: one greeting line, cooling down before the first command.
    pub fn new() -> (r: Self)
        ensures
            r@.lines == seq!["Initializing console system..."@],
            r@.command == 0,
            r@.typed == 0,
            r@.state == CommandState::CoolDown,
            console_wf(r@),
    {
        let mut lines: Vec<String> = Vec::new();
        lines.push(String::from_str("Initializing console system..."));
        let r = ConsoleState { lines, command_idx: 0, typed_len: 0, state: CommandState::CoolDown };
        assert(r@.lines =~= seq!["Initializing console system..."@]);
        r
    }

    /// Number of lines after the most recent prompt line of `username`.
    fn printed_since_prompt(&self, username: &str) -> (r: usize)
        ensures
            r == lines_since_prompt(self@.lines, username@),
    {
        let mut prefix = str_chars(username);
        prefix.push('@');
        let mut marker: Vec<char> = Vec::new();
        marker.push('$');
        marker.push(' ');
        proof {
            assert(prefix@ =~= prompt_prefix(username@));
            assert(marker@ =~= prompt_marker());
        }
        let ghost lines = self@.lines;
        let mut i = self.lines.len();
        let mut count: usize = 0;
        while i > 0
            invariant
                lines == self@.lines,
                lines.len() == self.lines.len(),
                prefix@ == prompt_prefix(username@),
                marker@ == prompt_marker(),
                i <= lines.len(),
                count == lines.len() - i,
                forall|j: int| i <= j < lines.len() ==> !is_prompt_line(#[trigger] lines[j], username@),
            decreases i,
        {
            if line_is_prompt(&self.lines[i - 1], &prefix, &marker) {
                proof {
                    lemma_count_back(lines, username@, i as int);
                }
                return count;
            }
            i -= 1;
            count += 1;
        }
        proof {
            lemma_count_back(lines, username@, 0);
        }
        count
    }

    /// Runs one console tick whose phase delay has run out, for the given user and host.
    pub fn advance(&mut self, username: &str, hostname: &str)
        ensures
            final(self)@ == console_step(old(self)@, username@, lowercase(hostname@)),
            console_wf(final(self)@),
    {
        proof {
            use_type_invariant(&*self);
            lemma_command_lengths();
        }
        match self.state {
            CommandState::Typing => {
                let len = command_line(self.command_idx).unicode_len();
                let typed = self.typed_len + 1;
                if typed >= len {
                    self.state = CommandState::Executing;
                }
                self.typed_len = typed;
            },
            CommandState::Executing => {
                if self.lines.len() > 0 {
                    let printed = self.printed_since_prompt(username);
                    if printed < command_output_count(self.command_idx) {
                        let next = String::from_str(command_output_line(self.command_idx, printed));
                        self.push_line(next);
                    } else {
                        self.state = CommandState::CoolDown;
                    }
                }
            },
            CommandState::CoolDown => {
                self.typed_len = 0;
                self.command_idx = (self.command_idx + 1) % COMMAND_COUNT;
                self.state = CommandState::Typing;
                let host = to_lowercase(hostname);
                let mut prompt = String::new();
                prompt.append(username);
                prompt.append("@");
                prompt.append(host.as_str());
                prompt.append(":~$ ");
                proof {
                    reveal_strlit("@");
                    reveal_strlit(":~$ ");
                    assert(prompt@ =~= prompt_line(username@, lowercase(hostname@)));
                }
                self.push_line(prompt);
            },
        }
    }

    /// Number of lines held.
    pub fn line_count(&self) -> (r: usize)
        ensures
            r == self@.lines.len(),
            console_wf(self@),
    {
        proof {
            use_type_invariant(self);
        }
        self.lines.len()
    }

    /// Line `i`, oldest first.
    pub fn line(&self, i: usize) -> (r: &String)
        requires
            i < self@.lines.len(),
        ensures
            r@ == self@.lines[i as int],
    {
        &self.lines[i]
    }

    /// Index of the current command.
    pub fn command_index(&self) -> (r: usize)
        ensures
            r == self@.command,
            console_wf(self@),
    {
        proof {
            use_type_invariant(self);
        }
        self.command_idx
    }

    /// How many characters of the current command have been typed.
    pub fn typed_len(&self) -> (r: usize)
        ensures
            r == self@.typed,
            console_wf(self@),
    {
        proof {
            use_type_invariant(self);
        }
        self.typed_len
    }

    /// The current phase.
    pub fn state(&self) -> (r: CommandState)
        ensures
            r == self@.state,
            console_wf(self@),
    {
        proof {
            use_type_invariant(self);
        }
        self.state
    }

    /// Appends a line, dropping the oldest one when the limit is exceeded.
    fn push_line(&mut self, line: String)
        ensures
            final(self)@ == (ConsoleView { lines: append_line(old(self)@.lines, line@), ..old(self)@ }),
    {
        proof {
            use_type_invariant(&*self);
        }
        let mut lines: Vec<String> = Vec::new();
        std::mem::swap(&mut lines, &mut self.lines);
        let ghost before = lines@.map_values(|l: String| l@);
        lines.push(line);
        if lines.len() > MAX_CONSOLE_LINES {
            lines.remove(0);
        }
        proof {
            assert(lines@.map_values(|l: String| l@) =~= append_line(before, line@));
        }
        self.lines = lines;
    }
}

} // verus!
