//! The command dispatcher: resolves one line of input to a controller operation
//! and renders what the operation reports.
use vstd::prelude::*;
use vstd::string::*;

use crate::process::{opt_view, report, resumed, stop_report, waited, Pid, Process, ProcessError};

verus! {

/// A command that the dispatcher knows.
#[derive(Debug, Clone, Copy, PartialEq, Eq, Structural)]
pub enum Command {
    /// Resume the process and report where it next stops.
    Continue,
}

/// The characters that `char::is_whitespace` accepts (Unicode `White_Space`).
pub open spec fn is_space(c: char) -> bool {
    let u = c as u32;
    ||| 0x09 <= u <= 0x0d
    ||| u == 0x20
    ||| u == 0x85
    ||| u == 0xa0
    ||| u == 0x1680
    ||| 0x2000 <= u <= 0x200a
    ||| u == 0x2028
    ||| u == 0x2029
    ||| u == 0x202f
    ||| u == 0x205f
    ||| u == 0x3000
}

/// Whether `c` is whitespace.
pub fn is_space_char(c: char) -> (r: bool)
    ensures
        r == is_space(c),
{
    let u = c as u32;
    (0x09 <= u && u <= 0x0d) || u == 0x20 || u == 0x85 || u == 0xa0 || u == 0x1680 || (0x2000
        <= u && u <= 0x200a) || u == 0x2028 || u == 0x2029 || u == 0x202f || u == 0x205f || u
        == 0x3000
}

/// The text with its leading whitespace removed.
pub open spec fn skip_space(s: Seq<char>) -> Seq<char>
    decreases s.len(),
{
    if s.len() > 0 && is_space(s[0]) {
        skip_space(s.drop_first())
    } else {
        s
    }
}

/// The characters up to the first whitespace.
pub open spec fn take_word(s: Seq<char>) -> Seq<char>
    decreases s.len(),
{
    if s.len() == 0 || is_space(s[0]) {
        Seq::empty()
    } else {
        seq![s[0]] + take_word(s.drop_first())
    }
}

/// The command word of a line: its first whitespace-separated token, empty
/// when the line holds none.
pub open spec fn command_word(line: Seq<char>) -> Seq<char> {
    take_word(skip_space(line))
}

/// The name of the `continue` command.
pub open spec fn continue_name() -> Seq<char> {
    seq!['c', 'o', 'n', 't', 'i', 'n', 'u', 'e']
}

/// A command name matches a word that is a non-empty prefix of it.
pub open spec fn abbreviates(word: Seq<char>, name: Seq<char>) -> bool {
    0 < word.len() <= name.len() && word == name.subrange(0, word.len() as int)
}

/// The command that a line resolves to.
pub open spec fn resolved(line: Seq<char>) -> Option<Command> {
    if abbreviates(command_word(line), continue_name()) {
        Some(Command::Continue)
    } else {
        None
    }
}

/// Finds the command word of `line`, as the char positions where it starts and ends.
fn word_bounds(line: &str) -> (r: (usize, usize))
    ensures
        r.0 <= r.1 <= line@.len(),
        line@.subrange(r.0 as int, r.1 as int) == command_word(line@),
{
    let n = line.unicode_len();
    let mut i: usize = 0;
    assert(line@.subrange(0, n as int) =~= line@);
    while i < n && is_space_char(line.get_char(i))
        invariant
            n == line@.len(),
            i <= n,
            skip_space(line@) == skip_space(line@.subrange(i as int, n as int)),
        decreases n - i,
    {
        assert(line@.subrange(i as int, n as int).drop_first() =~= line@.subrange(
            i + 1,
            n as int,
        ));
        i = i + 1;
    }
    assert(skip_space(line@.subrange(i as int, n as int)) == line@.subrange(i as int, n as int));
    let start = i;
    let mut j: usize = start;
    while j < n && !is_space_char(line.get_char(j))
        invariant
            n == line@.len(),
            start <= j <= n,
            take_word(line@.subrange(start as int, n as int)) == line@.subrange(
                start as int,
                j as int,
            ) + take_word(line@.subrange(j as int, n as int)),
        decreases n - j,
    {
        let ghost rest = line@.subrange(j as int, n as int);
        assert(rest.drop_first() =~= line@.subrange(j + 1, n as int));
        assert(line@.subrange(start as int, j as int) + seq![rest[0]] =~= line@.subrange(
            start as int,
            j + 1,
        ));
        assert(line@.subrange(start as int, j as int) + (seq![rest[0]] + take_word(
            rest.drop_first(),
        )) =~= line@.subrange(start as int, j + 1) + take_word(line@.subrange(j + 1, n as int)));
        j = j + 1;
    }
    assert(line@.subrange(start as int, j as int) + Seq::<char>::empty() =~= line@.subrange(
        start as int,
        j as int,
    ));
    (start, j)
}

/// Resolves a line of input to a command: the first whitespace-separated word
/// selects `continue` when it is a non-empty prefix of that name. An empty or
/// blank line, or any other word, resolves to nothing.
pub fn resolve(line: &str) -> (r: Option<Command>)
    ensures
        r == resolved(line@),
{
    let (start, end) = word_bounds(line);
    let name: &str = "continue";
    proof {
        reveal_strlit("continue");
        assert(name@ =~= continue_name());
    }
    let len = end - start;
    if len == 0 || len > 8 {
        return None;
    }
    let ghost word = line@.subrange(start as int, end as int);
    let mut k: usize = 0;
    while k < len
        invariant
            start + len == end <= line@.len(),
            len <= 8,
            name@ == continue_name(),
            word == line@.subrange(start as int, end as int),
            word == command_word(line@),
            k <= len,
            forall|m: int| 0 <= m < k ==> word[m] == continue_name()[m],
        decreases len - k,
    {
        if line.get_char(start + k) != name.get_char(k) {
            assert(word[k as int] != continue_name().subrange(0, len as int)[k as int]);
            return None;
        }
        k = k + 1;
    }
    assert(word =~= continue_name().subrange(0, len as int));
    Some(Command::Continue)
}

/// Why a line of input did not run.
#[derive(Debug, Clone, Copy, PartialEq, Eq, Structural)]
pub enum CommandError {
    /// The command word matches no known command.
    Unknown,
    /// The controller operation failed.
    Process(ProcessError),
}

impl CommandError {
    /// A one-line message for the user.
    pub fn message(&self) -> (r: &'static str)
        ensures
            r@ == command_error_message(*self),
    {
        match self {
            CommandError::Unknown => "Unknown command",
            CommandError::Process(e) => e.message(),
        }
    }
}

/// The message of each command error.
pub open spec fn command_error_message(e: CommandError) -> Seq<char> {
    match e {
        CommandError::Unknown => "Unknown command"@,
        CommandError::Process(p) => crate::process::error_message(p),
    }
}

/// Runs one line of input against the process. An unknown command changes
/// nothing. `continue` resumes the process, waits for its next state change and
/// returns the line to print (none for the running state); a failed resume or
/// wait is returned as the error.
pub fn handle_command(process: &mut Process, line: &str) -> (r: Result<Option<String>, CommandError>)
    ensures
        resolved(line@) is None <==> r == Err::<Option<String>, CommandError>(CommandError::Unknown),
        resolved(line@) is None ==> final(process)@ == old(process)@,
        r matches Ok(out) ==> exists|mid, reason|
            resumed(old(process)@, mid) && waited(mid, final(process)@, reason) && opt_view(out)
                == report(Pid(old(process)@.pid), reason),
        r matches Err(CommandError::Process(e)) ==> (e == ProcessError::Resume && final(process)@
            == old(process)@) || (crate::process::is_wait_error(e) && resumed(
            old(process)@,
            final(process)@,
        )),
{
    match resolve(line) {
        Some(Command::Continue) => {},
        None => return Err(CommandError::Unknown),
    }
    if let Err(e) = process.resume() {
        return Err(CommandError::Process(e));
    }
    let ghost mid = process@;
    match process.wait_on_signal() {
        Ok(reason) => {
            let out = stop_report(process.pid(), &reason);
            Ok(out)
        },
        Err(e) => Err(CommandError::Process(e)),
    }
}

} // verus!
