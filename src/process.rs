//! The decisions of the process orchestrator. Each function takes what the
//! operating system reported and says what to do next; the caller performs
//! the calls.

use vstd::prelude::*;
use crate::builtin::{builtin_of, get_builtin, Builtin};
use crate::text::{is_space, scan, strings_view, tokens};

verus! {

/// What to do with the argument vector of one input line.
#[derive(Clone, Copy, Debug, PartialEq, Eq, Structural)]
pub enum Dispatch {
    /// The line holds no command: back to the prompt.
    Idle,
    /// Run the builtin in the shell's own process.
    RunBuiltin(Builtin),
    /// Create a child process for an outside program.
    Spawn,
}

/// The dispatch of an argument vector: nothing when it is empty, else the
/// builtin that its first token names, else a child process.
pub open spec fn dispatch_of(argv: Seq<Seq<char>>) -> Dispatch {
    if argv.len() == 0 {
        Dispatch::Idle
    } else {
        match builtin_of(argv[0]) {
            Some(b) => Dispatch::RunBuiltin(b),
            None => Dispatch::Spawn,
        }
    }
}

/// Decides how to run an argument vector: nothing for an empty one, the
/// builtin that its first token names, or else a child process.
pub fn dispatch(argv: &Vec<String>) -> (r: Dispatch)
    ensures
        r == dispatch_of(strings_view(argv@)),
        argv@.len() > 0 && builtin_of(argv@[0]@) is Some ==> r != Dispatch::Spawn,
{
    if argv.len() == 0 {
        Dispatch::Idle
    } else {
        match get_builtin(argv[0].as_str()) {
            Some(b) => Dispatch::RunBuiltin(b),
            None => Dispatch::Spawn,
        }
    }
}

/// The two sides of a process creation, or its failure.
#[derive(Clone, Copy, Debug, PartialEq, Eq, Structural)]
pub enum Fork {
    /// This is the new child.
    Child,
    /// This is the shell; the child has this identifier.
    Parent(i32),
    /// No child could be created.
    Failed,
}

/// Reads the value that process creation returned.
pub fn classify_fork(pid: i32) -> (r: Fork)
    ensures
        pid == 0 ==> r == Fork::Child,
        pid == -1 ==> r == Fork::Failed,
        pid != 0 && pid != -1 ==> r == Fork::Parent(pid),
{
    if pid == 0 {
        Fork::Child
    } else if pid == -1 {
        Fork::Failed
    } else {
        Fork::Parent(pid)
    }
}

/// A wait status that reports a normal exit.
pub open spec fn exited_normally(status: i32) -> bool {
    status & 0x7f == 0
}

/// A wait status that reports termination by a signal: the low seven bits
/// hold a signal number, neither zero (exit) nor 0x7f (stopped).
pub open spec fn killed_by_signal(status: i32) -> bool {
    status & 0x7f != 0 && status & 0x7f != 0x7f
}

/// Relies on libc::WIFEXITED, which on Linux tests that the low seven bits
/// of the status are zero.
#[verifier::external_body]
fn wifexited(status: i32) -> (r: bool)
    ensures
        r == exited_normally(status),
{
    libc::WIFEXITED(status)
}

/// Relies on libc::WIFSIGNALED, which on Linux computes
/// `((status & 0x7f) + 1) as i8 >= 2`: true exactly when the low seven bits
/// are neither 0 nor 0x7f.
#[verifier::external_body]
fn wifsignaled(status: i32) -> (r: bool)
    ensures
        r == killed_by_signal(status),
{
    libc::WIFSIGNALED(status)
}

/// A wait status that ends the wait on a child: it exited or was killed by a
/// signal.
pub open spec fn finished(status: i32) -> bool {
    exited_normally(status) || killed_by_signal(status)
}

/// The number of wait reports that a run reads from `reports`: up to and
/// including the first one that ends the wait.
pub open spec fn waits_taken(reports: Seq<i32>) -> nat
    decreases reports.len(),
{
    if reports.len() == 0 {
        0
    } else if finished(reports[0]) {
        1
    } else {
        1 + waits_taken(reports.drop_first())
    }
}

/// Whether a wait report ends the wait on a child: it exited or was killed
/// by a signal. A stopped child is waited on again.
pub fn child_finished(status: i32) -> (r: bool)
    ensures
        r == finished(status),
{
    wifexited(status) || wifsignaled(status)
}

/// What the child side does once the command has been looked up.
#[derive(Debug)]
pub enum ChildPlan {
    /// Replace the program image with the program at this location.
    Exec(String),
    /// Write this message to standard error and exit with status 1.
    Fail(String),
}

/// The message for a command that the search list does not hold.
pub open spec fn not_found_message(command: Seq<char>) -> Seq<char> {
    seq!['a', 's', 'h', ':', ' '] + command + seq![
        ':',
        ' ',
        'c',
        'o',
        'm',
        'm',
        'a',
        'n',
        'd',
        ' ',
        'n',
        'o',
        't',
        ' ',
        'f',
        'o',
        'u',
        'n',
        'd',
    ]
}

/// The message for a lookup without a search list.
pub open spec fn no_path_message() -> Seq<char> {
    seq!['a', 's', 'h', ':', ' ', 'P', 'A', 'T', 'H', ' ', 'i', 's', ' ', 'n', 'o', 't', ' ', 's',
    'e', 't']
}

/// Decides the child's course: `path_set` tells whether the search list
/// exists, `found` is the location that the search chose.
pub fn child_plan(command: &str, path_set: bool, found: Option<String>) -> (r: ChildPlan)
    ensures
        !path_set ==> (r matches ChildPlan::Fail(m) && m@ == no_path_message()),
        path_set && found is None ==> (r matches ChildPlan::Fail(m) && m@ == not_found_message(
            command@,
        )),
        path_set && found is Some ==> (r matches ChildPlan::Exec(p) && p == found->Some_0),
{
    if !path_set {
        proof {
            reveal_strlit("ash: PATH is not set");
        }
        let m = String::from_str("ash: PATH is not set");
        assert(m@ =~= no_path_message());
        ChildPlan::Fail(m)
    } else {
        match found {
            Some(p) => ChildPlan::Exec(p),
            None => {
                proof {
                    reveal_strlit("ash: ");
                    reveal_strlit(": command not found");
                }
                let mut m = String::from_str("ash: ");
                m.append(command);
                m.append(": command not found");
                assert(m@ =~= not_found_message(command@));
                ChildPlan::Fail(m)
            },
        }
    }
}

/// The scan of an all-space line has no tokens and no token under way.
proof fn lemma_scan_blank(s: Seq<char>)
    requires
        forall|k: int| 0 <= k < s.len() ==> is_space(s[k]),
    ensures
        scan(s) == (Seq::<Seq<char>>::empty(), Seq::<char>::empty()),
    decreases s.len(),
{
    if s.len() > 0 {
        lemma_scan_blank(s.drop_last());
    }
}

/// A line of whitespace alone yields no tokens, and its dispatch does nothing.
pub proof fn lemma_blank_line_is_idle(line: Seq<char>)
    requires
        forall|k: int| 0 <= k < line.len() ==> is_space(line[k]),
    ensures
        tokens(line).len() == 0,
        dispatch_of(tokens(line)) == Dispatch::Idle,
{
    lemma_scan_blank(line);
}

/// A command of the builtin table runs as that builtin and never leads to a
/// path search or a child process.
pub proof fn lemma_builtin_never_spawns(argv: Seq<Seq<char>>)
    requires
        argv.len() > 0,
        builtin_of(argv[0]) is Some,
    ensures
        dispatch_of(argv) == Dispatch::RunBuiltin(builtin_of(argv[0])->Some_0),
        dispatch_of(argv) != Dispatch::Spawn,
{
}

/// The wait of one run ends on the first report that its child exited or was
/// killed, and reads nothing after it.
proof fn lemma_waits_stop_at_first_finish(first: Seq<i32>, rest: Seq<i32>)
    requires
        first.len() > 0,
        finished(first.last()),
        forall|k: int| 0 <= k < first.len() - 1 ==> !finished(first[k]),
    ensures
        waits_taken(first + rest) == first.len(),
    decreases first.len(),
{
    if first.len() > 1 {
        assert(!finished(first[0]));
        lemma_waits_stop_at_first_finish(first.drop_first(), rest);
        assert((first + rest).drop_first() =~= first.drop_first() + rest);
    }
}

/// Running the same outside command twice gives two independent runs: each
/// creates a child of its own, the first run's wait reads its own child's
/// reports up to the one that it exited or was killed, and the second run
/// then reads exactly the reports it would read on a fresh start.
pub proof fn lemma_repeated_runs_independent(argv: Seq<Seq<char>>, first: Seq<i32>, second: Seq<i32>)
    requires
        argv.len() > 0,
        builtin_of(argv[0]) is None,
        first.len() > 0,
        finished(first.last()),
        forall|k: int| 0 <= k < first.len() - 1 ==> !finished(first[k]),
    ensures
        dispatch_of(argv) == Dispatch::Spawn,
        waits_taken(first + second) == first.len(),
        (first + second).subrange(first.len() as int, (first + second).len() as int) == second,
        waits_taken((first + second).subrange(first.len() as int, (first + second).len() as int))
            == waits_taken(second),
{
    lemma_waits_stop_at_first_finish(first, second);
    assert((first + second).subrange(first.len() as int, (first + second).len() as int) =~= second);
}

} // verus!
