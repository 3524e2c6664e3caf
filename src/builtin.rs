//! The builtin table and the text that `echo` writes.

use vstd::prelude::*;
use crate::text::{str_equal, strings_view};

verus! {

/// A command that the shell carries out itself.
#[derive(Clone, Copy, Debug, PartialEq, Eq, Structural)]
pub enum Builtin {
    Cd,
    Clear,
    Exit,
    Pwd,
    Echo,
}

impl Builtin {
    /// The name under which the command is typed.
    pub open spec fn name(self) -> Seq<char> {
        match self {
            Builtin::Cd => seq!['c', 'd'],
            Builtin::Clear => seq!['c', 'l', 'e', 'a', 'r'],
            Builtin::Exit => seq!['e', 'x', 'i', 't'],
            Builtin::Pwd => seq!['p', 'w', 'd'],
            Builtin::Echo => seq!['e', 'c', 'h', 'o'],
        }
    }

    /// The name under which the command is typed, as a string.
    pub fn name_str(&self) -> (r: &'static str)
        ensures
            r@ == self.name(),
    {
        match self {
            Builtin::Cd => {
                proof {
                    reveal_strlit("cd");
                }
                assert("cd"@ =~= self.name());
                "cd"
            },
            Builtin::Clear => {
                proof {
                    reveal_strlit("clear");
                }
                assert("clear"@ =~= self.name());
                "clear"
            },
            Builtin::Exit => {
                proof {
                    reveal_strlit("exit");
                }
                assert("exit"@ =~= self.name());
                "exit"
            },
            Builtin::Pwd => {
                proof {
                    reveal_strlit("pwd");
                }
                assert("pwd"@ =~= self.name());
                "pwd"
            },
            Builtin::Echo => {
                proof {
                    reveal_strlit("echo");
                }
                assert("echo"@ =~= self.name());
                "echo"
            },
        }
    }
}

/// The builtin table, in lookup order.
pub open spec fn table() -> Seq<Builtin> {
    seq![Builtin::Cd, Builtin::Clear, Builtin::Exit, Builtin::Pwd, Builtin::Echo]
}

/// The first entry of `t` whose name is exactly `command`.
pub open spec fn first_named(t: Seq<Builtin>, command: Seq<char>) -> Option<Builtin>
    decreases t.len(),
{
    if t.len() == 0 {
        None
    } else if t[0].name() == command {
        Some(t[0])
    } else {
        first_named(t.drop_first(), command)
    }
}

/// The builtin that `command` names, if any.
pub open spec fn builtin_of(command: Seq<char>) -> Option<Builtin> {
    first_named(table(), command)
}

/// Looks `command` up in the builtin table: exact, case-sensitive match,
/// first entry wins.
pub fn get_builtin(command: &str) -> (r: Option<Builtin>)
    ensures
        r == builtin_of(command@),
{
    let entries = [Builtin::Cd, Builtin::Clear, Builtin::Exit, Builtin::Pwd, Builtin::Echo];
    assert(entries@ =~= table());
    assert(entries@.subrange(0, 5) =~= entries@);
    let mut i: usize = 0;
    while i < 5
        invariant
            i <= 5,
            entries@ == table(),
            builtin_of(command@) == first_named(entries@.subrange(i as int, 5), command@),
        decreases 5 - i,
    {
        let b = entries[i];
        assert(entries@.subrange(i as int, 5).drop_first() =~= entries@.subrange(i + 1, 5));
        if str_equal(command, b.name_str()) {
            return Some(b);
        }
        i = i + 1;
    }
    None
}

/// The words of `words` separated by single spaces.
pub open spec fn join_words(words: Seq<Seq<char>>) -> Seq<char>
    decreases words.len(),
{
    if words.len() == 0 {
        Seq::empty()
    } else if words.len() == 1 {
        words[0]
    } else {
        join_words(words.drop_last()) + seq![' '] + words.last()
    }
}

/// Whether `argv` (command name first) asks `echo` to leave out the newline.
pub open spec fn echo_no_newline(argv: Seq<Seq<char>>) -> bool {
    argv.len() >= 2 && argv[1] == seq!['-', 'n']
}

/// The text that `echo` writes for `argv`: the arguments after the command
/// name and the option, separated by single spaces, then a newline unless
/// the option `-n` came first.
pub open spec fn echo_text(argv: Seq<Seq<char>>) -> Seq<char> {
    let first = if echo_no_newline(argv) {
        2
    } else if argv.len() == 0 {
        0
    } else {
        1
    };
    let body = join_words(argv.subrange(first, argv.len() as int));
    if echo_no_newline(argv) {
        body
    } else {
        body + seq!['\n']
    }
}

/// The text that the `echo` builtin writes to standard output.
pub fn echo(argv: &Vec<String>) -> (r: String)
    ensures
        r@ == echo_text(strings_view(argv@)),
{
    let ghost args = strings_view(argv@);
    let n = argv.len();
    let mut no_newline = false;
    let mut first: usize = if n == 0 { 0 } else { 1 };
    if n >= 2 {
        proof {
            reveal_strlit("-n");
        }
        assert("-n"@ =~= seq!['-', 'n']);
        if str_equal(argv[1].as_str(), "-n") {
            no_newline = true;
            first = 2;
        }
    }
    assert(no_newline == echo_no_newline(args));
    let mut out = String::new();
    let mut i: usize = first;
    assert(args.subrange(first as int, i as int) =~= Seq::<Seq<char>>::empty());
    while i < n
        invariant
            n == argv@.len(),
            args == strings_view(argv@),
            first <= i <= n,
            out@ == join_words(args.subrange(first as int, i as int)),
        decreases n - i,
    {
        let ghost before = args.subrange(first as int, i as int);
        assert(args.subrange(first as int, i + 1).drop_last() =~= before);
        if i > first {
            proof {
                reveal_strlit(" ");
            }
            out.append(" ");
            assert(" "@ =~= seq![' ']);
        }
        out.append(argv[i].as_str());
        i = i + 1;
    }
    if !no_newline {
        proof {
            reveal_strlit("\n");
        }
        assert("\n"@ =~= seq!['\n']);
        out.append("\n");
    }
    out
}

} // verus!
