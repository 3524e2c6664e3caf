//! The shell's session state: who and where, fixed when the shell starts.

use vstd::prelude::*;

verus! {

/// The name used when the login name is unknown.
pub open spec fn default_user() -> Seq<char> {
    seq!['u', 's', 'e', 'r']
}

/// The host name used when it is unknown.
pub open spec fn default_host() -> Seq<char> {
    seq!['-']
}

/// The directory shown when the working directory is unknown.
pub open spec fn default_dir() -> Seq<char> {
    seq!['?']
}

/// The value of an optional string, or `default` when there is none.
pub open spec fn or_default(o: Option<String>, default: Seq<char>) -> Seq<char> {
    match o {
        Some(s) => s@,
        None => default,
    }
}

/// The home directory of `user`.
pub open spec fn home_of(user: Seq<char>) -> Seq<char> {
    seq!['/', 'h', 'o', 'm', 'e', '/'] + user
}

/// Whether `s` begins with `prefix`.
pub open spec fn starts_with(s: Seq<char>, prefix: Seq<char>) -> bool {
    prefix.len() <= s.len() && s.subrange(0, prefix.len() as int) == prefix
}

/// A directory as the prompt shows it: a leading home directory becomes `~`.
pub open spec fn display_dir(dir: Seq<char>, home: Seq<char>) -> Seq<char> {
    if starts_with(dir, home) {
        seq!['~'] + dir.subrange(home.len() as int, dir.len() as int)
    } else {
        dir
    }
}

/// The prompt shown before each line: `user@host:dir$ `.
pub open spec fn prompt_of(user_host: Seq<char>, dir: Seq<char>) -> Seq<char> {
    user_host + seq![':'] + dir + seq!['$', ' ']
}

/// Whether `s` begins with `prefix`.
pub fn has_prefix(s: &str, prefix: &str) -> (r: bool)
    ensures
        r == starts_with(s@, prefix@),
{
    let n = prefix.unicode_len();
    if n > s.unicode_len() {
        return false;
    }
    let mut i: usize = 0;
    while i < n
        invariant
            n == prefix@.len(),
            n <= s@.len(),
            i <= n,
            forall|k: int| 0 <= k < i ==> s@[k] == prefix@[k],
        decreases n - i,
    {
        if s.get_char(i) != prefix.get_char(i) {
            assert(s@.subrange(0, n as int)[i as int] != prefix@[i as int]);
            return false;
        }
        i = i + 1;
    }
    assert(s@.subrange(0, n as int) =~= prefix@);
    true
}

/// Shows `dir` with a leading `home` replaced by `~`.
pub fn abbreviate_home(dir: &str, home: &str) -> (r: String)
    ensures
        r@ == display_dir(dir@, home@),
{
    if has_prefix(dir, home) {
        proof {
            reveal_strlit("~");
        }
        let mut out = String::from_str("~");
        out.append(dir.substring_char(home.unicode_len(), dir.unicode_len()));
        assert(out@ =~= display_dir(dir@, home@));
        out
    } else {
        String::from_str(dir)
    }
}

/// The value of `o`, or the literal `default`.
fn value_or(o: Option<String>, default: &str) -> (r: String)
    ensures
        r@ == match o {
            Some(s) => s@,
            None => default@,
        },
{
    match o {
        Some(s) => s,
        None => String::from_str(default),
    }
}

/// The state of a shell session.
pub struct Shell {
    prompt: String,
    home_path: String,
    cur_dir: String,
}

impl Shell {
    /// `user@host`, as the prompt begins.
    pub closed spec fn user_host_spec(&self) -> Seq<char> {
        self.prompt@
    }

    /// The home directory of the user.
    pub closed spec fn home_spec(&self) -> Seq<char> {
        self.home_path@
    }

    /// The working directory as the prompt shows it.
    pub closed spec fn dir_spec(&self) -> Seq<char> {
        self.cur_dir@
    }

    /// Builds the session from the login name, the host name and the working
    /// directory, each `None` where it could not be had.
    pub fn new(login: Option<String>, host: Option<String>, cwd: Option<String>) -> (r: Shell)
        ensures
            r.user_host_spec() == or_default(login, default_user()) + seq!['@'] + or_default(
                host,
                default_host(),
            ),
            r.home_spec() == home_of(or_default(login, default_user())),
            r.dir_spec() == display_dir(
                or_default(cwd, default_dir()),
                home_of(or_default(login, default_user())),
            ),
    {
        proof {
            reveal_strlit("user");
            reveal_strlit("-");
            reveal_strlit("?");
            reveal_strlit("@");
            reveal_strlit("/home/");
        }
        let username = value_or(login, "user");
        let hostname = value_or(host, "-");
        let dir = value_or(cwd, "?");
        let mut prompt = username.clone();
        prompt.append("@");
        prompt.append(hostname.as_str());
        let mut home_path = String::from_str("/home/");
        home_path.append(username.as_str());
        let cur_dir = abbreviate_home(dir.as_str(), home_path.as_str());
        assert(username@ =~= or_default(login, default_user()));
        assert(hostname@ =~= or_default(host, default_host()));
        assert(dir@ =~= or_default(cwd, default_dir()));
        assert(home_path@ =~= home_of(username@));
        Shell { prompt, home_path, cur_dir }
    }

    /// The prompt shown before each input line.
    pub fn prompt_text(&self) -> (r: String)
        ensures
            r@ == prompt_of(self.user_host_spec(), self.dir_spec()),
    {
        proof {
            reveal_strlit(":");
            reveal_strlit("$ ");
        }
        let mut out = self.prompt.clone();
        out.append(":");
        out.append(self.cur_dir.as_str());
        out.append("$ ");
        assert(out@ =~= prompt_of(self.user_host_spec(), self.dir_spec()));
        out
    }

    /// `user@host`.
    pub fn user_host(&self) -> (r: &str)
        ensures
            r@ == self.user_host_spec(),
    {
        self.prompt.as_str()
    }

    /// The home directory of the user.
    pub fn home_path(&self) -> (r: &str)
        ensures
            r@ == self.home_spec(),
    {
        self.home_path.as_str()
    }

    /// The working directory as the prompt shows it; it is fixed when the
    /// shell starts.
    pub fn cur_dir(&self) -> (r: &str)
        ensures
            r@ == self.dir_spec(),
    {
        self.cur_dir.as_str()
    }
}

} // verus!
