//! Categorized outcomes of having the OS run a program.
//!
//! The program is started elsewhere; this module decides, from what the
//! start attempt and the finished process reported, which result the caller
//! gets.

use vstd::prelude::*;

verus! {

/// Explicit errors we handle.
#[derive(Debug, PartialEq)]
pub enum Error {
    NoProg(String),
    NoFile(String),
    NoPerm(String),
    Other(String),
}

/// Why the OS could not start a program.
#[derive(Debug, PartialEq)]
pub enum LaunchFailure {
    /// The executable was not found.
    NotFound,
    /// Running the executable was not permitted.
    PermissionDenied,
    /// Any other failure, with the OS's description of it.
    Other(String),
}

/// The results of a program execution (a system call).
#[derive(Debug, PartialEq)]
pub struct Execution {
    stdout: String,
}

impl View for Execution {
    type V = Seq<char>;

    closed spec fn view(&self) -> Seq<char> {
        self.stdout@
    }
}

/// Construct an `Execution` instance.
pub fn make_execution(stdout: String) -> (r: Execution)
    ensures
        r@ == stdout@,
{
    Execution { stdout }
}

/// Get the stdout data of an execution.
pub fn stdout(execution: Execution) -> (r: String)
    ensures
        r@ == execution@,
{
    execution.stdout
}

/// The error text that tells of a missing file.
pub const NO_SUCH_FILE: &'static str = "No such file";

/// The error text that tells of a denied permission.
pub const PERMISSION_DENIED: &'static str = "permission denied";

/// Whether `pat` occurs in `s` as a contiguous run of characters.
pub open spec fn contains(s: Seq<char>, pat: Seq<char>) -> bool {
    exists|i: int| 0 <= i <= s.len() - pat.len() && #[trigger] s.subrange(i, i + pat.len()) == pat
}

/// The characters of `s`, in order.
fn chars_of(s: &str) -> (r: Vec<char>)
    ensures
        r@ == s@,
{
    let n = s.unicode_len();
    let mut r: Vec<char> = Vec::new();
    let mut i: usize = 0;
    while i < n
        invariant
            i <= n,
            n == s@.len(),
            r@ == s@.take(i as int),
        decreases n - i,
    {
        r.push(s.get_char(i));
        assert(r@ =~= s@.take(i + 1));
        i = i + 1;
    }
    assert(s@.take(i as int) =~= s@);
    r
}

/// Whether `pat` occurs in `s` at position `at`.
fn matches_at(s: &Vec<char>, pat: &Vec<char>, at: usize) -> (r: bool)
    requires
        at + pat@.len() <= s@.len(),
    ensures
        r == (s@.subrange(at as int, at + pat@.len()) == pat@),
{
    let n = s.len();
    let mut j: usize = 0;
    while j < pat.len()
        invariant
            n == s@.len(),
            j <= pat@.len(),
            at + pat@.len() <= s@.len(),
            forall|k: int| 0 <= k < j ==> s@[at + k] == pat@[k],
        decreases pat.len() - j,
    {
        if s[at + j] != pat[j] {
            assert(s@.subrange(at as int, at + pat@.len())[j as int] != pat@[j as int]);
            return false;
        }
        j = j + 1;
    }
    assert(s@.subrange(at as int, at + pat@.len()) =~= pat@);
    true
}

/// Whether `pat` occurs in `text`.
fn contains_text(text: &String, pat: &str) -> (r: bool)
    ensures
        r == contains(text@, pat@),
{
    let s = chars_of(text.as_str());
    let p = chars_of(pat);
    if p.len() > s.len() {
        return false;
    }
    if p.len() == 0 {
        assert(text@.subrange(0, 0 + pat@.len() as int) =~= pat@);
        return true;
    }
    let n = s.len();
    let mut i: usize = 0;
    while i <= n - p.len()
        invariant
            n == s@.len(),
            1 <= p@.len() <= s@.len(),
            i <= s@.len() - p@.len() + 1,
            s@ == text@,
            p@ == pat@,
            forall|k: int| 0 <= k < i ==> #[trigger] s@.subrange(k, k + p@.len()) != p@,
        decreases n - p.len() + 1 - i,
    {
        if matches_at(&s, &p, i) {
            return true;
        }
        i = i + 1;
    }
    false
}

/// The message for a program that the OS could not find.
pub open spec fn no_prog_msg(prog: Seq<char>) -> Seq<char> {
    "No `"@ + prog + "` program found on your machine"@
}

/// The message for a program that the OS would not run.
pub open spec fn no_perm_msg(prog: Seq<char>) -> Seq<char> {
    "No permission to execute `"@ + prog + "`"@
}

/// The error for a program `prog` that could not be started.
pub fn launch_error(prog: &str, failure: LaunchFailure) -> (r: Error)
    ensures
        match failure {
            LaunchFailure::NotFound => (r matches Error::NoProg(m) && m@ == no_prog_msg(prog@)),
            LaunchFailure::PermissionDenied => (r matches Error::NoPerm(m) && m@ == no_perm_msg(
                prog@,
            )),
            LaunchFailure::Other(msg) => (r matches Error::Other(m) && m@ == msg@),
        },
{
    match failure {
        LaunchFailure::NotFound => {
            let mut m = String::from_str("No `");
            m.append(prog);
            m.append("` program found on your machine");
            Error::NoProg(m)
        },
        LaunchFailure::PermissionDenied => {
            let mut m = String::from_str("No permission to execute `");
            m.append(prog);
            m.append("`");
            Error::NoPerm(m)
        },
        LaunchFailure::Other(msg) => Error::Other(msg),
    }
}

/// Whether `r` is the error for a failed run whose standard error is
/// `stderr`: a missing file comes first, then a denied permission, and any
/// other failure is reported as such, each with the whole text.
pub open spec fn is_exit_error(stderr: Seq<char>, r: Error) -> bool {
    match r {
        Error::NoFile(m) => m@ == stderr && contains(stderr, NO_SUCH_FILE@),
        Error::NoPerm(m) => m@ == stderr && !contains(stderr, NO_SUCH_FILE@) && contains(
            stderr,
            PERMISSION_DENIED@,
        ),
        Error::Other(m) => m@ == stderr && !contains(stderr, NO_SUCH_FILE@) && !contains(
            stderr,
            PERMISSION_DENIED@,
        ),
        Error::NoProg(_) => false,
    }
}

/// The error for a program that ran and exited unsuccessfully, judged by
/// what it wrote to standard error.
pub fn exit_error(stderr: String) -> (r: Error)
    ensures
        is_exit_error(stderr@, r),
{
    if contains_text(&stderr, NO_SUCH_FILE) {
        Error::NoFile(stderr)
    } else if contains_text(&stderr, PERMISSION_DENIED) {
        Error::NoPerm(stderr)
    } else {
        Error::Other(stderr)
    }
}

/// The result of a program that ran to its end: its standard output when it
/// succeeded, else the error that its standard error tells of.
pub fn exit_result(success: bool, stdout: String, stderr: String) -> (r: Result<Execution, Error>)
    ensures
        match r {
            Ok(e) => success && e@ == stdout@,
            Err(err) => !success && is_exit_error(stderr@, err),
        },
{
    if success {
        Ok(make_execution(stdout))
    } else {
        Err(exit_error(stderr))
    }
}

} // verus!
