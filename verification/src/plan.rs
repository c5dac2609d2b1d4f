//! Command classification: maps a typed command line to an execution plan.

use vstd::prelude::*;
use crate::text::{trim, trim_spec, str_chars};

verus! {

/// The typed execution plan produced from one command line.
#[derive(Debug, PartialEq, Eq)]
pub enum ExecutionPlan {
    /// The line was empty: nothing to do.
    Empty,
    /// The `clear` builtin: reset the output buffer.
    ClearOutput,
    /// The `cd` builtin: change the working directory to the given path.
    ChangeDirectory(Vec<char>),
    /// Run the command with stdio inherited from the terminal.
    RunFullscreen(Vec<char>),
    /// Run the command with stdout and stderr captured.
    RunCaptured(Vec<char>),
}

/// The mathematical shape of an execution plan.
pub enum PlanSpec {
    Empty,
    ClearOutput,
    ChangeDirectory(Seq<char>),
    RunFullscreen(Seq<char>),
    RunCaptured(Seq<char>),
}

impl View for ExecutionPlan {
    type V = PlanSpec;

    open spec fn view(&self) -> PlanSpec {
        match self {
            ExecutionPlan::Empty => PlanSpec::Empty,
            ExecutionPlan::ClearOutput => PlanSpec::ClearOutput,
            ExecutionPlan::ChangeDirectory(p) => PlanSpec::ChangeDirectory(p@),
            ExecutionPlan::RunFullscreen(c) => PlanSpec::RunFullscreen(c@),
            ExecutionPlan::RunCaptured(c) => PlanSpec::RunCaptured(c@),
        }
    }
}

/// The word that names the clear builtin.
pub open spec fn clear_word() -> Seq<char> {
    seq!['c', 'l', 'e', 'a', 'r']
}

/// Whether a trimmed line invokes the `cd` builtin.
pub open spec fn is_cd_command(t: Seq<char>) -> bool {
    t.len() >= 3 && t[0] == 'c' && t[1] == 'd' && t[2] == ' '
}

/// The path argument of a `cd` line: everything after the prefix, trimmed.
pub open spec fn cd_target(t: Seq<char>) -> Seq<char> {
    trim_spec(t.subrange(3, t.len() as int))
}

/// Classification of a trimmed command line, in order of precedence: the
/// empty line does nothing; `clear` resets the output; a `cd ` prefix
/// changes directory; a line that is exactly a configured fullscreen command
/// runs with inherited stdio; anything else runs captured. Membership in the
/// fullscreen set is tested against the whole line, so a fullscreen command
/// followed by arguments runs captured.
pub open spec fn classify_plan(t: Seq<char>, fs: Seq<Seq<char>>) -> PlanSpec {
    if t.len() == 0 {
        PlanSpec::Empty
    } else if t == clear_word() {
        PlanSpec::ClearOutput
    } else if is_cd_command(t) {
        PlanSpec::ChangeDirectory(cd_target(t))
    } else if fs.contains(t) {
        PlanSpec::RunFullscreen(t)
    } else {
        PlanSpec::RunCaptured(t)
    }
}

/// The views of a vector of command names.
pub open spec fn names_view(fs: Seq<Vec<char>>) -> Seq<Seq<char>> {
    fs.map_values(|v: Vec<char>| v@)
}

/// Law: a trimmed line that is exactly one of the configured fullscreen
/// command names classifies as a fullscreen run. The builtins take
/// precedence, so a configured name that is empty, is the clear word, or
/// begins with the `cd ` prefix is left out here: such a name would be
/// classified as the builtin instead.
pub proof fn lemma_exact_match_runs_fullscreen(t: Seq<char>, fs: Seq<Seq<char>>)
    requires
        fs.contains(t),
        t.len() > 0,
        t != clear_word(),
        !is_cd_command(t),
    ensures
        classify_plan(t, fs) == PlanSpec::RunFullscreen(t),
{
}

/// Law: a line made of a configured fullscreen command name with trailing
/// text is matched as a whole, so unless the whole line is itself a
/// configured name it runs captured. The builtin exclusions are as in
/// `lemma_exact_match_runs_fullscreen`.
pub proof fn lemma_name_with_args_runs_captured(
    name: Seq<char>,
    args: Seq<char>,
    fs: Seq<Seq<char>>,
)
    requires
        fs.contains(name),
        args.len() > 0,
        !fs.contains(name + args),
        name + args != clear_word(),
        !is_cd_command(name + args),
    ensures
        classify_plan(name + args, fs) == PlanSpec::RunCaptured(name + args),
{
}

/// Whether two character vectors hold the same characters.
pub fn chars_eq(a: &Vec<char>, b: &Vec<char>) -> (r: bool)
    ensures
        r == (a@ == b@),
{
    if a.len() != b.len() {
        return false;
    }
    let n = a.len();
    let mut i: usize = 0;
    while i < n
        invariant
            n == a@.len() == b@.len(),
            i <= n,
            forall|k: int| 0 <= k < i ==> a@[k] == b@[k],
        decreases n - i,
    {
        if a[i] != b[i] {
            return false;
        }
        i += 1;
    }
    proof {
        assert(a@ =~= b@);
    }
    true
}

/// The elements of a vector from a given position on.
pub fn tail_from(v: &Vec<char>, k: usize) -> (r: Vec<char>)
    requires
        k <= v@.len(),
    ensures
        r@ == v@.subrange(k as int, v@.len() as int),
{
    let n = v.len();
    let mut r: Vec<char> = Vec::new();
    let mut i: usize = k;
    while i < n
        invariant
            k <= i <= n,
            n == v@.len(),
            r@ == v@.subrange(k as int, i as int),
        decreases n - i,
    {
        r.push(v[i]);
        assert(r@ =~= v@.subrange(k as int, i + 1));
        i += 1;
    }
    r
}

/// Whether the trimmed line is exactly one of the configured command names.
fn in_command_set(t: &Vec<char>, fs: &Vec<Vec<char>>) -> (r: bool)
    ensures
        r == names_view(fs@).contains(t@),
{
    let n = fs.len();
    let mut i: usize = 0;
    while i < n
        invariant
            i <= n,
            n == fs@.len(),
            forall|k: int| 0 <= k < i ==> names_view(fs@)[k] != t@,
        decreases n - i,
    {
        if chars_eq(t, &fs[i]) {
            assert(names_view(fs@)[i as int] == t@);
            return true;
        }
        i += 1;
    }
    false
}

/// Classifies a raw command line against the configured fullscreen command
/// names, trimming it first.
pub fn classify(line: &Vec<char>, fs: &Vec<Vec<char>>) -> (p: ExecutionPlan)
    ensures
        p@ == classify_plan(trim_spec(line@), names_view(fs@)),
{
    let t = trim(line);
    if t.len() == 0 {
        return ExecutionPlan::Empty;
    }
    let clear = str_chars("clear");
    if chars_eq(&t, &clear) {
        proof {
            reveal_strlit("clear");
            assert(t@ =~= clear_word());
        }
        return ExecutionPlan::ClearOutput;
    }
    proof {
        reveal_strlit("clear");
        assert("clear"@ =~= clear_word());
    }
    if t.len() >= 3 && t[0] == 'c' && t[1] == 'd' && t[2] == ' ' {
        let rest = tail_from(&t, 3);
        let path = trim(&rest);
        return ExecutionPlan::ChangeDirectory(path);
    }
    if in_command_set(&t, fs) {
        return ExecutionPlan::RunFullscreen(t);
    }
    ExecutionPlan::RunCaptured(t)
}

} // verus!
