//! The prompt: abbreviating the working directory under the home directory
//! and laying out the input line shown to the user.

use vstd::prelude::*;
use crate::shell::push_all;
use crate::text::str_chars;

verus! {

/// Whether the directory lies at or under the home directory: it is the home
/// directory itself, or continues it at a path-component boundary.
pub open spec fn under_home(cur: Seq<char>, home: Seq<char>) -> bool {
    cur == home || (cur.len() > home.len() && cur.subrange(0, home.len() as int) == home
        && cur[home.len() as int] == '/')
}

/// The directory as the prompt shows it: with the home-directory prefix
/// replaced by `~`, or unchanged when no home directory is known or the
/// directory lies elsewhere.
pub open spec fn display_dir_spec(cur: Seq<char>, home: Option<Seq<char>>) -> Seq<char> {
    match home {
        Option::Some(h) => if under_home(cur, h) {
            seq!['~'] + cur.skip(h.len() as int)
        } else {
            cur
        },
        Option::None => cur,
    }
}

/// Whether `p` is a prefix of `v`.
fn is_prefix(p: &Vec<char>, v: &Vec<char>) -> (r: bool)
    ensures
        r == (p@.len() <= v@.len() && v@.subrange(0, p@.len() as int) == p@),
{
    if p.len() > v.len() {
        return false;
    }
    let n = p.len();
    let mut i: usize = 0;
    while i < n
        invariant
            i <= n,
            n == p@.len() <= v@.len(),
            forall|k: int| 0 <= k < i ==> v@[k] == p@[k],
        decreases n - i,
    {
        if v[i] != p[i] {
            assert(v@.subrange(0, p@.len() as int)[i as int] != p@[i as int]);
            return false;
        }
        i += 1;
    }
    proof {
        assert(v@.subrange(0, p@.len() as int) =~= p@);
    }
    true
}

/// Abbreviates the working directory for the prompt.
pub fn display_dir(cur: &Vec<char>, home: Option<&Vec<char>>) -> (r: Vec<char>)
    ensures
        match home {
            Option::Some(h) => r@ == display_dir_spec(cur@, Option::Some(h@)),
            Option::None => r@ == cur@,
        },
{
    match home {
        Option::Some(h) => {
            let at_home = crate::plan::chars_eq(cur, h);
            let below_home = cur.len() > h.len() && is_prefix(h, cur) && cur[h.len()] == '/';
            if at_home || below_home {
                let mut r: Vec<char> = Vec::new();
                r.push('~');
                let rest = crate::plan::tail_from(cur, h.len());
                push_all(&mut r, &rest);
                proof {
                    assert(r@ =~= seq!['~'] + cur@.skip(h@.len() as int));
                }
                r
            } else {
                cur.clone()
            }
        },
        Option::None => cur.clone(),
    }
}

/// The prompt line: the displayed directory, a separator, and the input.
pub fn prompt_line(dir: &Vec<char>, input: &Vec<char>) -> (r: Vec<char>)
    ensures
        r@ == dir@ + " > "@ + input@,
{
    let mut r = dir.clone();
    let sep = str_chars(" > ");
    push_all(&mut r, &sep);
    push_all(&mut r, input);
    proof {
        assert(r@ =~= dir@ + " > "@ + input@);
    }
    r
}

} // verus!
