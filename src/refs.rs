//! Names of branches and references.
use vstd::prelude::*;

use crate::metadata::newline_free;
use crate::text::{chars_of, push_char};

verus! {

/// The characters kept as they are in a branch name made from a message.
pub open spec fn name_char_kept(c: char) -> bool {
    ('a' <= c && c <= 'z') || ('A' <= c && c <= 'Z') || ('0' <= c && c <= '9') || c == '-' || c
        == '_' || c == '.'
}

pub open spec fn name_char(c: char) -> char {
    if name_char_kept(c) {
        c
    } else {
        '-'
    }
}

/// The branch name made from a commit message: its first line, with each
/// character other than a letter, a digit, `-`, `_` or `.` replaced by `-`.
pub open spec fn is_branch_name_for(r: Seq<char>, m: Seq<char>) -> bool {
    &&& r.len() <= m.len()
    &&& newline_free(m.take(r.len() as int))
    &&& r.len() == m.len() || m[r.len() as int] == '\n'
    &&& forall|i: int| 0 <= i < r.len() ==> r[i] == name_char(m[i])
}

/// Derives the name of the remote branch for a commit from its message.
pub fn branch_name_for(message: &str) -> (r: String)
    ensures
        is_branch_name_for(r@, message@),
{
    let c = chars_of(message);
    let mut r = String::new();
    let mut i: usize = 0;
    while i < c.len() && c[i] != '\n'
        invariant
            c@ == message@,
            i <= c@.len(),
            r@.len() == i,
            newline_free(c@.take(i as int)),
            forall|j: int| 0 <= j < i ==> r@[j] == name_char(c@[j]),
        decreases c@.len() - i,
    {
        let ch = c[i];
        let kept = ('a' <= ch && ch <= 'z') || ('A' <= ch && ch <= 'Z') || ('0' <= ch && ch <= '9')
            || ch == '-' || ch == '_' || ch == '.';
        if kept {
            push_char(&mut r, ch);
        } else {
            push_char(&mut r, '-');
        }
        proof {
            assert(c@.take(i + 1) =~= c@.take(i as int).push(ch));
        }
        i = i + 1;
    }
    r
}

pub open spec fn local_ref_prefix() -> Seq<char> {
    "refs/heads/"@
}

/// The full name of the local branch `branch`.
pub fn local_ref(branch: &str) -> (r: String)
    ensures
        r@ == local_ref_prefix() + branch@,
{
    let mut r = String::new();
    r.append("refs/heads/");
    r.append(branch);
    r
}

/// The full name of the reference that tracks `branch` on the remote.
pub fn remote_tracking_ref(branch: &str) -> (r: String)
    ensures
        r@ == "refs/remotes/origin/"@ + branch@,
{
    let mut r = String::new();
    r.append("refs/remotes/origin/");
    r.append(branch);
    r
}

/// The short name of the remote-tracking branch of `branch`.
pub fn remote_branch(branch: &str) -> (r: String)
    ensures
        r@ == "origin/"@ + branch@,
{
    let mut r = String::new();
    r.append("origin/");
    r.append(branch);
    r
}

/// The branch that a full reference name stands for, if it names a local branch.
pub fn branch_of_ref(name: &str) -> (r: Option<String>)
    ensures
        r is Some <==> (name@.len() >= local_ref_prefix().len() && name@.take(
            local_ref_prefix().len() as int,
        ) == local_ref_prefix()),
        r is Some ==> local_ref_prefix() + r->0@ == name@,
{
    proof {
        reveal_strlit("refs/heads/");
    }
    let c = chars_of(name);
    let p = chars_of("refs/heads/");
    if c.len() < p.len() {
        return None;
    }
    let mut i: usize = 0;
    while i < p.len()
        invariant
            c@ == name@,
            p@ == local_ref_prefix(),
            p@.len() <= c@.len(),
            i <= p@.len(),
            forall|j: int| 0 <= j < i ==> c@[j] == p@[j],
        decreases p@.len() - i,
    {
        if c[i] != p[i] {
            assert(name@.take(p@.len() as int)[i as int] != p@[i as int]);
            return None;
        }
        i = i + 1;
    }
    assert(name@.take(p@.len() as int) =~= p@);
    let mut r = String::new();
    let mut j = p.len();
    while j < c.len()
        invariant
            c@ == name@,
            p@.len() <= j <= c@.len(),
            r@ == c@.subrange(p@.len() as int, j as int),
        decreases c@.len() - j,
    {
        push_char(&mut r, c[j]);
        proof {
            assert(r@ =~= c@.subrange(p@.len() as int, j + 1));
        }
        j = j + 1;
    }
    assert(local_ref_prefix() + r@ =~= name@);
    Some(r)
}

} // verus!
