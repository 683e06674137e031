//! Reading what git prints. The commands themselves are run by the caller;
//! these functions turn their output into the values the workflows take.

use vstd::prelude::*;
use crate::text::{contains, is_trim_of, lines_of, split_lines, str_contains, trim, views};

verus! {

/// The main branch assumed when the remote cannot be read.
pub const DEFAULT_MAIN_BRANCH: &'static str = "main";

/// The marker of the line of `git remote show origin` that names the main
/// branch.
pub const HEAD_BRANCH_MARKER: &'static str = "HEAD branch:";

/// The branch that `git branch --show-current` printed: its output, trimmed.
pub fn current_branch_from_output(stdout: &str) -> (r: String)
    ensures
        is_trim_of(r@, stdout@),
{
    trim(stdout)
}

/// The changed paths that `git status --porcelain` printed, one per line; none
/// when the tree is clean.
pub fn status_from_output(stdout: &str) -> (r: Vec<String>)
    ensures
        views(r@) == lines_of(stdout@),
{
    split_lines(stdout)
}

/// `f` is the text between the first colon of `line` and the next colon, or
/// the end of the line.
pub open spec fn is_field_after_colon(f: Seq<char>, line: Seq<char>) -> bool {
    exists|i: int, j: int|
        #![trigger line.subrange(i + 1, j)]
        0 <= i < j <= line.len() && line[i] == ':' && (forall|k: int| 0 <= k < i ==> #[trigger] line[k] != ':')
            && (forall|k: int| i < k < j ==> #[trigger] line[k] != ':') && (j == line.len() || line[j] == ':') && f
            == line.subrange(i + 1, j)
}

pub open spec fn has_colon(line: Seq<char>) -> bool {
    exists|k: int| 0 <= k < line.len() && line[k] == ':'
}

/// A line that names the main branch.
pub open spec fn is_head_line(line: Seq<char>) -> bool {
    contains(line, HEAD_BRANCH_MARKER@) && has_colon(line)
}

/// `r` is the main branch that the output `out` of `git remote show origin`
/// names: the field after the colon of the first line with the marker,
/// trimmed; or the default when no line has it.
pub open spec fn is_main_branch_of(r: Seq<char>, out: Seq<char>) -> bool {
    let ls = lines_of(out);
    ||| exists|k: int|
        0 <= k < ls.len() && #[trigger] is_head_line(ls[k]) && (forall|m: int| 0 <= m < k ==> !is_head_line(#[trigger] ls[m]))
            && exists|f: Seq<char>| is_field_after_colon(f, ls[k]) && is_trim_of(r, f)
    ||| (forall|k: int| 0 <= k < ls.len() ==> !is_head_line(#[trigger] ls[k])) && r == DEFAULT_MAIN_BRANCH@
}

/// The text after the first colon of `line`, up to the next colon, if the
/// line has a colon.
fn field_after_colon(line: &str) -> (r: Option<String>)
    ensures
        r is None <==> !has_colon(line@),
        r matches Some(f) ==> is_field_after_colon(f@, line@),
{
    let n = line.unicode_len();
    let mut i: usize = 0;
    while i < n && line.get_char(i) != ':'
        invariant
            n == line@.len(),
            i <= n,
            forall|k: int| 0 <= k < i ==> #[trigger] line@[k] != ':',
        decreases n - i,
    {
        i = i + 1;
    }
    if i == n {
        return None;
    }
    let mut j: usize = i + 1;
    while j < n && line.get_char(j) != ':'
        invariant
            n == line@.len(),
            i < j <= n,
            forall|k: int| i < k < j ==> #[trigger] line@[k] != ':',
        decreases n - j,
    {
        j = j + 1;
    }
    let f = String::from_str(line.substring_char(i + 1, j));
    assert(f@ == line@.subrange(i + 1, j as int));
    assert(j == line@.len() || line@[j as int] == ':');
    Some(f)
}

/// The main branch that `git remote show origin` printed, or the default
/// when the output names none or could not be had (`None`).
pub fn main_branch_from_output(stdout: Option<&str>) -> (r: String)
    ensures
        match stdout {
            Some(out) => is_main_branch_of(r@, out@),
            None => r@ == DEFAULT_MAIN_BRANCH@,
        },
{
    let out = match stdout {
        Some(out) => out,
        None => {
            return String::from_str(DEFAULT_MAIN_BRANCH);
        },
    };
    let lines = split_lines(out);
    let ghost ls = lines_of(out@);
    let mut k: usize = 0;
    while k < lines.len()
        invariant
            stdout == Some(out),
            views(lines@) == ls,
            ls == lines_of(out@),
            k <= lines@.len(),
            forall|m: int| 0 <= m < k ==> !is_head_line(#[trigger] ls[m]),
        decreases lines@.len() - k,
    {
        assert(ls[k as int] == lines@[k as int]@);
        if str_contains(lines[k].as_str(), HEAD_BRANCH_MARKER) {
            match field_after_colon(lines[k].as_str()) {
                Some(f) => {
                    let r = trim(f.as_str());
                    assert(is_head_line(ls[k as int]));
                    assert(is_field_after_colon(f@, ls[k as int]) && is_trim_of(r@, f@));
                    assert(exists|g: Seq<char>| is_field_after_colon(g, ls[k as int]) && is_trim_of(r@, g));
                    assert(0 <= k < ls.len() && is_head_line(ls[k as int]) && (forall|m: int|
                        0 <= m < k ==> !is_head_line(#[trigger] ls[m])));
                    return r;
                },
                None => {},
            }
        }
        k = k + 1;
    }
    String::from_str(DEFAULT_MAIN_BRANCH)
}

} // verus!
