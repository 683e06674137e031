//! Finding a project number in the project-tracking document.

use vstd::prelude::*;
use crate::security::is_ascii_digit;
use crate::text::{contains, is_whitespace, lines_of, split_lines, str_contains, views, white};

verus! {

/// The markers of a line that names the project.
pub const PROJECT_NUMBER_MARKER: &'static str = "Project Number:";

pub const GITHUB_PROJECT_MARKER: &'static str = "GitHub Project:";

/// `s[i..j]` is a word: a maximal run of characters that are not whitespace.
pub open spec fn is_word(s: Seq<char>, i: int, j: int) -> bool {
    &&& 0 <= i < j <= s.len()
    &&& (i == 0 || white(s[i - 1]))
    &&& (j == s.len() || white(s[j]))
    &&& forall|k: int| i <= k < j ==> !white(#[trigger] s[k])
}

/// `s[i..j]` is a word made of ASCII digits only.
pub open spec fn is_number_word(s: Seq<char>, i: int, j: int) -> bool {
    is_word(s, i, j) && forall|k: int| i <= k < j ==> is_ascii_digit(#[trigger] s[k])
}

/// `r` is the first word of `s` made of ASCII digits only, if any.
pub open spec fn is_first_number(r: Option<Seq<char>>, s: Seq<char>) -> bool {
    match r {
        None => forall|i: int, j: int| !is_number_word(s, i, j),
        Some(w) => exists|i: int, j: int|
            #![trigger s.subrange(i, j)]
            is_number_word(s, i, j) && w == s.subrange(i, j) && (forall|i2: int, j2: int|
                is_number_word(s, i2, j2) ==> i <= i2),
    }
}

/// The first whitespace-separated word of `line` that is all ASCII digits.
pub fn extract_number_from_line(line: &str) -> (r: Option<String>)
    ensures
        match r {
            Some(w) => is_first_number(Some(w@), line@),
            None => is_first_number(None, line@),
        },
{
    let ghost s = line@;
    let n = line.unicode_len();
    let mut k: usize = 0;
    let mut in_word = false;
    let mut start: usize = 0;
    let mut digits = true;
    while k < n
        invariant
            s == line@,
            n == s.len(),
            k <= n,
            start <= k,
            in_word ==> (start == 0 || white(s[start - 1])) && start < k,
            in_word ==> forall|m: int| start <= m < k ==> !white(#[trigger] s[m]),
            in_word ==> (digits == forall|m: int| start <= m < k ==> is_ascii_digit(#[trigger] s[m])),
            !in_word ==> (k == 0 || white(s[k - 1])),
            forall|i: int, j: int| is_number_word(s, i, j) ==> i >= (if in_word { start as int } else { k as int }),
        decreases n - k,
    {
        let c = line.get_char(k);
        if is_whitespace(c) {
            if in_word {
                if digits {
                    let w = String::from_str(line.substring_char(start, k));
                    assert(is_number_word(s, start as int, k as int));
                    assert(w@ == s.subrange(start as int, k as int));
                    return Some(w);
                }
                assert forall|i: int, j: int| is_number_word(s, i, j) implies i >= k + 1 by {
                    if i == start as int {
                        if j > k {
                            assert(!white(s[k as int]));
                        } else if j < k {
                            assert(!white(s[j]));
                        }
                    } else if start < i && i <= k {
                        assert(!white(s[i - 1]));
                    }
                }
            } else {
                assert forall|i: int, j: int| is_number_word(s, i, j) implies i >= k + 1 by {
                    if i == k {
                        assert(!white(s[i]));
                    }
                }
            }
            in_word = false;
        } else {
            if !in_word {
                in_word = true;
                start = k;
                digits = true;
            }
            if !('0' <= c && c <= '9') {
                digits = false;
            }
        }
        k = k + 1;
    }
    if in_word && digits {
        let w = String::from_str(line.substring_char(start, n));
        assert(is_number_word(s, start as int, n as int));
        assert(w@ == s.subrange(start as int, n as int));
        return Some(w);
    }
    assert forall|i: int, j: int| !is_number_word(s, i, j) by {
        if is_number_word(s, i, j) && in_word && i == start as int {
            if j < n {
                assert(!white(s[j]));
            }
        } else if is_number_word(s, i, j) && in_word && i > start {
            assert(!white(s[i - 1]));
        }
    }
    None
}

/// A line that names the project and holds a number.
pub open spec fn is_project_line(line: Seq<char>) -> bool {
    (contains(line, PROJECT_NUMBER_MARKER@) || contains(line, GITHUB_PROJECT_MARKER@)) && exists|i: int, j: int|
        is_number_word(line, i, j)
}

/// `r` is the project number that the document `doc` names: the first number
/// of its first line with a marker and a number.
pub open spec fn is_document_project(r: Option<Seq<char>>, doc: Seq<char>) -> bool {
    let ls = lines_of(doc);
    match r {
        None => forall|k: int| 0 <= k < ls.len() ==> !is_project_line(#[trigger] ls[k]),
        Some(p) => exists|k: int|
            0 <= k < ls.len() && #[trigger] is_project_line(ls[k]) && (forall|m: int|
                0 <= m < k ==> !is_project_line(#[trigger] ls[m])) && is_first_number(Some(p), ls[k]),
    }
}

/// The project number that the tracking document names, if any.
pub fn project_number_in_document(doc: &str) -> (r: Option<String>)
    ensures
        match r {
            Some(p) => is_document_project(Some(p@), doc@),
            None => is_document_project(None, doc@),
        },
{
    let lines = split_lines(doc);
    let ghost ls = lines_of(doc@);
    let mut k: usize = 0;
    while k < lines.len()
        invariant
            views(lines@) == ls,
            ls == lines_of(doc@),
            k <= lines@.len(),
            forall|m: int| 0 <= m < k ==> !is_project_line(#[trigger] ls[m]),
        decreases lines@.len() - k,
    {
        assert(ls[k as int] == lines@[k as int]@);
        let line = lines[k].as_str();
        if str_contains(line, PROJECT_NUMBER_MARKER) || str_contains(line, GITHUB_PROJECT_MARKER) {
            match extract_number_from_line(line) {
                Some(p) => {
                    assert(is_project_line(ls[k as int]));
                    return Some(p);
                },
                None => {},
            }
        }
        k = k + 1;
    }
    None
}

} // verus!
