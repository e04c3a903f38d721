//! Users, and the parser of the author line of a post.

use vstd::prelude::*;
use crate::text::{chars_of, is_space, is_space_char, substring};

verus! {

/// A user of the board: a handle and, where the page gives one, a display name.
#[derive(Clone, Debug, PartialEq, Eq)]
pub struct User {
    pub id: String,
    pub name: Option<String>,
}

/// What a `User` holds, as character sequences.
pub struct UserView {
    pub id: Seq<char>,
    pub name: Option<Seq<char>>,
}

impl View for User {
    type V = UserView;

    open spec fn view(&self) -> UserView {
        UserView { id: self.id@, name: self.name.deep_view() }
    }
}

impl User {
    pub fn new(id: String, name: Option<String>) -> (r: User)
        ensures
            r@ == (UserView { id: id@, name: name.deep_view() }),
    {
        User { id, name }
    }
}

/// Whether a character is in the regex crate's Unicode word class `\w`
/// (alphabetic, marks, decimal digits, connector punctuation, join controls).
pub uninterp spec fn regex_word(c: char) -> bool;

/// A character of a user handle: a word character in the regex sense.
pub open spec fn is_word(c: char) -> bool {
    regex_word(c)
}

/// The first index at or after `i` that holds a handle character (or the length).
pub open spec fn skip_non_word(s: Seq<char>, i: int) -> int
    decreases s.len() - i,
{
    if 0 <= i < s.len() && !is_word(s[i]) {
        skip_non_word(s, i + 1)
    } else {
        i
    }
}

/// The end of the run of handle characters that starts at `i`.
pub open spec fn word_end(s: Seq<char>, i: int) -> int
    decreases s.len() - i,
{
    if 0 <= i < s.len() && is_word(s[i]) {
        word_end(s, i + 1)
    } else {
        i
    }
}

/// The first index at or after `i` that holds a line break (or the length).
pub open spec fn line_end(s: Seq<char>, i: int) -> int
    decreases s.len() - i,
{
    if 0 <= i < s.len() && s[i] != '\n' {
        line_end(s, i + 1)
    } else {
        i
    }
}

/// Moving left from `j`, one past the last `)` in `s[lo..j]`, or `lo` if there is none.
pub open spec fn close_end(s: Seq<char>, lo: int, j: int) -> int
    decreases j - lo,
{
    if lo < j && j <= s.len() && s[j - 1] != ')' {
        close_end(s, lo, j - 1)
    } else {
        j
    }
}

/// The display name after a handle that ends at `e`: one whitespace character,
/// `(`, then everything up to the last `)` on the same line.
pub open spec fn display_name(s: Seq<char>, e: int) -> Option<Seq<char>> {
    if 0 <= e && e + 1 < s.len() && is_space(s[e]) && s[e + 1] == '(' {
        let lo = e + 2;
        let k = close_end(s, lo, line_end(s, lo));
        if k > lo {
            Some(s.subrange(lo, k - 1))
        } else {
            None
        }
    } else {
        None
    }
}

/// The author line read as a handle, optionally followed by ` (display name)`.
/// The handle is the first run of handle characters; a line without one is invalid.
pub open spec fn author_of(s: Seq<char>) -> Option<UserView> {
    let b = skip_non_word(s, 0);
    if b < s.len() {
        let e = word_end(s, b);
        Some(UserView { id: s.subrange(b, e), name: display_name(s, e) })
    } else {
        None
    }
}

/// Relies on regex::Regex::new and Regex::is_match with the fixed pattern `^\w$`:
/// whether `c` is in the Unicode word class, which holds `[0-9A-Za-z_]`.
#[verifier::external_body]
fn is_word_char(c: char) -> (r: bool)
    ensures
        r == regex_word(c),
        (('a' <= c && c <= 'z') || ('A' <= c && c <= 'Z') || ('0' <= c && c <= '9') || c == '_')
            ==> r,
{
    let mut buf = [0u8; 4];
    regex::Regex::new(r"^\w$").unwrap().is_match(c.encode_utf8(&mut buf))
}

/// Parses an author line; `None` where it holds no handle.
pub fn parse_author(line: &str) -> (r: Option<User>)
    ensures
        match r {
            Some(u) => author_of(line@) == Some(u@),
            None => author_of(line@) is None,
        },
{
    let cs = chars_of(line);
    let n = cs.len();
    let mut b: usize = 0;
    while b < n && !is_word_char(cs[b])
        invariant
            cs@ == line@,
            n == cs@.len(),
            b <= n,
            skip_non_word(line@, b as int) == skip_non_word(line@, 0),
        decreases n - b,
    {
        b = b + 1;
    }
    if b == n {
        return None;
    }
    let mut e: usize = b;
    while e < n && is_word_char(cs[e])
        invariant
            cs@ == line@,
            n == cs@.len(),
            b <= e <= n,
            word_end(line@, e as int) == word_end(line@, b as int),
        decreases n - e,
    {
        e = e + 1;
    }
    let id = substring(line, b, e);
    let mut name: Option<String> = None;
    if n - e >= 2 && is_space_char(cs[e]) && cs[e + 1] == '(' {
        let lo = e + 2;
        let mut le: usize = lo;
        while le < n && cs[le] != '\n'
            invariant
                cs@ == line@,
                n == cs@.len(),
                lo <= le <= n,
                line_end(line@, le as int) == line_end(line@, lo as int),
            decreases n - le,
        {
            le = le + 1;
        }
        let mut k: usize = le;
        while k > lo && cs[k - 1] != ')'
            invariant
                cs@ == line@,
                n == cs@.len(),
                lo <= k <= le <= n,
                close_end(line@, lo as int, k as int) == close_end(line@, lo as int, le as int),
            decreases k,
        {
            k = k - 1;
        }
        if k > lo {
            name = Some(substring(line, lo, k - 1));
        }
    }
    Some(User { id, name })
}

} // verus!
