//! Field parsers for a post: the category in a title's leading brackets, and the
//! IPv4-shaped address in the page's info line.

use vstd::prelude::*;
use crate::text::{chars_of, substring};

verus! {

/// The first index at or after `i` that holds `]` or a line break (or the length).
pub open spec fn close_bracket(s: Seq<char>, i: int) -> int
    decreases s.len() - i,
{
    if 0 <= i < s.len() && s[i] != ']' && s[i] != '\n' {
        close_bracket(s, i + 1)
    } else {
        i
    }
}

/// The category of a title: `X` where the title starts with `[X]`, `X` holding
/// neither `]` nor a line break.
pub open spec fn category_of(title: Seq<char>) -> Option<Seq<char>> {
    if title.len() > 0 && title[0] == '[' {
        let k = close_bracket(title, 1);
        if k < title.len() && title[k] == ']' {
            Some(title.subrange(1, k))
        } else {
            None
        }
    } else {
        None
    }
}

/// The category of a title, where it starts with one in brackets.
pub fn parse_category(title: &str) -> (r: Option<String>)
    ensures
        r.deep_view() == category_of(title@),
{
    let cs = chars_of(title);
    let n = cs.len();
    if n == 0 || cs[0] != '[' {
        return None;
    }
    let mut k: usize = 1;
    while k < n && cs[k] != ']' && cs[k] != '\n'
        invariant
            cs@ == title@,
            n == cs@.len(),
            1 <= k <= n,
            close_bracket(title@, k as int) == close_bracket(title@, 1),
        decreases n - k,
    {
        k = k + 1;
    }
    if k < n && cs[k] == ']' {
        Some(substring(title, 1, k))
    } else {
        None
    }
}

/// Whether a character is in the regex crate's Unicode digit class `\d`
/// (general category `Nd`).
pub uninterp spec fn regex_digit(c: char) -> bool;

/// Relies on regex::Regex::new and Regex::is_match with the fixed pattern `^\d$`:
/// whether `c` is a Unicode decimal digit, which `0` to `9` are.
#[verifier::external_body]
fn is_digit_char(c: char) -> (r: bool)
    ensures
        r == regex_digit(c),
        ('0' <= c && c <= '9') ==> r,
{
    let mut buf = [0u8; 4];
    regex::Regex::new(r"^\d$").unwrap().is_match(c.encode_utf8(&mut buf))
}

/// A digit of an address group: a decimal digit in the regex sense.
pub open spec fn is_digit(c: char) -> bool {
    regex_digit(c)
}

/// The end of the run of at most `k` decimal digits that starts at `i`.
pub open spec fn digits_upto(s: Seq<char>, i: int, k: nat) -> int
    decreases k,
{
    if k > 0 && 0 <= i < s.len() && is_digit(s[i]) {
        digits_upto(s, i + 1, (k - 1) as nat)
    } else {
        i
    }
}

/// Where the group after an inner group at `p` starts: the inner group is at
/// most four digits and a `.`.
pub open spec fn next_group(s: Seq<char>, p: int) -> Option<int> {
    let e = digits_upto(s, p, 5);
    if e - p <= 4 && e < s.len() && s[e] == '.' {
        Some(e + 1)
    } else {
        None
    }
}

/// The end of an address that starts at `i`: three groups of up to four digits,
/// each followed by `.`, then up to four digits, as many as there are.
pub open spec fn ip_end_at(s: Seq<char>, i: int) -> Option<int> {
    match next_group(s, i) {
        Some(second) => match next_group(s, second) {
            Some(third) => match next_group(s, third) {
                Some(fourth) => Some(digits_upto(s, fourth, 4)),
                None => None,
            },
            None => None,
        },
        None => None,
    }
}

/// The leftmost address in `s[i..]`, or the empty sequence.
pub open spec fn ip_from(s: Seq<char>, i: int) -> Seq<char>
    decreases s.len() - i,
{
    if 0 <= i < s.len() {
        match ip_end_at(s, i) {
            Some(e) => s.subrange(i, e),
            None => ip_from(s, i + 1),
        }
    } else {
        Seq::empty()
    }
}

/// The leftmost IPv4-shaped address in `s`: four dot-separated groups of zero
/// to four decimal digits each (no bound on a group's value); empty where there is none.
pub open spec fn ip_in(s: Seq<char>) -> Seq<char> {
    ip_from(s, 0)
}

fn digits_end(cs: &Vec<char>, i: usize, k: usize) -> (e: usize)
    requires
        i <= cs@.len(),
    ensures
        e == digits_upto(cs@, i as int, k as nat),
        i <= e <= cs@.len(),
{
    let n = cs.len();
    let mut e: usize = i;
    while e < n && e - i < k && is_digit_char(cs[e])
        invariant
            n == cs@.len(),
            i <= e <= n,
            e - i <= k,
            digits_upto(cs@, e as int, (k - (e - i)) as nat) == digits_upto(cs@, i as int, k as nat),
        decreases n - e,
    {
        e = e + 1;
    }
    e
}

fn group_after(cs: &Vec<char>, p: usize) -> (r: Option<usize>)
    requires
        p <= cs@.len(),
    ensures
        match r {
            Some(q) => next_group(cs@, p as int) == Some(q as int) && p < q <= cs@.len(),
            None => next_group(cs@, p as int) is None,
        },
{
    let e = digits_end(cs, p, 5);
    if e - p <= 4 && e < cs.len() && cs[e] == '.' {
        Some(e + 1)
    } else {
        None
    }
}

fn ip_end(cs: &Vec<char>, i: usize) -> (r: Option<usize>)
    requires
        i <= cs@.len(),
    ensures
        match r {
            Some(e) => ip_end_at(cs@, i as int) == Some(e as int) && i <= e <= cs@.len(),
            None => ip_end_at(cs@, i as int) is None,
        },
{
    let second = group_after(cs, i)?;
    let third = group_after(cs, second)?;
    let fourth = group_after(cs, third)?;
    Some(digits_end(cs, fourth, 4))
}

/// The leftmost IPv4-shaped address in `text`, or the empty string.
pub fn find_ip(text: &str) -> (r: String)
    ensures
        r@ == ip_in(text@),
{
    let cs = chars_of(text);
    let n = cs.len();
    let mut i: usize = 0;
    while i < n
        invariant
            cs@ == text@,
            n == cs@.len(),
            i <= n,
            ip_from(text@, i as int) == ip_in(text@),
        decreases n - i,
    {
        match ip_end(&cs, i) {
            Some(e) => {
                return substring(text, i, e);
            },
            None => {},
        }
        i = i + 1;
    }
    String::new()
}

} // verus!
