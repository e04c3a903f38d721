//! The decisions of a sweep over a board's index pages: which titles to keep,
//! and whether to follow the link to the older page.

use vstd::prelude::*;
use crate::text::{chars_of, strings_view, trim, trimmed};

verus! {

/// How many matching titles a sweep collects before it stops.
pub const QUOTA: usize = 20;

/// What the sweep reads of one parsed index page.
#[derive(Clone, Debug, PartialEq, Eq)]
pub struct BoardPage {
    /// The text of the title node of each entry that has one, in page order.
    pub titles: Vec<String>,
    /// The target of the link to the older page (the second paging control), if
    /// the page has one.
    pub older: Option<String>,
}

/// What the sweep does after a page.
#[derive(Clone, Debug, PartialEq, Eq)]
pub enum Decision {
    /// Fetch the older page that this link points to.
    Fetch(String),
    /// Enough titles were collected.
    Satisfied,
    /// There is no older page.
    Exhausted,
}

pub enum DecisionView {
    Fetch(Seq<char>),
    Satisfied,
    Exhausted,
}

impl View for Decision {
    type V = DecisionView;

    open spec fn view(&self) -> DecisionView {
        match self {
            Decision::Fetch(u) => DecisionView::Fetch(u@),
            Decision::Satisfied => DecisionView::Satisfied,
            Decision::Exhausted => DecisionView::Exhausted,
        }
    }
}

/// `[keyword]`, the prefix that a kept title starts with.
pub open spec fn tag_of(keyword: Seq<char>) -> Seq<char> {
    seq!['['] + keyword + seq![']']
}

pub open spec fn has_tag(title: Seq<char>, keyword: Seq<char>) -> bool {
    let p = tag_of(keyword);
    p.len() <= title.len() && title.subrange(0, p.len() as int) == p
}

/// The trimmed titles that start with `[keyword]`, in page order.
pub open spec fn matching_titles(titles: Seq<Seq<char>>, keyword: Seq<char>) -> Seq<Seq<char>>
    decreases titles.len(),
{
    if titles.len() == 0 {
        Seq::empty()
    } else {
        let rest = matching_titles(titles.drop_last(), keyword);
        let t = trimmed(titles.last());
        if has_tag(t, keyword) {
            rest.push(t)
        } else {
            rest
        }
    }
}

/// The decision after a page, given how many titles were collected so far.
pub open spec fn decide(count: nat, quota: nat, older: Option<Seq<char>>) -> DecisionView {
    if count >= quota {
        DecisionView::Satisfied
    } else {
        match older {
            Some(u) => DecisionView::Fetch(u),
            None => DecisionView::Exhausted,
        }
    }
}

/// Whether `title` starts with `[keyword]`.
pub fn starts_with_tag(title: &str, keyword: &str) -> (r: bool)
    ensures
        r == has_tag(title@, keyword@),
{
    let t = chars_of(title);
    let k = chars_of(keyword);
    let ghost p = tag_of(keyword@);
    if k.len() >= t.len() || t.len() - k.len() < 2 {
        return false;
    }
    if t[0] != '[' || t[k.len() + 1] != ']' {
        assert(p[0] == '[' && p[k.len() + 1] == ']');
        assert(title@.subrange(0, p.len() as int)[0] == t@[0]);
        assert(title@.subrange(0, p.len() as int)[k.len() + 1] == t@[k.len() + 1]);
        return false;
    }
    let mut i: usize = 0;
    while i < k.len()
        invariant
            t@ == title@,
            k@ == keyword@,
            k@.len() + 2 <= t@.len(),
            p == tag_of(keyword@),
            i <= k@.len(),
            forall|j: int| 0 <= j < i ==> t@[j + 1] == k@[j],
        decreases k@.len() - i,
    {
        if t[i + 1] != k[i] {
            assert(p[i + 1] == k@[i as int]);
            assert(title@.subrange(0, p.len() as int)[i + 1] == t@[i + 1]);
            return false;
        }
        i = i + 1;
    }
    assert(title@.subrange(0, p.len() as int) =~= p);
    true
}

/// The state of a sweep: the keyword, the quota and the titles kept so far.
#[derive(Clone, Debug, PartialEq, Eq)]
pub struct Paginator {
    pub keyword: String,
    pub quota: usize,
    pub found: Vec<String>,
}

impl Paginator {
    /// A sweep that has read no page yet, with the usual quota.
    pub fn new(keyword: String) -> (r: Paginator)
        ensures
            r.keyword@ == keyword@,
            r.quota == QUOTA,
            r.found@.len() == 0,
    {
        Paginator { keyword, quota: QUOTA, found: Vec::new() }
    }

    /// A sweep that has read no page yet, with the given quota.
    pub fn with_quota(keyword: String, quota: usize) -> (r: Paginator)
        ensures
            r.keyword@ == keyword@,
            r.quota == quota,
            r.found@.len() == 0,
    {
        Paginator { keyword, quota, found: Vec::new() }
    }

    /// Takes in one index page: keeps its matching titles, trimmed and in page
    /// order, after those already kept, then decides to stop once the quota is
    /// met, to stop where there is no older page, or else to fetch it.
    pub fn step(&mut self, page: &BoardPage) -> (r: Decision)
        ensures
            final(self).keyword@ == old(self).keyword@,
            final(self).quota == old(self).quota,
            strings_view(final(self).found@) == strings_view(old(self).found@) + matching_titles(
                page.titles.deep_view(),
                old(self).keyword@,
            ),
            r@ == decide(
                final(self).found@.len(),
                final(self).quota as nat,
                page.older.deep_view(),
            ),
    {
        let ghost start = strings_view(self.found@);
        let ghost tv = page.titles.deep_view();
        let mut i: usize = 0;
        while i < page.titles.len()
            invariant
                tv == page.titles.deep_view(),
                i <= tv.len(),
                self.keyword@ == old(self).keyword@,
                self.quota == old(self).quota,
                strings_view(self.found@) == start + matching_titles(
                    tv.subrange(0, i as int),
                    self.keyword@,
                ),
                start == strings_view(old(self).found@),
            decreases tv.len() - i,
        {
            let ghost before = strings_view(self.found@);
            assert(tv.subrange(0, i + 1).drop_last() =~= tv.subrange(0, i as int));
            let t = trim(page.titles[i].as_str());
            if starts_with_tag(t.as_str(), self.keyword.as_str()) {
                self.found.push(t);
                assert(strings_view(self.found@) =~= before.push(t@));
            }
            i = i + 1;
        }
        assert(tv.subrange(0, i as int) =~= tv);
        assert(self.found@.len() == strings_view(self.found@).len());
        if self.found.len() >= self.quota {
            Decision::Satisfied
        } else {
            match &page.older {
                Some(u) => Decision::Fetch(u.clone()),
                None => Decision::Exhausted,
            }
        }
    }
}

} // verus!
