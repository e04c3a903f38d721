//! Comments ("pushes") under a post, and their extraction from push nodes.

use vstd::prelude::*;
use vstd::string::StrSliceExecFns;
use crate::text::{trim, trimmed};
use crate::user::{User, UserView};

verus! {

/// How a comment rates the post.
#[derive(Clone, Copy, Debug, PartialEq, Eq, Structural)]
pub enum CommentType {
    Normal,
    Good,
    Bad,
}

/// One comment: its rating, its author, what it says and its time label.
#[derive(Clone, Debug, PartialEq, Eq)]
pub struct Comment {
    pub type_: CommentType,
    pub user: User,
    pub content: String,
    pub time: String,
}

pub struct CommentView {
    pub type_: CommentType,
    pub user: UserView,
    pub content: Seq<char>,
    pub time: Seq<char>,
}

impl View for Comment {
    type V = CommentView;

    open spec fn view(&self) -> CommentView {
        CommentView { type_: self.type_, user: self.user@, content: self.content@, time: self.time@ }
    }
}

impl Comment {
    pub fn new(type_: CommentType, user: User, content: String, time: String) -> (r: Comment)
        ensures
            r@ == (CommentView { type_, user: user@, content: content@, time: time@ }),
    {
        Comment { type_, user, content, time }
    }
}

/// A push node of a page: the text of the first node of each of its parts, where
/// the node is present.
#[derive(Clone, Debug, PartialEq, Eq)]
pub struct PushNode {
    pub tag: Option<String>,
    pub user_id: Option<String>,
    pub content: Option<String>,
    pub time: Option<String>,
}

pub struct PushView {
    pub tag: Option<Seq<char>>,
    pub user_id: Option<Seq<char>>,
    pub content: Option<Seq<char>>,
    pub time: Option<Seq<char>>,
}

impl View for PushNode {
    type V = PushView;

    open spec fn view(&self) -> PushView {
        PushView {
            tag: self.tag.deep_view(),
            user_id: self.user_id.deep_view(),
            content: self.content.deep_view(),
            time: self.time.deep_view(),
        }
    }
}

/// The glyph of a comment that rates the post down.
pub const BAD_GLYPH: char = '\u{5653}';

/// The glyph of a comment that rates the post up.
pub const GOOD_GLYPH: char = '\u{63a8}';

/// The rating that a push tag gives: looked up by its trimmed text.
pub open spec fn comment_type_of(tag: Option<Seq<char>>) -> CommentType {
    match tag {
        Some(t) => if trimmed(t) == seq![BAD_GLYPH] {
            CommentType::Bad
        } else if trimmed(t) == seq![GOOD_GLYPH] {
            CommentType::Good
        } else {
            CommentType::Normal
        },
        None => CommentType::Normal,
    }
}

pub open spec fn text_or_empty(o: Option<Seq<char>>) -> Seq<char> {
    match o {
        Some(t) => t,
        None => Seq::empty(),
    }
}

pub open spec fn trimmed_or_empty(o: Option<Seq<char>>) -> Seq<char> {
    match o {
        Some(t) => trimmed(t),
        None => Seq::empty(),
    }
}

/// The comment that a push node stands for; a missing part gives an empty value.
pub open spec fn comment_of(p: PushView) -> CommentView {
    CommentView {
        type_: comment_type_of(p.tag),
        user: UserView { id: text_or_empty(p.user_id), name: None },
        content: trimmed_or_empty(p.content),
        time: trimmed_or_empty(p.time),
    }
}

/// The comments of a sequence of push nodes, one for each, in the same order.
pub open spec fn comments_of(ps: Seq<PushView>) -> Seq<CommentView> {
    ps.map_values(|p: PushView| comment_of(p))
}

pub open spec fn push_views(ps: Seq<PushNode>) -> Seq<PushView> {
    ps.map_values(|p: PushNode| p@)
}

pub open spec fn comment_views(cs: Seq<Comment>) -> Seq<CommentView> {
    cs.map_values(|c: Comment| c@)
}

/// The comments of push nodes come one for each node, in the order of the nodes.
pub proof fn lemma_comments_in_node_order(ps: Seq<PushView>)
    ensures
        comments_of(ps).len() == ps.len(),
        forall|i: int| 0 <= i < ps.len() ==> #[trigger] comments_of(ps)[i] == comment_of(ps[i]),
{
}

/// A push node that lacks a part yields an empty value for it, and a node without
/// a tag yields a normal comment.
pub proof fn lemma_missing_parts_are_empty(p: PushView)
    ensures
        p.tag is None ==> comment_of(p).type_ == CommentType::Normal,
        p.user_id is None ==> comment_of(p).user.id.len() == 0,
        comment_of(p).user.name is None,
        p.content is None ==> comment_of(p).content.len() == 0,
        p.time is None ==> comment_of(p).time.len() == 0,
{
}

/// Classifies a push tag.
pub fn classify_tag(tag: &Option<String>) -> (r: CommentType)
    ensures
        r == comment_type_of(tag.deep_view()),
{
    match tag {
        Some(t) => {
            let s = trim(t.as_str());
            let s = s.as_str();
            if s.unicode_len() == 1 {
                let c = s.get_char(0);
                if c == BAD_GLYPH {
                    assert(s@ =~= seq![BAD_GLYPH]);
                    CommentType::Bad
                } else if c == GOOD_GLYPH {
                    assert(s@ =~= seq![GOOD_GLYPH]);
                    CommentType::Good
                } else {
                    assert(s@ != seq![BAD_GLYPH] && s@ != seq![GOOD_GLYPH]) by {
                        assert(s@[0] == c);
                    }
                    CommentType::Normal
                }
            } else {
                assert(s@.len() != seq![BAD_GLYPH].len());
                CommentType::Normal
            }
        },
        None => CommentType::Normal,
    }
}

fn copy_or_empty(o: &Option<String>) -> (r: String)
    ensures
        r@ == text_or_empty(o.deep_view()),
{
    match o {
        Some(t) => t.clone(),
        None => String::new(),
    }
}

fn trim_or_empty(o: &Option<String>) -> (r: String)
    ensures
        r@ == trimmed_or_empty(o.deep_view()),
{
    match o {
        Some(t) => trim(t.as_str()),
        None => String::new(),
    }
}

/// The comment of one push node.
pub fn extract_comment(p: &PushNode) -> (r: Comment)
    ensures
        r@ == comment_of(p@),
{
    let type_ = classify_tag(&p.tag);
    let user = User::new(copy_or_empty(&p.user_id), None);
    Comment::new(type_, user, trim_or_empty(&p.content), trim_or_empty(&p.time))
}

/// The comments of all push nodes, in the order of the nodes.
pub fn extract_comments(pushes: &Vec<PushNode>) -> (r: Vec<Comment>)
    ensures
        comment_views(r@) == comments_of(push_views(pushes@)),
{
    let mut r: Vec<Comment> = Vec::new();
    let mut i: usize = 0;
    while i < pushes.len()
        invariant
            i <= pushes@.len(),
            r@.len() == i,
            forall|k: int| 0 <= k < i ==> #[trigger] r@[k]@ == comment_of(pushes@[k]@),
        decreases pushes@.len() - i,
    {
        let c = extract_comment(&pushes[i]);
        r.push(c);
        i = i + 1;
    }
    assert(comment_views(r@) =~= comments_of(push_views(pushes@)));
    r
}

} // verus!
