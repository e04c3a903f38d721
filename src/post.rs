//! Posts, the page snapshot they are extracted from, and the post extractor.

use vstd::prelude::*;
use crate::comment::{
    Comment, CommentView, PushNode, PushView, comment_views, comments_of, extract_comments,
    push_views,
};
use crate::field::{category_of, find_ip, ip_in, parse_category};
use crate::text::{strings_view, trim, trimmed};
use crate::user::{User, UserView, author_of, parse_author};
use vstd::string::StringExecFns;

verus! {

/// The metadata lines that a post page must have, in their order on the page.
#[derive(Clone, Copy, Debug, PartialEq, Eq, Structural)]
pub enum MetaField {
    Author,
    Title,
    Time,
}

/// Why a post could not be extracted from a page.
#[derive(Clone, Copy, Debug, PartialEq, Eq, Structural)]
pub enum ExtractionError {
    /// The page has fewer metadata values than it needs; this one is the first missing.
    MissingField(MetaField),
    /// The author line holds no user handle.
    InvalidAuthorLine,
    /// The page has no content container.
    DocumentStructureError,
}

/// What the extractor reads of a parsed post page.
#[derive(Clone, Debug, PartialEq, Eq)]
pub struct PostPage {
    /// For each metadata line, in page order: the text of its value node, if it has one.
    pub metalines: Vec<Option<String>>,
    /// The text of each info node, in page order; the first one carries the address.
    pub info: Vec<String>,
    /// The direct text children of the content container, in order; `None` where
    /// the page has no container.
    pub content: Option<Vec<String>>,
    /// The push nodes, in page order.
    pub pushes: Vec<PushNode>,
}

pub struct PageView {
    pub metalines: Seq<Option<Seq<char>>>,
    pub info: Seq<Seq<char>>,
    pub content: Option<Seq<Seq<char>>>,
    pub pushes: Seq<PushView>,
}

impl View for PostPage {
    type V = PageView;

    open spec fn view(&self) -> PageView {
        PageView {
            metalines: self.metalines.deep_view(),
            info: self.info.deep_view(),
            content: self.content.deep_view(),
            pushes: push_views(self.pushes@),
        }
    }
}

/// A post: its identity on the board, its metadata, its body and its comments.
#[derive(Clone, Debug, PartialEq, Eq)]
pub struct Post {
    pub id: String,
    pub author: User,
    pub title: String,
    pub time: String,
    pub content: String,
    pub comments: Vec<Comment>,
    pub ip: String,
    pub category: Option<String>,
    pub board: String,
}

pub struct PostView {
    pub id: Seq<char>,
    pub author: UserView,
    pub title: Seq<char>,
    pub time: Seq<char>,
    pub content: Seq<char>,
    pub comments: Seq<CommentView>,
    pub ip: Seq<char>,
    pub category: Option<Seq<char>>,
    pub board: Seq<char>,
}

impl View for Post {
    type V = PostView;

    open spec fn view(&self) -> PostView {
        PostView {
            id: self.id@,
            author: self.author@,
            title: self.title@,
            time: self.time@,
            content: self.content@,
            comments: comment_views(self.comments@),
            ip: self.ip@,
            category: self.category.deep_view(),
            board: self.board@,
        }
    }
}

/// The values of the metadata lines that have one, in page order.
pub open spec fn meta_values(lines: Seq<Option<Seq<char>>>) -> Seq<Seq<char>>
    decreases lines.len(),
{
    if lines.len() == 0 {
        Seq::empty()
    } else {
        match lines.last() {
            Some(v) => meta_values(lines.drop_last()).push(v),
            None => meta_values(lines.drop_last()),
        }
    }
}

/// The address of a page: found in its first info node, empty without one.
pub open spec fn page_ip(info: Seq<Seq<char>>) -> Seq<char> {
    if info.len() > 0 {
        ip_in(info[0])
    } else {
        Seq::empty()
    }
}

/// The body of a post: the first text child of the container, trimmed.
pub open spec fn page_content(texts: Seq<Seq<char>>) -> Seq<char> {
    if texts.len() > 0 {
        trimmed(texts[0])
    } else {
        Seq::empty()
    }
}

/// The post that a page holds, or why it holds none; the metadata lines are
/// checked first, then the author line, then the content container.
pub open spec fn post_of(id: Seq<char>, board: Seq<char>, page: PageView) -> Result<
    PostView,
    ExtractionError,
> {
    let meta = meta_values(page.metalines);
    if meta.len() < 1 {
        Err(ExtractionError::MissingField(MetaField::Author))
    } else if meta.len() < 2 {
        Err(ExtractionError::MissingField(MetaField::Title))
    } else if meta.len() < 3 {
        Err(ExtractionError::MissingField(MetaField::Time))
    } else {
        match author_of(meta[0]) {
            None => Err(ExtractionError::InvalidAuthorLine),
            Some(author) => match page.content {
                None => Err(ExtractionError::DocumentStructureError),
                Some(texts) => Ok(
                    PostView {
                        id,
                        author,
                        title: meta[1],
                        time: trimmed(meta[2]),
                        content: page_content(texts),
                        comments: comments_of(page.pushes),
                        ip: page_ip(page.info),
                        category: category_of(meta[1]),
                        board,
                    },
                ),
            },
        }
    }
}

/// An extraction result, with the post seen through its view.
pub open spec fn post_result_view(r: Result<Post, ExtractionError>) -> Result<
    PostView,
    ExtractionError,
> {
    match r {
        Ok(p) => Ok(p@),
        Err(e) => Err(e),
    }
}

/// The values of the metadata lines that have one, in page order.
pub fn collect_meta_values(lines: &Vec<Option<String>>) -> (r: Vec<String>)
    ensures
        strings_view(r@) == meta_values(lines.deep_view()),
{
    let mut r: Vec<String> = Vec::new();
    let mut i: usize = 0;
    while i < lines.len()
        invariant
            i <= lines@.len(),
            strings_view(r@) == meta_values(lines.deep_view().subrange(0, i as int)),
        decreases lines@.len() - i,
    {
        let ghost before = r@;
        let ghost lv = lines.deep_view();
        assert(lv.subrange(0, i + 1).drop_last() =~= lv.subrange(0, i as int));
        match &lines[i] {
            Some(v) => {
                r.push(v.clone());
                assert(strings_view(r@) =~= strings_view(before).push(v@));
            },
            None => {},
        }
        i = i + 1;
    }
    assert(lines.deep_view().subrange(0, i as int) =~= lines.deep_view());
    r
}

fn content_text(texts: &Vec<String>) -> (r: String)
    ensures
        r@ == page_content(texts.deep_view()),
{
    if texts.len() > 0 {
        trim(texts[0].as_str())
    } else {
        String::new()
    }
}

fn info_ip(info: &Vec<String>) -> (r: String)
    ensures
        r@ == page_ip(info.deep_view()),
{
    if info.len() > 0 {
        find_ip(info[0].as_str())
    } else {
        String::new()
    }
}

/// A page with at least three metadata values whose first holds a user handle
/// never fails on its metadata or its author line, whatever its push nodes hold:
/// the only error left is a missing content container.
pub proof fn lemma_metadata_and_author_suffice(id: Seq<char>, board: Seq<char>, page: PageView)
    requires
        meta_values(page.metalines).len() >= 3,
        author_of(meta_values(page.metalines)[0]) is Some,
    ensures
        post_of(id, board, page) is Ok || post_of(id, board, page) == Err::<PostView, ExtractionError>(
            ExtractionError::DocumentStructureError,
        ),
        forall|pushes: Seq<PushView>|
            (#[trigger] post_of(id, board, PageView { pushes, ..page })) is Ok == post_of(
                id,
                board,
                page,
            ) is Ok,
{
}

/// Extracting twice from the same page gives equal results.
pub proof fn lemma_extract_deterministic(
    post: Post,
    page: PostPage,
    r1: Result<Post, ExtractionError>,
    r2: Result<Post, ExtractionError>,
)
    requires
        post_result_view(r1) == post_of(post.id@, post.board@, page@),
        post_result_view(r2) == post_of(post.id@, post.board@, page@),
    ensures
        post_result_view(r1) == post_result_view(r2),
{
}

impl Post {
    /// An empty post with the given identity on the board.
    pub fn new(id: String, board: String) -> (r: Post)
        ensures
            r@ == (PostView {
                id: id@,
                author: UserView { id: Seq::empty(), name: None },
                title: Seq::empty(),
                time: Seq::empty(),
                content: Seq::empty(),
                comments: Seq::empty(),
                ip: Seq::empty(),
                category: None,
                board: board@,
            }),
    {
        let r = Post {
            id,
            author: User::new(String::new(), None),
            title: String::new(),
            time: String::new(),
            content: String::new(),
            comments: Vec::new(),
            ip: String::new(),
            category: None,
            board,
        };
        assert(comment_views(r.comments@) =~= Seq::<CommentView>::empty());
        r
    }

    /// Sets the time label: the given text, trimmed.
    pub fn set_time(&mut self, time: &str)
        ensures
            final(self)@ == (PostView { time: trimmed(time@), ..old(self)@ }),
    {
        self.time = trim(time);
    }

    /// Sets the title, as given.
    pub fn set_title(&mut self, title: &str)
        ensures
            final(self)@ == (PostView { title: title@, ..old(self)@ }),
    {
        self.title = String::from_str(title);
    }

    /// Sets the address from the page's first info node.
    pub fn set_ip(&mut self, page: &PostPage)
        ensures
            final(self)@ == (PostView { ip: page_ip(page@.info), ..old(self)@ }),
    {
        self.ip = info_ip(&page.info);
    }

    /// Sets the author from an author line; a line with no handle leaves the
    /// post as it was.
    pub fn set_author(&mut self, user_line: &str) -> (r: Result<(), ExtractionError>)
        ensures
            match author_of(user_line@) {
                Some(u) => r is Ok && final(self)@ == (PostView { author: u, ..old(self)@ }),
                None => r == Err::<(), ExtractionError>(ExtractionError::InvalidAuthorLine)
                    && final(self)@ == old(self)@,
            },
    {
        match parse_author(user_line) {
            Some(u) => {
                self.author = u;
                Ok(())
            },
            None => Err(ExtractionError::InvalidAuthorLine),
        }
    }

    /// Sets the category from a title.
    pub fn set_category(&mut self, title: &str)
        ensures
            final(self)@ == (PostView { category: category_of(title@), ..old(self)@ }),
    {
        self.category = parse_category(title);
    }

    /// Sets the body from the page's content container; a page without one
    /// leaves the post as it was.
    pub fn set_content(&mut self, page: &PostPage) -> (r: Result<(), ExtractionError>)
        ensures
            match page@.content {
                Some(texts) => r is Ok && final(self)@ == (PostView {
                    content: page_content(texts),
                    ..old(self)@
                }),
                None => r == Err::<(), ExtractionError>(ExtractionError::DocumentStructureError)
                    && final(self)@ == old(self)@,
            },
    {
        match &page.content {
            Some(texts) => {
                self.content = content_text(texts);
                Ok(())
            },
            None => Err(ExtractionError::DocumentStructureError),
        }
    }

    /// Sets the comments from the page's push nodes, in page order.
    pub fn set_comments(&mut self, page: &PostPage)
        ensures
            final(self)@ == (PostView { comments: comments_of(page@.pushes), ..old(self)@ }),
    {
        self.comments = extract_comments(&page.pushes);
    }

    /// Extracts the post with this post's id and board from a page, all at once:
    /// either every field is read or the first error is returned.
    pub fn extract(&self, page: &PostPage) -> (r: Result<Post, ExtractionError>)
        ensures
            post_result_view(r) == post_of(self.id@, self.board@, page@),
    {
        let meta = collect_meta_values(&page.metalines);
        proof {
            assert(meta@.len() == strings_view(meta@).len());
        }
        if meta.len() < 1 {
            return Err(ExtractionError::MissingField(MetaField::Author));
        }
        if meta.len() < 2 {
            return Err(ExtractionError::MissingField(MetaField::Title));
        }
        if meta.len() < 3 {
            return Err(ExtractionError::MissingField(MetaField::Time));
        }
        proof {
            assert(strings_view(meta@)[0] == meta@[0]@);
            assert(strings_view(meta@)[1] == meta@[1]@);
            assert(strings_view(meta@)[2] == meta@[2]@);
        }
        let author = match parse_author(meta[0].as_str()) {
            Some(u) => u,
            None => {
                return Err(ExtractionError::InvalidAuthorLine);
            },
        };
        let content = match &page.content {
            Some(texts) => content_text(texts),
            None => {
                return Err(ExtractionError::DocumentStructureError);
            },
        };
        Ok(
            Post {
                id: self.id.clone(),
                author,
                title: meta[1].clone(),
                time: trim(meta[2].as_str()),
                content,
                comments: extract_comments(&page.pushes),
                ip: info_ip(&page.info),
                category: parse_category(meta[1].as_str()),
                board: self.board.clone(),
            },
        )
    }
}

} // verus!
