//! The extraction contract: an entity read from a parsed page, or a typed error.

use vstd::prelude::*;
use crate::post::{ExtractionError, PageView, Post, PostPage, PostView, post_of};

verus! {

/// An extractor of one kind of entity from a parsed page. Extraction is a
/// function of the extractor and the page alone.
pub trait Crawl: Sized {
    type Target: View;

    /// What extraction yields on a page, in terms of the target's view.
    spec fn crawled(&self, page: PageView) -> Result<<Self::Target as View>::V, ExtractionError>;

    fn crawl(&self, page: &PostPage) -> (r: Result<Self::Target, ExtractionError>)
        ensures
            match r {
                Ok(t) => self.crawled(page@) == Ok::<<Self::Target as View>::V, ExtractionError>(t@),
                Err(e) => self.crawled(page@) == Err::<<Self::Target as View>::V, ExtractionError>(e),
            },
    ;
}

impl Crawl for Post {
    type Target = Post;

    open spec fn crawled(&self, page: PageView) -> Result<PostView, ExtractionError> {
        post_of(self.id@, self.board@, page)
    }

    fn crawl(&self, page: &PostPage) -> (r: Result<Post, ExtractionError>) {
        self.extract(page)
    }
}

} // verus!
