//! Extraction of posts, authors and comments from pages of a discussion board,
//! and the decisions of a sweep over a board's paginated index.

pub mod text;
pub mod user;
pub mod comment;
pub mod field;
pub mod post;
pub mod crawler;
pub mod board;

pub use board::{BoardPage, Decision, Paginator, QUOTA};
pub use comment::{Comment, CommentType, PushNode};
pub use crawler::Crawl;
pub use post::{ExtractionError, MetaField, Post, PostPage};
pub use user::User;
