use ptt_crawler::{
    BoardPage, Comment, CommentType, Crawl, Decision, ExtractionError, MetaField, Paginator, Post,
    PostPage, PushNode, User, QUOTA,
};

fn some(s: &str) -> Option<String> {
    Some(s.to_string())
}

fn push(tag: &str, user: &str, content: &str, time: &str) -> PushNode {
    PushNode { tag: some(tag), user_id: some(user), content: some(content), time: some(time) }
}

fn sample_page() -> PostPage {
    PostPage {
        metalines: vec![
            some("alice (Alice A)"),
            None,
            some("[Baseball] Game thread"),
            some(" Sun Oct  1 12:00:00 2017 "),
        ],
        info: vec![
            "※ 發信站: 批踢踢實業坊(ptt.cc), 來自: 1.2.3.4".to_string(),
            "9.9.9.9".to_string(),
        ],
        content: Some(vec!["\n  Body text here.\n".to_string(), "second".to_string()]),
        pushes: vec![
            push("推 ", "bob", ": nice", " 10/01 12:01"),
            PushNode { tag: None, user_id: None, content: None, time: None },
            push("噓 ", "eve", ": bad ", "10/01 12:03\n"),
        ],
    }
}

#[test]
fn extract_full_post() {
    let post = Post::new("M.1.A.2".to_string(), "Baseball".to_string());
    let p = post.crawl(&sample_page()).unwrap();
    assert_eq!(p.id, "M.1.A.2");
    assert_eq!(p.board, "Baseball");
    assert_eq!(p.author, User::new("alice".to_string(), some("Alice A")));
    assert_eq!(p.title, "[Baseball] Game thread");
    assert_eq!(p.category, some("Baseball"));
    assert_eq!(p.time, "Sun Oct  1 12:00:00 2017");
    assert_eq!(p.content, "Body text here.");
    assert_eq!(p.ip, "1.2.3.4");
    assert_eq!(p.comments.len(), 3);
}

#[test]
fn comments_keep_node_order() {
    let post = Post::new("1".to_string(), "b".to_string());
    let p = post.crawl(&sample_page()).unwrap();
    let expected = vec![
        Comment::new(CommentType::Good, User::new("bob".to_string(), None), ": nice".to_string(), "10/01 12:01".to_string()),
        Comment::new(CommentType::Normal, User::new(String::new(), None), String::new(), String::new()),
        Comment::new(CommentType::Bad, User::new("eve".to_string(), None), ": bad".to_string(), "10/01 12:03".to_string()),
    ];
    assert_eq!(p.comments, expected);
}

#[test]
fn extraction_is_idempotent() {
    let post = Post::new("1".to_string(), "b".to_string());
    let page = sample_page();
    assert_eq!(post.crawl(&page), post.crawl(&page));
}

#[test]
fn missing_metadata_lines() {
    let post = Post::new("1".to_string(), "b".to_string());
    let mut page = sample_page();
    page.metalines = vec![some("alice"), some("title"), None];
    assert_eq!(post.crawl(&page), Err(ExtractionError::MissingField(MetaField::Time)));
    page.metalines = vec![some("alice")];
    assert_eq!(post.crawl(&page), Err(ExtractionError::MissingField(MetaField::Title)));
    page.metalines = vec![];
    assert_eq!(post.crawl(&page), Err(ExtractionError::MissingField(MetaField::Author)));
}

#[test]
fn invalid_author_line() {
    let post = Post::new("1".to_string(), "b".to_string());
    let mut page = sample_page();
    page.metalines[0] = some("");
    assert_eq!(post.crawl(&page), Err(ExtractionError::InvalidAuthorLine));
}

#[test]
fn missing_content_container() {
    let post = Post::new("1".to_string(), "b".to_string());
    let mut page = sample_page();
    page.content = None;
    assert_eq!(post.crawl(&page), Err(ExtractionError::DocumentStructureError));
}

#[test]
fn container_without_text_gives_empty_content() {
    let post = Post::new("1".to_string(), "b".to_string());
    let mut page = sample_page();
    page.content = Some(vec![]);
    page.info = vec![];
    let p = post.crawl(&page).unwrap();
    assert_eq!(p.content, "");
    assert_eq!(p.ip, "");
}

#[test]
fn bad_comment_markup_does_not_fail() {
    let post = Post::new("1".to_string(), "b".to_string());
    let mut page = sample_page();
    page.pushes = vec![PushNode { tag: some("??"), user_id: None, content: None, time: None }; 5];
    let p = post.crawl(&page).unwrap();
    assert_eq!(p.comments.len(), 5);
    assert!(p.comments.iter().all(|c| c.type_ == CommentType::Normal && c.content.is_empty()));
}

#[test]
fn setters_update_one_field() {
    let mut post = Post::new("1".to_string(), "b".to_string());
    post.set_title("[News] x");
    post.set_category("[News] x");
    post.set_time("  now ");
    assert_eq!(post.set_author("zed (Z)"), Ok(()));
    assert_eq!(post.set_author("   "), Err(ExtractionError::InvalidAuthorLine));
    let page = sample_page();
    post.set_ip(&page);
    assert_eq!(post.set_content(&page), Ok(()));
    post.set_comments(&page);
    assert_eq!(post.title, "[News] x");
    assert_eq!(post.category, some("News"));
    assert_eq!(post.time, "now");
    assert_eq!(post.author, User::new("zed".to_string(), some("Z")));
    assert_eq!(post.ip, "1.2.3.4");
    assert_eq!(post.content, "Body text here.");
    assert_eq!(post.comments.len(), 3);
    let mut no_container = page.clone();
    no_container.content = None;
    assert_eq!(post.set_content(&no_container), Err(ExtractionError::DocumentStructureError));
    assert_eq!(post.content, "Body text here.");
}

fn board_page(n: usize, older: Option<&str>) -> BoardPage {
    let mut titles = Vec::new();
    for i in 0..7 {
        titles.push(format!("  [NBA] game {} {}  ", n, i));
        titles.push(format!("[MLB] other {} {}", n, i));
    }
    titles.push("Re: [NBA] reply".to_string());
    BoardPage { titles, older: older.map(|s| s.to_string()) }
}

#[test]
fn sweep_stops_once_quota_is_met() {
    let pages = vec![
        board_page(1, Some("/bbs/NBA/index3.html")),
        board_page(2, Some("/bbs/NBA/index2.html")),
        board_page(3, Some("/bbs/NBA/index1.html")),
        board_page(4, None),
    ];
    let mut sweep = Paginator::new("NBA".to_string());
    assert_eq!(sweep.quota, QUOTA);
    let mut fetched = 1;
    let mut links = Vec::new();
    let mut current = 0;
    let end = loop {
        match sweep.step(&pages[current]) {
            Decision::Fetch(link) => {
                links.push(link);
                fetched += 1;
                current += 1;
            }
            other => break other,
        }
    };
    assert_eq!(end, Decision::Satisfied);
    assert_eq!(fetched, 3);
    assert_eq!(sweep.found.len(), 21);
    assert_eq!(links, vec!["/bbs/NBA/index3.html".to_string(), "/bbs/NBA/index2.html".to_string()]);
    assert_eq!(sweep.found[0], "[NBA] game 1 0");
    assert_eq!(sweep.found[20], "[NBA] game 3 6");
}

#[test]
fn sweep_ends_when_no_older_page() {
    let mut sweep = Paginator::new("NBA".to_string());
    assert_eq!(sweep.step(&board_page(1, Some("/older"))), Decision::Fetch("/older".to_string()));
    assert_eq!(sweep.step(&board_page(2, None)), Decision::Exhausted);
    assert_eq!(sweep.found.len(), 14);
}

#[test]
fn sweep_keyword_is_case_sensitive() {
    let mut sweep = Paginator::with_quota("nba".to_string(), 1);
    assert_eq!(sweep.step(&board_page(1, None)), Decision::Exhausted);
    assert!(sweep.found.is_empty());
    let mut sweep = Paginator::with_quota("MLB".to_string(), 7);
    assert_eq!(sweep.step(&board_page(1, Some("/x"))), Decision::Satisfied);
    assert_eq!(sweep.found.len(), 7);
}

#[test]
fn non_ascii_author_line_is_valid() {
    let post = Post::new("1".to_string(), "b".to_string());
    let mut page = sample_page();
    page.metalines[0] = some("王");
    let p = post.crawl(&page).unwrap();
    assert_eq!(p.author, User::new("王".to_string(), None));
    page.content = None;
    assert_eq!(post.crawl(&page), Err(ExtractionError::DocumentStructureError));
    let mut q = Post::new("1".to_string(), "b".to_string());
    assert_eq!(q.set_author("王小明 (Wang)"), Ok(()));
    assert_eq!(q.author, User::new("王小明".to_string(), some("Wang")));
}
