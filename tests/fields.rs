use ptt_crawler::comment::{classify_tag, extract_comment};
use ptt_crawler::field::{find_ip, parse_category};
use ptt_crawler::text::trim;
use ptt_crawler::user::parse_author;
use ptt_crawler::{CommentType, PushNode, User};

fn some(s: &str) -> Option<String> {
    Some(s.to_string())
}

#[test]
fn author_with_display_name() {
    let u = parse_author("alice (Alice A)").unwrap();
    assert_eq!(u, User::new("alice".to_string(), some("Alice A")));
}

#[test]
fn author_without_display_name() {
    let u = parse_author("bob").unwrap();
    assert_eq!(u.id, "bob");
    assert_eq!(u.name, None);
}

#[test]
fn empty_author_line_is_invalid() {
    assert!(parse_author("").is_none());
    assert!(parse_author("  ( )").is_none());
}

#[test]
fn author_name_runs_to_last_parenthesis() {
    let u = parse_author("  carol_9 (Carol (C)) tail").unwrap();
    assert_eq!(u.id, "carol_9");
    assert_eq!(u.name, some("Carol (C)"));
}

#[test]
fn author_without_space_before_parenthesis_has_no_name() {
    let u = parse_author("dave(Dave)").unwrap();
    assert_eq!(u.id, "dave");
    assert_eq!(u.name, None);
}

#[test]
fn category_from_leading_brackets() {
    assert_eq!(parse_category("[Baseball] Game thread"), some("Baseball"));
    assert_eq!(parse_category("Game thread"), None);
    assert_eq!(parse_category("Game [Baseball] thread"), None);
    assert_eq!(parse_category("[] empty"), some(""));
    assert_eq!(parse_category("[open"), None);
}

#[test]
fn ip_plain_address() {
    assert_eq!(find_ip("※ 發信站: 批踢踢實業坊(ptt.cc), 來自: 1.2.3.4 (臺灣)"), "1.2.3.4");
}

#[test]
fn ip_partial_groups() {
    assert_eq!(find_ip("from 36.23.1.x"), "36.23.1.");
    assert_eq!(find_ip("from 36.23..*"), "36.23..");
}

#[test]
fn ip_groups_are_at_most_four_digits() {
    assert_eq!(find_ip("ip 12345.6.7.8 end"), "2345.6.7.8");
    assert_eq!(find_ip("1.2.3.456789"), "1.2.3.4567");
}

#[test]
fn ip_absent() {
    assert_eq!(find_ip("no address here"), "");
    assert_eq!(find_ip("36.23.*.*"), "");
    assert_eq!(find_ip(""), "");
}

#[test]
fn trim_removes_unicode_whitespace() {
    assert_eq!(trim("  a b \u{3000}\n"), "a b");
    assert_eq!(trim(" \t "), "");
}

#[test]
fn comment_classification() {
    assert_eq!(classify_tag(&some("推 ")), CommentType::Good);
    assert_eq!(classify_tag(&some("噓 ")), CommentType::Bad);
    assert_eq!(classify_tag(&some("→ ")), CommentType::Normal);
    assert_eq!(classify_tag(&some("推推")), CommentType::Normal);
    assert_eq!(classify_tag(&None), CommentType::Normal);
}

#[test]
fn comment_with_missing_parts() {
    let p = PushNode { tag: None, user_id: None, content: None, time: None };
    let c = extract_comment(&p);
    assert_eq!(c.type_, CommentType::Normal);
    assert_eq!(c.user, User::new(String::new(), None));
    assert_eq!(c.content, "");
    assert_eq!(c.time, "");
}

#[test]
fn comment_with_all_parts() {
    let p = PushNode {
        tag: some("噓 "),
        user_id: some("eve"),
        content: some(": no way  "),
        time: some(" 10/01 12:00\n"),
    };
    let c = extract_comment(&p);
    assert_eq!(c.type_, CommentType::Bad);
    assert_eq!(c.user.id, "eve");
    assert_eq!(c.user.name, None);
    assert_eq!(c.content, ": no way");
    assert_eq!(c.time, "10/01 12:00");
}

#[test]
fn author_with_non_ascii_handle() {
    let u = parse_author("王小明 (Wang)").unwrap();
    assert_eq!(u.id, "王小明");
    assert_eq!(u.name, some("Wang"));
    let u = parse_author("王").unwrap();
    assert_eq!(u.id, "王");
    assert_eq!(u.name, None);
    let u = parse_author("-- élan_2").unwrap();
    assert_eq!(u.id, "élan_2");
}

#[test]
fn ip_with_full_width_digits() {
    assert_eq!(find_ip("來自: １.２.３.４ (臺灣)"), "１.２.３.４");
    assert_eq!(find_ip("x ١٢.٣.٤.٥ y"), "١٢.٣.٤.٥");
}

#[test]
fn category_stops_at_line_break() {
    assert_eq!(parse_category("[A\nB] title"), None);
    assert_eq!(parse_category("[A] x\n[B]"), some("A"));
}
