use reddit_ebook::render::{parse_comment, parse_post, render_replies, Comment, Post, RenderError, Replies};
use reddit_ebook::text::{clean_markdown, quote};

fn authored(author: &str, body: &str, replies: Replies) -> Comment {
    Comment { author: Some(author.to_string()), body: Some(body.to_string()), replies }
}

#[test]
fn quote_empty_is_one_marker() {
    assert_eq!(quote(""), ">");
}

#[test]
fn quote_marks_every_line() {
    assert_eq!(quote("a\nb\n"), ">a\n>b\n>");
}

#[test]
fn quote_adds_one_level_to_quoted_lines() {
    let once = quote("x\ny");
    let twice = quote(&once);
    assert_eq!(twice, ">>x\n>>y");
    assert_eq!(once.lines().count(), twice.lines().count());
    for (a, b) in once.lines().zip(twice.lines()) {
        assert_eq!(format!(">{}", a), b);
    }
}

#[test]
fn clean_markdown_replaces_artifact() {
    assert_eq!(clean_markdown("a&amp;#x200B;b"), "a\nb");
    assert_eq!(clean_markdown("&amp;#x200B;&amp;#x200B;"), "\n\n");
}

#[test]
fn clean_markdown_leaves_other_entities() {
    assert_eq!(clean_markdown("&amp; &lt; &amp;#x200C;"), "&amp; &lt; &amp;#x200C;");
    assert_eq!(clean_markdown("&amp;&amp;#x200B;"), "&amp;\n");
    assert_eq!(clean_markdown("é&amp;#x200B"), "é&amp;#x200B");
}

#[test]
fn authorless_comment_renders_empty_quote() {
    let child = authored("bob", "Yo", Replies::Absent);
    let c = Comment {
        author: None,
        body: Some("removed".to_string()),
        replies: Replies::Listing(vec![child]),
    };
    assert_eq!(parse_comment(&c, 0), Ok(">".to_string()));
    let bare = Comment { author: None, body: None, replies: Replies::Sentinel };
    assert_eq!(parse_comment(&bare, 3), Ok(">".to_string()));
}

#[test]
fn comment_without_replies() {
    let c = authored("alice", "Hi", Replies::Absent);
    assert_eq!(parse_comment(&c, 0), Ok(">\n>\n>** alice -- **\n>Hi\n>".to_string()));
    let s = authored("alice", "Hi", Replies::Sentinel);
    assert_eq!(parse_comment(&s, 0), Ok(">\n>\n>** alice -- **\n>Hi\n>".to_string()));
    let e = authored("alice", "Hi", Replies::Listing(vec![]));
    assert_eq!(parse_comment(&e, 0), Ok(">\n>\n>** alice -- **\n>Hi\n>".to_string()));
}

#[test]
fn replies_are_nested_in_order() {
    let bob = authored("bob", "Yo", Replies::Absent);
    let carol = authored("carol", "Hey", Replies::Absent);
    let c = authored("alice", "Hi", Replies::Listing(vec![bob, carol]));
    let out = parse_comment(&c, 0).unwrap();
    assert_eq!(
        out,
        ">\n>\n>** alice -- **\n>Hi\n>>\n>>\n>>** bob -- **\n>>Yo\n>>>\n>>\n>>** carol -- **\n>>Hey\n>>"
    );
}

#[test]
fn deep_reply_gets_one_marker_per_level() {
    let dave = authored("dave", "deep", Replies::Absent);
    let bob = authored("bob", "Yo", Replies::Listing(vec![dave]));
    let c = authored("alice", "Hi", Replies::Listing(vec![bob]));
    let out = parse_comment(&c, 0).unwrap();
    assert!(out.contains("\n>>>** dave -- **\n>>>deep\n>>>"));
}

#[test]
fn authored_comment_without_body_is_an_error() {
    let c = Comment { author: Some("alice".to_string()), body: None, replies: Replies::Absent };
    assert_eq!(parse_comment(&c, 0), Err(RenderError::MissingBody));
    let bad = Comment { author: Some("bob".to_string()), body: None, replies: Replies::Absent };
    let parent = authored("alice", "Hi", Replies::Listing(vec![bad]));
    assert_eq!(parse_comment(&parent, 0), Err(RenderError::MissingBody));
}

#[test]
fn render_replies_joins_in_order() {
    let a = authored("a", "1", Replies::Absent);
    let b = Comment { author: None, body: None, replies: Replies::Absent };
    assert_eq!(render_replies(&vec![a, b], 0), Ok(">\n>\n>** a -- **\n>1\n>>".to_string()));
    assert_eq!(render_replies(&vec![], 0), Ok(String::new()));
}

#[test]
fn post_with_one_comment() {
    let post = Post { id: "p1".to_string(), title: "Hello".to_string(), selftext: "World".to_string() };
    let comments = vec![authored("alice", "Hi", Replies::Absent)];
    assert_eq!(
        parse_post(&post, &comments),
        Ok("#Hello\nWorld>\n>\n>** alice -- **\n>Hi\n>".to_string())
    );
    assert_eq!(parse_post(&post, &vec![]), Ok("#Hello\nWorld".to_string()));
}
