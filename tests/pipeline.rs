use reddit_ebook::pipeline::{
    converter_arguments, converter_command, is_md_extension, requires_conversion, Action, Event,
    Pipeline, PipelineError, Stage,
};
use reddit_ebook::render::{Comment, Post, Replies};

const ARGS: &str = "--chapter \"//h:h1\" --smarten-punctuation --markdown-extensions meta";

fn post(id: &str, title: &str, body: &str) -> Post {
    Post { id: id.to_string(), title: title.to_string(), selftext: body.to_string() }
}

fn alice_hi() -> Comment {
    Comment { author: Some("alice".to_string()), body: Some("Hi".to_string()), replies: Replies::Absent }
}

fn pipeline(output: &str) -> Pipeline {
    Pipeline::new(
        "test".to_string(),
        output.to_string(),
        10,
        "/usr/bin/ebook-convert".to_string(),
        ARGS.to_string(),
    )
}

fn expect_fetch(a: Action, id: &str) {
    match a {
        Action::FetchComments { post_id } => assert_eq!(post_id, id),
        other => panic!("unexpected action {:?}", other),
    }
}

#[test]
fn markdown_output_is_written_without_conversion() {
    let mut p = pipeline("out.md");
    match p.start() {
        Action::ListPosts { subreddit, count } => {
            assert_eq!(subreddit, "test");
            assert_eq!(count, 10);
        },
        other => panic!("unexpected action {:?}", other),
    }
    expect_fetch(p.step(Event::PostsListed(vec![post("p1", "Hello", "World")])), "p1");
    match p.step(Event::CommentsFetched(vec![alice_hi()])) {
        Action::WriteFile { path, contents } => {
            assert_eq!(path, "out.md");
            assert_eq!(
                contents,
                "---\ntitle: /r/test\n---\n\n#Hello\nWorld>\n>\n>** alice -- **\n>Hi\n>"
            );
            assert!(contents.contains("alice -- "));
        },
        other => panic!("unexpected action {:?}", other),
    }
    assert!(matches!(p.step(Event::Written), Action::Finish));
    assert_eq!(p.stage, Stage::Done);
}

#[test]
fn other_extension_runs_the_converter() {
    let mut p = pipeline("book.epub");
    expect_fetch(p.step(Event::PostsListed(vec![post("p1", "T", "")])), "p1");
    match p.step(Event::CommentsFetched(vec![])) {
        Action::WriteFile { path, contents } => {
            assert_eq!(path, "book.md");
            assert_eq!(contents, "---\ntitle: /r/test\n---\n\n#T\n");
        },
        other => panic!("unexpected action {:?}", other),
    }
    match p.step(Event::Written) {
        Action::RunConverter { program, args } => {
            assert_eq!(program, "/usr/bin/ebook-convert");
            assert_eq!(
                args,
                vec![
                    "book.md",
                    "book.epub",
                    "--chapter",
                    "//h:h1",
                    "--smarten-punctuation",
                    "--markdown-extensions",
                    "meta"
                ]
            );
        },
        other => panic!("unexpected action {:?}", other),
    }
    assert_eq!(p.stage, Stage::Converting);
    assert!(matches!(p.step(Event::Converted), Action::Finish));
}

#[test]
fn failed_second_fetch_writes_nothing() {
    let mut p = pipeline("out.epub");
    expect_fetch(p.step(Event::PostsListed(vec![post("a", "A", "x"), post("b", "B", "y")])), "a");
    expect_fetch(p.step(Event::CommentsFetched(vec![alice_hi()])), "b");
    assert!(matches!(p.step(Event::FetchFailed), Action::Abort(PipelineError::Fetch)));
    assert_eq!(p.stage, Stage::Failed(PipelineError::Fetch));
    assert!(matches!(p.step(Event::Written), Action::Abort(PipelineError::Fetch)));
    assert!(matches!(p.step(Event::CommentsFetched(vec![])), Action::Abort(PipelineError::Fetch)));
}

#[test]
fn failed_listing_aborts() {
    let mut p = pipeline("out.md");
    assert!(matches!(p.step(Event::FetchFailed), Action::Abort(PipelineError::Fetch)));
}

#[test]
fn no_posts_writes_the_header_only() {
    let mut p = pipeline("out.md");
    match p.step(Event::PostsListed(vec![])) {
        Action::WriteFile { path, contents } => {
            assert_eq!(path, "out.md");
            assert_eq!(contents, "---\ntitle: /r/test\n---\n\n");
        },
        other => panic!("unexpected action {:?}", other),
    }
}

#[test]
fn missing_body_aborts_with_integrity_error() {
    let mut p = pipeline("out.md");
    expect_fetch(p.step(Event::PostsListed(vec![post("a", "A", "x")])), "a");
    let bad = Comment { author: Some("z".to_string()), body: None, replies: Replies::Absent };
    assert!(matches!(
        p.step(Event::CommentsFetched(vec![bad])),
        Action::Abort(PipelineError::DataIntegrity)
    ));
}

#[test]
fn write_failure_aborts_with_io_error() {
    let mut p = pipeline("out.epub");
    assert!(matches!(p.step(Event::PostsListed(vec![])), Action::WriteFile { .. }));
    assert!(matches!(p.step(Event::WriteFailed), Action::Abort(PipelineError::Io)));
}

#[test]
fn converter_failure_aborts() {
    let mut p = pipeline("out.epub");
    p.step(Event::PostsListed(vec![]));
    assert!(matches!(p.step(Event::Written), Action::RunConverter { .. }));
    assert!(matches!(p.step(Event::ConvertFailed), Action::Abort(PipelineError::Conversion)));
}

#[test]
fn untokenizable_arguments_abort_before_converting() {
    let mut p = Pipeline::new(
        "test".to_string(),
        "out.epub".to_string(),
        1,
        "conv".to_string(),
        "--x \"open".to_string(),
    );
    p.step(Event::PostsListed(vec![]));
    assert!(matches!(p.step(Event::Written), Action::Abort(PipelineError::Conversion)));
}

#[test]
fn converter_arguments_tokenize() {
    assert_eq!(
        converter_arguments("a.md", "a.mobi", "-x 'two words' y\\ z").unwrap(),
        vec!["a.md", "a.mobi", "-x", "two words", "y z"]
    );
    assert_eq!(converter_arguments("a.md", "a.mobi", "'open"), Err(PipelineError::Conversion));
    assert_eq!(converter_arguments("a.md", "a.mobi", "").unwrap(), vec!["a.md", "a.mobi"]);
}

#[test]
fn converter_command_puts_paths_first() {
    let r = converter_command("in.md", "out.pdf", vec!["-v".to_string()]);
    assert_eq!(r, vec!["in.md", "out.pdf", "-v"]);
}

#[test]
fn conversion_follows_the_extension() {
    assert!(!requires_conversion("notes.md"));
    assert!(!requires_conversion("dir/notes.md"));
    assert!(requires_conversion("notes.epub"));
    assert!(requires_conversion("notes"));
    assert!(requires_conversion("notes.MD"));
    assert!(is_md_extension("md"));
    assert!(!is_md_extension("mdx"));
}

#[test]
fn markdown_path_replaces_the_extension() {
    assert_eq!(pipeline("dir/book.epub").markdown_path, "dir/book.md");
    assert_eq!(pipeline("book").markdown_path, "book.md");
}
