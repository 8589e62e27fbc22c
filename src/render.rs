//! Rendering of posts and their comment trees into quoted markdown.

use vstd::prelude::*;
use vstd::string::StringExecFns;
use crate::text::{lemma_requote_concat, quote, quoted, requote};

verus! {

broadcast use vstd::std_specs::vec::group_vec_axioms;

/// The replies of a comment, as the forum hands them over.
pub enum Replies {
    /// A list of reply comments, in the forum's order.
    Listing(Vec<Comment>),
    /// A value that stands for "no further replies".
    Sentinel,
    /// No replies field at all.
    Absent,
}

/// One node of a comment tree. A comment without an author (deleted or
/// removed) renders as an empty quoted block.
pub struct Comment {
    pub author: Option<String>,
    pub body: Option<String>,
    pub replies: Replies,
}

/// A post: its identifier, used to fetch its comments, its title and its text.
pub struct Post {
    pub id: String,
    pub title: String,
    pub selftext: String,
}

/// An authored comment that came without a body.
#[derive(Debug, PartialEq, Eq, Structural, Clone, Copy)]
pub enum RenderError {
    MissingBody,
}

/// The text block of an authored comment, before quoting and before its replies.
pub open spec fn comment_head(author: Seq<char>, body: Seq<char>) -> Seq<char> {
    seq!['\n', '\n', '*', '*', ' '] + author + seq![' ', '-', '-', ' ', '*', '*', '\n'] + body
        + seq!['\n']
}

/// The rendering of a comment, or `None` where an authored comment of its
/// tree (its replies walked only below authored comments) lacks a body.
pub open spec fn rendering(c: Comment) -> Option<Seq<char>>
    decreases c,
{
    match c.author {
        None => Some(quoted(Seq::empty())),
        Some(a) => match c.body {
            None => None,
            Some(b) => {
                let replies = match c.replies {
                    Replies::Listing(v) => rendering_all(v@),
                    _ => Some(Seq::empty()),
                };
                match replies {
                    None => None,
                    Some(t) => Some(quoted(comment_head(a@, b@) + t)),
                }
            },
        },
    }
}

/// The renderings of `cs` one after the other, or `None` where one of them fails.
pub open spec fn rendering_all(cs: Seq<Comment>) -> Option<Seq<char>>
    decreases cs,
{
    if cs.len() == 0 {
        Some(Seq::empty())
    } else {
        match rendering_all(cs.drop_last()) {
            None => None,
            Some(front) => match rendering(cs.last()) {
                None => None,
                Some(t) => Some(front + t),
            },
        }
    }
}

/// Where a prefix of `cs` fails to render, so does `cs`.
proof fn lemma_rendering_all_prefix_fails(cs: Seq<Comment>, k: int)
    requires
        0 <= k <= cs.len(),
        rendering_all(cs.take(k)) is None,
    ensures
        rendering_all(cs) is None,
    decreases cs.len() - k,
{
    if k < cs.len() {
        assert(cs.take(k + 1).drop_last() =~= cs.take(k));
        lemma_rendering_all_prefix_fails(cs, k + 1);
    } else {
        assert(cs.take(k) =~= cs);
    }
}

/// The rendered texts of `cs`, each with one more quote marker after every
/// newline, one after the other. A comment that fails to render adds nothing.
pub open spec fn nested_all(cs: Seq<Comment>) -> Seq<char>
    decreases cs.len(),
{
    if cs.len() == 0 {
        Seq::empty()
    } else {
        nested_all(cs.drop_last()) + requote(rendering(cs.last()).unwrap_or(Seq::empty()))
    }
}

proof fn lemma_requote_rendering_all(cs: Seq<Comment>)
    requires
        rendering_all(cs) is Some,
    ensures
        requote(rendering_all(cs).unwrap()) == nested_all(cs),
    decreases cs.len(),
{
    if cs.len() > 0 {
        lemma_requote_rendering_all(cs.drop_last());
        lemma_requote_concat(
            rendering_all(cs.drop_last()).unwrap(),
            rendering(cs.last()).unwrap(),
        );
    }
}

/// A rendered authored comment with a list of replies is its quoted head,
/// followed by the rendered text of each reply in the order given, every line
/// of which stands behind one more quote marker than in the reply's own text.
pub proof fn lemma_replies_nested(c: Comment)
    requires
        c.author is Some,
        c.body is Some,
        c.replies is Listing,
        rendering(c) is Some,
    ensures
        rendering(c) == Some(
            seq!['>'] + requote(comment_head(c.author.unwrap()@, c.body.unwrap()@))
                + nested_all(c.replies->Listing_0@),
        ),
{
    let cs = c.replies->Listing_0@;
    let head = comment_head(c.author.unwrap()@, c.body.unwrap()@);
    lemma_requote_rendering_all(cs);
    lemma_requote_concat(head, rendering_all(cs).unwrap());
    assert(rendering(c).unwrap() =~= seq!['>'] + requote(head) + nested_all(cs));
}

/// Renders one comment and, below an author, its replies in order, all
/// wrapped in one level of quoting. `depth` is the nesting level; it does not
/// change the text.
pub fn parse_comment(comment: &Comment, depth: u32) -> (r: Result<String, RenderError>)
    ensures
        match r {
            Ok(s) => rendering(*comment) == Some(s@),
            Err(_) => rendering(*comment) is None,
        },
        comment.author is None ==> (r matches Ok(s) && s@ == quoted(Seq::empty())),
    decreases comment,
{
    let mut output = String::new();
    match &comment.author {
        None => {},
        Some(author) => {
            let body = match &comment.body {
                None => {
                    return Err(RenderError::MissingBody);
                },
                Some(b) => b,
            };
            output.append("\n\n** ");
            output.append(author.as_str());
            output.append(" -- **\n");
            output.append(body.as_str());
            output.append("\n");
            proof {
                reveal_strlit("\n\n** ");
                reveal_strlit(" -- **\n");
                reveal_strlit("\n");
                assert(output@ =~= comment_head(author@, body@));
            }
            match &comment.replies {
                Replies::Listing(replies) => {
                    let next: u32 = if depth < u32::MAX {
                        depth + 1
                    } else {
                        depth
                    };
                    let text = render_replies(replies, next)?;
                    output.append(text.as_str());
                },
                _ => {},
            }
        },
    }
    proof {
        assert(comment.author is None ==> output@ =~= Seq::<char>::empty());
    }
    Ok(quote(output.as_str()))
}

/// Renders each comment of `comments` at `depth`, and joins the results in order.
pub fn render_replies(comments: &Vec<Comment>, depth: u32) -> (r: Result<String, RenderError>)
    ensures
        match r {
            Ok(s) => rendering_all(comments@) == Some(s@),
            Err(_) => rendering_all(comments@) is None,
        },
    decreases comments,
{
    let mut output = String::new();
    let mut i: usize = 0;
    assert(comments@.take(0) =~= Seq::<Comment>::empty());
    while i < comments.len()
        invariant
            0 <= i <= comments.len(),
            rendering_all(comments@.take(i as int)) == Some(output@),
        decreases comments.len() - i,
    {
        assert(comments@.take(i + 1).drop_last() =~= comments@.take(i as int));
        assert(comments@.take(i + 1).last() == comments@[i as int]);
        proof {
            assert(decreases_to!(comments@ => comments@[i as int]));
            assert(decreases_to!(*comments => comments@));
        }
        match parse_comment(&comments[i], depth) {
            Err(e) => {
                proof {
                    lemma_rendering_all_prefix_fails(comments@, i + 1);
                }
                return Err(e);
            },
            Ok(t) => {
                output.append(t.as_str());
            },
        }
        i = i + 1;
    }
    assert(comments@.take(i as int) =~= comments@);
    Ok(output)
}

/// The header of a post's rendering: a heading with its title, then its text.
pub open spec fn post_head(title: Seq<char>, selftext: Seq<char>) -> Seq<char> {
    seq!['#'] + title + seq!['\n'] + selftext
}

/// The rendering of a post with its top-level comments, or `None` where a
/// comment fails to render.
pub open spec fn post_rendering(post: Post, comments: Seq<Comment>) -> Option<Seq<char>> {
    match rendering_all(comments) {
        None => None,
        Some(t) => Some(post_head(post.title@, post.selftext@) + t),
    }
}

/// Renders a post from its fetched top-level comments, each at depth zero.
pub fn parse_post(post: &Post, comments: &Vec<Comment>) -> (r: Result<String, RenderError>)
    ensures
        match r {
            Ok(s) => post_rendering(*post, comments@) == Some(s@),
            Err(_) => post_rendering(*post, comments@) is None,
        },
{
    let mut output = String::new();
    output.append("#");
    output.append(post.title.as_str());
    output.append("\n");
    output.append(post.selftext.as_str());
    proof {
        reveal_strlit("#");
        reveal_strlit("\n");
        assert(output@ =~= post_head(post.title@, post.selftext@));
    }
    let text = render_replies(comments, 0)?;
    output.append(text.as_str());
    Ok(output)
}

} // verus!
