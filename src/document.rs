//! Assembly of the whole document from the rendered posts.

use vstd::prelude::*;
use vstd::string::StringExecFns;
use crate::text::{artifact, artifact_at, clean_markdown, cleaned};

verus! {

/// The block that opens the document of the forum `name`.
pub open spec fn header_of(name: Seq<char>) -> Seq<char> {
    seq!['-', '-', '-', '\n', 't', 'i', 't', 'l', 'e', ':', ' ', '/', 'r', '/'] + name + seq![
        '\n',
        '-',
        '-',
        '-',
        '\n',
        '\n',
    ]
}

/// The texts of `parts`, one after the other.
pub open spec fn joined(parts: Seq<Seq<char>>) -> Seq<char>
    decreases parts.len(),
{
    if parts.len() == 0 {
        Seq::empty()
    } else {
        joined(parts.drop_last()) + parts.last()
    }
}

/// The document of the forum `name` with the rendered posts `posts`, in order,
/// after the cleanup pass.
pub open spec fn document_of(name: Seq<char>, posts: Seq<Seq<char>>) -> Seq<char> {
    cleaned(header_of(name) + joined(posts))
}

/// Builds the header block of the document of the forum `name`.
pub fn document_header(name: &str) -> (r: String)
    ensures
        r@ == header_of(name@),
{
    let mut r = String::new();
    r.append("---\ntitle: /r/");
    r.append(name);
    r.append("\n---\n\n");
    proof {
        reveal_strlit("---\ntitle: /r/");
        reveal_strlit("\n---\n\n");
        assert(r@ =~= header_of(name@));
    }
    r
}

/// Joins the header of the forum `name` and the rendered posts in their
/// order, then replaces each zero-width-space artifact by a newline.
pub fn assemble(name: &str, posts: &Vec<String>) -> (r: String)
    ensures
        r@ == document_of(name@, posts@.map_values(|p: String| p@)),
{
    let ghost views = posts@.map_values(|p: String| p@);
    let mut out = document_header(name);
    let mut i: usize = 0;
    assert(views.take(0) =~= Seq::<Seq<char>>::empty());
    while i < posts.len()
        invariant
            0 <= i <= posts.len(),
            views == posts@.map_values(|p: String| p@),
            out@ == header_of(name@) + joined(views.take(i as int)),
        decreases posts.len() - i,
    {
        assert(views.take(i + 1).drop_last() =~= views.take(i as int));
        out.append(posts[i].as_str());
        i = i + 1;
        assert(out@ =~= header_of(name@) + joined(views.take(i as int)));
    }
    assert(views.take(i as int) =~= views);
    clean_markdown(out.as_str())
}

/// Where `s` holds no occurrence of the artifact, the cleanup pass leaves it
/// exactly as it is; an occurrence in front becomes one newline.
pub proof fn lemma_cleanup_alters_only_artifacts(s: Seq<char>, t: Seq<char>)
    requires
        forall|i: int| !#[trigger] artifact_at(s, i),
    ensures
        cleaned(s) == s,
        cleaned(artifact() + t) == seq!['\n'] + cleaned(t),
    decreases s.len(),
{
    let a = artifact() + t;
    assert(a.subrange(0, 12) =~= artifact());
    assert(a.skip(12) =~= t);
    if s.len() > 0 {
        let r = s.drop_first();
        assert forall|i: int| !#[trigger] artifact_at(r, i) by {
            if artifact_at(r, i) {
                assert(r.subrange(i, i + 12) =~= s.subrange(i + 1, i + 13));
                assert(artifact_at(s, i + 1));
            }
        }
        lemma_cleanup_alters_only_artifacts(r, t);
        assert(!artifact_at(s, 0));
        assert(cleaned(s) =~= s);
    }
}

/// The document of a forum with no posts is its header block and nothing
/// else, for a name that holds no artifact.
pub proof fn lemma_empty_document(name: Seq<char>)
    requires
        forall|i: int| !#[trigger] artifact_at(name, i),
    ensures
        document_of(name, Seq::empty()) == header_of(name),
{
    let h = header_of(name);
    let n = name.len() as int;
    assert(h + joined(Seq::<Seq<char>>::empty()) =~= h);
    assert forall|i: int| !#[trigger] artifact_at(h, i) by {
        if artifact_at(h, i) {
            let w = h.subrange(i, i + 12);
            assert(w[0] == h[i]);
            if i < 14 || i >= 14 + n {
                assert(h[i] != '&');
            } else if i + 12 <= 14 + n {
                assert(w =~= name.subrange(i - 14, i - 2));
                assert(artifact_at(name, i - 14));
            } else {
                let k = 14 + n - i;
                assert(w[k] == h[14 + n]);
                assert(h[14 + n] == '\n');
                assert(artifact()[k] != '\n');
            }
        }
    }
    lemma_cleanup_alters_only_artifacts(h, Seq::empty());
}

} // verus!
