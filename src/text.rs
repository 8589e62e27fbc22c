//! Plain text transforms: block quoting and the cleanup of the rendered document.

use vstd::prelude::*;

verus! {

/// Each newline of `s` followed by one quote marker: the body of a quoted block.
pub open spec fn requote(s: Seq<char>) -> Seq<char>
    decreases s.len(),
{
    if s.len() == 0 {
        Seq::empty()
    } else if s[0] == '\n' {
        seq!['\n', '>'] + requote(s.drop_first())
    } else {
        seq![s[0]] + requote(s.drop_first())
    }
}

/// `s` as a block quote: one marker at the start and one after every newline.
pub open spec fn quoted(s: Seq<char>) -> Seq<char> {
    seq!['>'] + requote(s)
}

/// Quoting the body of a block is done piece by piece: the body of `a + b`
/// is the body of `a` followed by the body of `b`.
pub proof fn lemma_requote_concat(a: Seq<char>, b: Seq<char>)
    ensures
        requote(a + b) == requote(a) + requote(b),
    decreases a.len(),
{
    if a.len() == 0 {
        assert(a + b =~= b);
    } else {
        assert((a + b).drop_first() =~= a.drop_first() + b);
        lemma_requote_concat(a.drop_first(), b);
        assert(requote(a + b) =~= requote(a) + requote(b));
    }
}

/// The lines of `s`: the pieces between its newlines, so one more than it
/// has newlines.
pub open spec fn split_lines(s: Seq<char>) -> Seq<Seq<char>>
    decreases s.len(),
{
    if s.len() == 0 {
        seq![Seq::empty()]
    } else {
        let rest = split_lines(s.drop_first());
        if s[0] == '\n' {
            seq![Seq::<char>::empty()] + rest
        } else {
            rest.update(0, seq![s[0]] + rest[0])
        }
    }
}

proof fn lemma_split_lines_nonempty(s: Seq<char>)
    ensures
        split_lines(s).len() >= 1,
    decreases s.len(),
{
    if s.len() > 0 {
        lemma_split_lines_nonempty(s.drop_first());
    }
}

/// The lines of `s`, each but the first behind one more quote marker.
pub open spec fn marked_after_first(ls: Seq<Seq<char>>) -> Seq<Seq<char>> {
    Seq::new(ls.len(), |i: int| if i == 0 { ls[0] } else { seq!['>'] + ls[i] })
}

proof fn lemma_split_requote(s: Seq<char>)
    ensures
        split_lines(requote(s)) == marked_after_first(split_lines(s)),
    decreases s.len(),
{
    lemma_split_lines_nonempty(s);
    if s.len() == 0 {
        assert(split_lines(requote(s)) =~= marked_after_first(split_lines(s)));
    } else {
        let t = s.drop_first();
        lemma_split_requote(t);
        lemma_split_lines_nonempty(t);
        let rt = requote(t);
        lemma_split_lines_nonempty(rt);
        if s[0] == '\n' {
            let inner = seq!['>'] + rt;
            assert((seq!['\n', '>'] + rt).drop_first() =~= inner);
            assert(inner.drop_first() =~= rt);
            assert(requote(s) == seq!['\n', '>'] + rt);
            assert(split_lines(requote(s)) == seq![Seq::<char>::empty()] + split_lines(inner));
            assert(split_lines(inner) == split_lines(rt).update(0, seq!['>'] + split_lines(rt)[0]));
            assert(split_lines(s) == seq![Seq::<char>::empty()] + split_lines(t));
            assert(split_lines(requote(s)) =~= marked_after_first(split_lines(s)));
        } else {
            assert((seq![s[0]] + rt).drop_first() =~= rt);
            assert(split_lines(requote(s)) =~= marked_after_first(split_lines(s)));
        }
    }
}

/// Quoting a text of k lines gives k lines, each of them the line of the text
/// behind exactly one more quote marker.
pub proof fn lemma_quote_marks_each_line(s: Seq<char>)
    ensures
        split_lines(quoted(s)).len() == split_lines(s).len(),
        forall|i: int|
            0 <= i < split_lines(s).len() ==> #[trigger] split_lines(quoted(s))[i] == seq!['>']
                + split_lines(s)[i],
{
    lemma_split_requote(s);
    lemma_split_lines_nonempty(s);
    lemma_split_lines_nonempty(requote(s));
    assert((seq!['>'] + requote(s)).drop_first() =~= requote(s));
}

/// Relies on String::push: the character is appended at the end.
#[verifier::external_body]
fn push_char(s: &mut String, c: char)
    ensures
        final(s)@ == old(s)@.push(c),
{
    s.push(c)
}

/// The characters of `s`, in order.
pub fn chars_of(s: &str) -> (r: Vec<char>)
    ensures
        r@ == s@,
{
    broadcast use vstd::string::group_string_axioms;
    let mut r: Vec<char> = Vec::new();
    for c in it: s.chars()
        invariant
            it.seq() == s@,
            r@ == it.seq().take(it.index() as int),
    {
        r.push(c);
    }
    r
}


/// The escape artifact that the forum leaves where a zero-width space stood.
pub open spec fn artifact() -> Seq<char> {
    seq!['&', 'a', 'm', 'p', ';', '#', 'x', '2', '0', '0', 'B', ';']
}

/// Whether the artifact starts at position `i` of `s`.
pub open spec fn artifact_at(s: Seq<char>, i: int) -> bool {
    0 <= i && i + artifact().len() <= s.len() && s.subrange(i, i + artifact().len())
        == artifact()
}

/// `s` with each occurrence of the artifact, scanned from the left and without
/// overlap, replaced by one newline.
pub open spec fn cleaned(s: Seq<char>) -> Seq<char>
    decreases s.len(),
{
    if s.len() == 0 {
        s
    } else if artifact_at(s, 0) {
        seq!['\n'] + cleaned(s.skip(artifact().len() as int))
    } else {
        seq![s[0]] + cleaned(s.drop_first())
    }
}

/// Wraps `text` in one level of block quote: a marker in front, and one after
/// each newline.
pub fn quote(text: &str) -> (r: String)
    ensures
        r@ == quoted(text@),
{
    let v = chars_of(text);
    let mut out = String::new();
    push_char(&mut out, '>');
    let mut i: usize = 0;
    assert(v@.skip(0) =~= v@);
    assert(out@ =~= seq!['>']);
    while i < v.len()
        invariant
            0 <= i <= v.len(),
            quoted(v@) == out@ + requote(v@.skip(i as int)),
        decreases v.len() - i,
    {
        let c = v[i];
        proof {
            assert(v@.skip(i as int).drop_first() =~= v@.skip(i + 1));
        }
        push_char(&mut out, c);
        if c == '\n' {
            push_char(&mut out, '>');
        }
        i = i + 1;
        proof {
            assert(quoted(v@) =~= out@ + requote(v@.skip(i as int)));
        }
    }
    proof {
        assert(v@.skip(i as int) =~= Seq::<char>::empty());
    }
    out
}

/// Replaces each occurrence of the zero-width-space artifact by a newline,
/// leaving every other character as it is.
pub fn clean_markdown(text: &str) -> (r: String)
    ensures
        r@ == cleaned(text@),
{
    let v = chars_of(text);
    let pat = artifact_chars();
    let mut out = String::new();
    let mut i: usize = 0;
    assert(v@.skip(0) =~= v@);
    assert(out@ =~= Seq::<char>::empty());
    while i < v.len()
        invariant
            0 <= i <= v.len(),
            pat@ == artifact(),
            cleaned(v@) == out@ + cleaned(v@.skip(i as int)),
        decreases v.len() - i,
    {
        let rest = Ghost(v@.skip(i as int));
        if matches_at(&v, i, &pat) {
            proof {
                assert(artifact_at(rest@, 0)) by {
                    assert(rest@.subrange(0, 12) =~= v@.subrange(i as int, i + 12));
                }
                assert(rest@.skip(12) =~= v@.skip(i + 12));
            }
            push_char(&mut out, '\n');
            i = i + 12;
        } else {
            proof {
                assert(!artifact_at(rest@, 0)) by {
                    if artifact_at(rest@, 0) {
                        assert(rest@.subrange(0, 12) =~= v@.subrange(i as int, i + 12));
                    }
                }
                assert(rest@.drop_first() =~= v@.skip(i + 1));
            }
            push_char(&mut out, v[i]);
            i = i + 1;
        }
        proof {
            assert(cleaned(v@) =~= out@ + cleaned(v@.skip(i as int)));
        }
    }
    proof {
        assert(v@.skip(i as int) =~= Seq::<char>::empty());
    }
    out
}

/// The artifact's characters.
fn artifact_chars() -> (r: Vec<char>)
    ensures
        r@ == artifact(),
{
    let r = vec!['&', 'a', 'm', 'p', ';', '#', 'x', '2', '0', '0', 'B', ';'];
    assert(r@ =~= artifact());
    r
}

/// Whether `pat` occurs in `v` at position `i`.
fn matches_at(v: &Vec<char>, i: usize, pat: &Vec<char>) -> (r: bool)
    requires
        i <= v.len(),
    ensures
        r == (i + pat.len() <= v.len() && v@.subrange(i as int, i + pat.len()) == pat@),
{
    if pat.len() > v.len() - i {
        return false;
    }
    let mut j: usize = 0;
    while j < pat.len()
        invariant
            i + pat.len() <= v.len(),
            0 <= j <= pat.len(),
            forall|k: int| 0 <= k < j ==> v@[i + k] == pat@[k],
        decreases pat.len() - j,
    {
        if v[i + j] != pat[j] {
            assert(v@.subrange(i as int, i + pat.len())[j as int] != pat@[j as int]);
            return false;
        }
        j = j + 1;
    }
    assert(v@.subrange(i as int, i + pat.len()) =~= pat@);
    true
}

} // verus!
