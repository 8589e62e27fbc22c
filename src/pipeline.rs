//! The run as a state machine: which outside step comes next, given the
//! outcome of the one before. Fetching, writing and converting happen
//! outside; every decision about them is taken here.

use vstd::prelude::*;
use crate::document::{assemble, document_of};
use crate::render::{parse_post, post_rendering, Comment, Post};
use crate::text::chars_of;

verus! {

/// Why a run stopped.
#[derive(Debug, PartialEq, Eq, Structural, Clone, Copy)]
pub enum PipelineError {
    /// The listing of posts or the comment tree of a post could not be fetched.
    Fetch,
    /// An authored comment came without a body.
    DataIntegrity,
    /// The markdown file could not be written.
    Io,
    /// The converter arguments did not tokenize, or the converter failed.
    Conversion,
}

/// Where a run stands.
#[derive(Debug, PartialEq, Eq, Structural, Clone, Copy)]
pub enum Stage {
    ListingPosts,
    FetchingComments,
    Writing,
    Converting,
    Done,
    Failed(PipelineError),
}

/// What the caller is to do next.
#[derive(Debug)]
pub enum Action {
    /// Fetch the `count` latest posts of `subreddit`.
    ListPosts { subreddit: String, count: u32 },
    /// Fetch the comment tree of the post `post_id`.
    FetchComments { post_id: String },
    /// Write `contents` to the file at `path`.
    WriteFile { path: String, contents: String },
    /// Run `program` with `args`.
    RunConverter { program: String, args: Vec<String> },
    /// The run is over and succeeded.
    Finish,
    /// The run is over and failed.
    Abort(PipelineError),
}

/// The outcome of the last action.
pub enum Event {
    PostsListed(Vec<Post>),
    CommentsFetched(Vec<Comment>),
    FetchFailed,
    Written,
    WriteFailed,
    Converted,
    ConvertFailed,
}

/// The extension of the path `p`, as std's `Path::extension` gives it.
pub uninterp spec fn extension_of(p: Seq<char>) -> Option<Seq<char>>;

/// The path `p` with its extension set to `md`, as std's
/// `Path::with_extension` gives it.
pub uninterp spec fn with_md_extension_of(p: Seq<char>) -> Seq<char>;

/// The words of `s` split by shell quoting rules, or `None` where a quote is
/// left open, as shell_words's `split` gives them.
pub uninterp spec fn shell_split_of(s: Seq<char>) -> Option<Seq<Seq<char>>>;

/// Relies on std's `Path::extension`: the extension of a path given as text.
#[verifier::external_body]
fn path_extension(p: &str) -> (r: Option<String>)
    ensures
        match r {
            Some(e) => extension_of(p@) == Some(e@),
            None => extension_of(p@) is None,
        },
{
    match std::path::Path::new(p).extension() {
        Some(e) => Some(e.to_string_lossy().into_owned()),
        None => None,
    }
}

/// Relies on std's `Path::with_extension`: the path with the extension `md`.
#[verifier::external_body]
fn with_md_extension(p: &str) -> (r: String)
    ensures
        r@ == with_md_extension_of(p@),
{
    std::path::Path::new(p).with_extension("md").to_string_lossy().into_owned()
}

/// Relies on shell_words's `split`: the words of `s`, or `None` where it
/// reports a parse error.
#[verifier::external_body]
fn shell_split(s: &str) -> (r: Option<Vec<String>>)
    ensures
        match r {
            Some(v) => shell_split_of(s@) == Some(v@.map_values(|w: String| w@)),
            None => shell_split_of(s@) is None,
        },
{
    match shell_words::split(s) {
        Ok(v) => Some(v),
        Err(_) => None,
    }
}

/// The views of a sequence of strings.
pub open spec fn views(v: Seq<String>) -> Seq<Seq<char>> {
    v.map_values(|s: String| s@)
}

/// The extension of the markdown document.
pub open spec fn md_ext() -> Seq<char> {
    seq!['m', 'd']
}

/// Whether the requested output has to be produced by the converter: its
/// extension is not the markdown one.
pub open spec fn needs_conversion(output: Seq<char>) -> bool {
    extension_of(output) != Some(md_ext())
}

/// Whether `e` is the markdown extension.
pub fn is_md_extension(e: &str) -> (r: bool)
    ensures
        r == (e@ == md_ext()),
{
    let v = chars_of(e);
    let r = v.len() == 2 && v[0] == 'm' && v[1] == 'd';
    assert(r ==> v@ =~= md_ext());
    r
}

/// Whether the file at `output` is to be made by the converter from the
/// markdown document.
pub fn requires_conversion(output: &str) -> (r: bool)
    ensures
        r == needs_conversion(output@),
{
    match path_extension(output) {
        Some(e) => !is_md_extension(e.as_str()),
        None => true,
    }
}

/// The arguments of the converter: the markdown file, the requested output,
/// then the words `extra`.
pub fn converter_command(md_path: &str, output: &str, extra: Vec<String>) -> (r: Vec<String>)
    ensures
        views(r@) == seq![md_path@, output@] + views(extra@),
{
    let mut r: Vec<String> = Vec::new();
    r.push(md_path.to_owned());
    r.push(output.to_owned());
    let mut i: usize = 0;
    while i < extra.len()
        invariant
            0 <= i <= extra.len(),
            views(r@) == seq![md_path@, output@] + views(extra@.take(i as int)),
        decreases extra.len() - i,
    {
        let w = extra[i].clone();
        assert(w@ == extra@[i as int]@);
        assert(extra@.take(i + 1) =~= extra@.take(i as int).push(extra@[i as int]));
        let ghost before = r@;
        r.push(w);
        assert(views(r@) =~= views(before).push(w@));
        assert(views(extra@.take(i + 1)) =~= views(extra@.take(i as int)).push(w@));
        i = i + 1;
        assert(views(r@) =~= seq![md_path@, output@] + views(extra@.take(i as int)));
    }
    assert(extra@.take(i as int) =~= extra@);
    r
}

/// The arguments of the converter, with the string `args` tokenized by shell
/// quoting rules; an error where it does not tokenize.
pub fn converter_arguments(md_path: &str, output: &str, args: &str) -> (r: Result<
    Vec<String>,
    PipelineError,
>)
    ensures
        match shell_split_of(args@) {
            Some(ws) => r matches Ok(v) && views(v@) == seq![md_path@, output@] + ws,
            None => r == Err::<Vec<String>, PipelineError>(PipelineError::Conversion),
        },
{
    match shell_split(args) {
        Some(words) => Ok(converter_command(md_path, output, words)),
        None => Err(PipelineError::Conversion),
    }
}

/// One run: its settings, where it stands, the posts listed and the text
/// rendered so far, one entry per post done.
pub struct Pipeline {
    pub subreddit: String,
    pub output: String,
    pub count: u32,
    pub converter: String,
    pub converter_args: String,
    pub markdown_path: String,
    pub convert: bool,
    pub stage: Stage,
    pub posts: Vec<Post>,
    pub rendered: Vec<String>,
}

impl Pipeline {
    /// The markdown path and the conversion flag follow from the output path,
    /// and the posts are rendered one at a time, in order.
    pub open spec fn wf(&self) -> bool {
        &&& self.markdown_path@ == with_md_extension_of(self.output@)
        &&& self.convert == needs_conversion(self.output@)
        &&& self.rendered.len() <= self.posts.len()
        &&& self.stage == Stage::FetchingComments ==> self.rendered.len() < self.posts.len()
    }

    /// The document made of what has been rendered so far.
    pub open spec fn document(&self) -> Seq<char> {
        document_of(self.subreddit@, views(self.rendered@))
    }

    /// Whether `a` asks to write the document to the markdown path.
    pub open spec fn writes_document(&self, a: Action) -> bool {
        a matches Action::WriteFile { path, contents } && path@ == self.markdown_path@
            && contents@ == self.document()
    }

    /// A run of `count` posts of `subreddit`, whose result goes to `output`,
    /// converted where needed by `converter` with the words of `converter_args`.
    pub fn new(
        subreddit: String,
        output: String,
        count: u32,
        converter: String,
        converter_args: String,
    ) -> (r: Pipeline)
        requires
            count > 0,
        ensures
            r.wf(),
            r.stage == Stage::ListingPosts,
            r.subreddit == subreddit,
            r.output == output,
            r.count == count,
            r.converter == converter,
            r.converter_args == converter_args,
            r.posts@.len() == 0,
            r.rendered@.len() == 0,
    {
        let markdown_path = with_md_extension(output.as_str());
        let convert = requires_conversion(output.as_str());
        Pipeline {
            subreddit,
            output,
            count,
            converter,
            converter_args,
            markdown_path,
            convert,
            stage: Stage::ListingPosts,
            posts: Vec::new(),
            rendered: Vec::new(),
        }
    }

    /// The first action of a run: list the latest posts.
    pub fn start(&self) -> (a: Action)
        ensures
            a matches Action::ListPosts { subreddit, count } && subreddit@ == self.subreddit@
                && count == self.count,
    {
        Action::ListPosts { subreddit: self.subreddit.clone(), count: self.count }
    }

    /// Fetch the comments of the next post, or write the document when all
    /// posts are done.
    fn next_post_or_write(&mut self) -> (a: Action)
        requires
            old(self).wf(),
        ensures
            final(self).wf(),
            final(self).subreddit == old(self).subreddit,
            final(self).output == old(self).output,
            final(self).count == old(self).count,
            final(self).converter == old(self).converter,
            final(self).converter_args == old(self).converter_args,
            final(self).markdown_path == old(self).markdown_path,
            final(self).convert == old(self).convert,
            final(self).posts == old(self).posts,
            final(self).rendered == old(self).rendered,
            if old(self).rendered.len() < old(self).posts.len() {
                &&& final(self).stage == Stage::FetchingComments
                &&& a matches Action::FetchComments { post_id } && post_id@ == old(
                    self,
                ).posts@[old(self).rendered.len() as int].id@
            } else {
                &&& final(self).stage == Stage::Writing
                &&& old(self).writes_document(a)
            },
    {
        let i = self.rendered.len();
        if i < self.posts.len() {
            self.stage = Stage::FetchingComments;
            Action::FetchComments { post_id: self.posts[i].id.clone() }
        } else {
            self.stage = Stage::Writing;
            Action::WriteFile {
                path: self.markdown_path.clone(),
                contents: assemble(self.subreddit.as_str(), &self.rendered),
            }
        }
    }

    /// Stops the run with `e`.
    fn fail(&mut self, e: PipelineError) -> (a: Action)
        requires
            old(self).wf(),
        ensures
            final(self).wf(),
            *final(self) == (Pipeline { stage: Stage::Failed(e), ..*old(self) }),
            a == Action::Abort(e),
    {
        self.stage = Stage::Failed(e);
        Action::Abort(e)
    }

    /// Takes the outcome of the last action and gives the next one.
    pub fn step(&mut self, event: Event) -> (a: Action)
        requires
            old(self).wf(),
        ensures
            final(self).wf(),
            final(self).subreddit == old(self).subreddit,
            final(self).output == old(self).output,
            final(self).markdown_path == old(self).markdown_path,
            match old(self).stage {
                Stage::ListingPosts => match event {
                    Event::PostsListed(ps) => {
                        &&& final(self).posts@ == ps@
                        &&& final(self).rendered@.len() == 0
                        &&& if ps@.len() == 0 {
                            final(self).stage == Stage::Writing && final(self).writes_document(a)
                        } else {
                            final(self).stage == Stage::FetchingComments && (a matches Action::FetchComments { post_id } && post_id@ == ps@[0].id@)
                        }
                    },
                    _ => final(self).stage == Stage::Failed(PipelineError::Fetch) && a
                        == Action::Abort(PipelineError::Fetch),
                },
                Stage::FetchingComments => match event {
                    Event::CommentsFetched(cs) => match post_rendering(
                        old(self).posts@[old(self).rendered.len() as int],
                        cs@,
                    ) {
                        Some(t) => {
                            &&& final(self).posts == old(self).posts
                            &&& views(final(self).rendered@) == views(old(self).rendered@).push(t)
                            &&& if final(self).rendered.len() < final(self).posts.len() {
                                final(self).stage == Stage::FetchingComments && (a matches Action::FetchComments { post_id } && post_id@ == final(self).posts@[final(self).rendered.len() as int].id@)
                            } else {
                                final(self).stage == Stage::Writing && final(self).writes_document(a)
                            }
                        },
                        None => final(self).stage == Stage::Failed(PipelineError::DataIntegrity)
                            && a == Action::Abort(PipelineError::DataIntegrity),
                    },
                    _ => final(self).stage == Stage::Failed(PipelineError::Fetch) && a
                        == Action::Abort(PipelineError::Fetch),
                },
                Stage::Writing => match event {
                    Event::Written => if old(self).convert {
                        match shell_split_of(old(self).converter_args@) {
                            Some(ws) => final(self).stage == Stage::Converting && (a matches Action::RunConverter { program, args } && program@ == old(self).converter@ && views(args@) == seq![old(self).markdown_path@, old(self).output@] + ws),
                            None => final(self).stage == Stage::Failed(PipelineError::Conversion)
                                && a == Action::Abort(PipelineError::Conversion),
                        }
                    } else {
                        final(self).stage == Stage::Done && a == Action::Finish
                    },
                    _ => final(self).stage == Stage::Failed(PipelineError::Io) && a
                        == Action::Abort(PipelineError::Io),
                },
                Stage::Converting => match event {
                    Event::Converted => final(self).stage == Stage::Done && a == Action::Finish,
                    _ => final(self).stage == Stage::Failed(PipelineError::Conversion) && a
                        == Action::Abort(PipelineError::Conversion),
                },
                Stage::Done => final(self).stage == Stage::Done && a == Action::Finish,
                Stage::Failed(e) => final(self).stage == Stage::Failed(e) && a == Action::Abort(e),
            },
    {
        match self.stage {
            Stage::ListingPosts => match event {
                Event::PostsListed(ps) => {
                    self.posts = ps;
                    self.rendered = Vec::new();
                    self.next_post_or_write()
                },
                _ => self.fail(PipelineError::Fetch),
            },
            Stage::FetchingComments => match event {
                Event::CommentsFetched(cs) => {
                    let i = self.rendered.len();
                    match parse_post(&self.posts[i], &cs) {
                        Ok(t) => {
                            let ghost before = self.rendered@;
                            self.rendered.push(t);
                            self.stage = Stage::Writing;
                            assert(views(self.rendered@) =~= views(before).push(t@));
                            self.next_post_or_write()
                        },
                        Err(_) => self.fail(PipelineError::DataIntegrity),
                    }
                },
                _ => self.fail(PipelineError::Fetch),
            },
            Stage::Writing => match event {
                Event::Written => {
                    if self.convert {
                        match converter_arguments(
                            self.markdown_path.as_str(),
                            self.output.as_str(),
                            self.converter_args.as_str(),
                        ) {
                            Ok(args) => {
                                self.stage = Stage::Converting;
                                Action::RunConverter { program: self.converter.clone(), args }
                            },
                            Err(e) => self.fail(e),
                        }
                    } else {
                        self.stage = Stage::Done;
                        Action::Finish
                    }
                },
                _ => self.fail(PipelineError::Io),
            },
            Stage::Converting => match event {
                Event::Converted => {
                    self.stage = Stage::Done;
                    Action::Finish
                },
                _ => self.fail(PipelineError::Conversion),
            },
            Stage::Done => Action::Finish,
            Stage::Failed(e) => Action::Abort(e),
        }
    }
}

} // verus!
