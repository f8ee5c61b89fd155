use vstd::prelude::*;

use crate::text::{
    append_text, chars_of, contains_text, find_all, regex_gaps, regex_matches, same_text, split_all,
    string_of, views_of, views_of_some,
};

verus! {

/// A compiled shader: its code in 32-bit words and the name of its entry
/// point.
pub struct ShaderInfo {
    pub byte_code: Vec<u32>,
    pub entry_point: String,
}

/// A shader.
pub struct Shader {}

/// The stage that a shader is compiled for.
#[derive(Clone, Copy, Debug, PartialEq, Eq, Structural)]
pub enum ShaderType {
    Compute,
    Vertex,
    Geometry,
    Fragment,
}

/// What a shader is optimised for: nothing, speed or size.
#[derive(Clone, Copy, Debug, PartialEq, Eq, Structural)]
pub enum ShaderOptimization {
    Zero,
    Performance,
    Size,
}

/// The pattern of an include directive: `#include`, a blank, and a path
/// between double quotes.
pub const INCLUDE_PATTERN: &'static str = "#include \"([^\\\"]*\\/)*[^\"]+\"";

/// The pattern of the quoted part of an include directive.
pub const QUOTED_PATTERN: &'static str = "\"[^\"]+\"";

/// The file that the quoted parts `quoted` of a directive name, for a file
/// in the directory `dir`: the directory, a slash, and what stands between
/// the quotes of the first quoted part. Without a quoted part of at least
/// the two quotes there is none.
pub open spec fn joined_target(dir: Seq<char>, quoted: Seq<Seq<char>>) -> Option<Seq<char>> {
    if quoted.len() > 0 && quoted[0].len() >= 2 {
        Some(dir + seq!['/'] + quoted[0].subrange(1, quoted[0].len() - 1))
    } else {
        None
    }
}

/// The file that a directive of a file in the directory `dir` includes:
/// what `joined_target` makes of the quoted parts of the directive.
pub open spec fn include_target(dir: Seq<char>, directive: Seq<char>) -> Option<Seq<char>> {
    match regex_matches(QUOTED_PATTERN@, directive) {
        Some(quoted) => joined_target(dir, quoted),
        None => None,
    }
}

/// The files that `directives` include, in order, where each names one.
pub open spec fn targets_of(dir: Seq<char>, directives: Seq<Seq<char>>) -> Option<Seq<Seq<char>>>
    decreases directives.len(),
{
    if directives.len() == 0 {
        Some(Seq::empty())
    } else {
        match (targets_of(dir, directives.drop_last()), include_target(dir, directives.last())) {
            (Some(earlier), Some(target)) => Some(earlier.push(target)),
            _ => None,
        }
    }
}

/// The files that the text `contents` of a file in the directory `dir`
/// includes, in the order of its include directives.
pub open spec fn include_targets(dir: Seq<char>, contents: Seq<char>) -> Option<Seq<Seq<char>>> {
    match regex_matches(INCLUDE_PATTERN@, contents) {
        Some(directives) => targets_of(dir, directives),
        None => None,
    }
}

/// The gaps with a fill between each two of them; there is one gap more
/// than there are fills.
pub open spec fn spliced(gaps: Seq<Seq<char>>, fills: Seq<Seq<char>>) -> Seq<char>
    decreases fills.len(),
{
    if fills.len() == 0 {
        gaps[0]
    } else {
        spliced(gaps.drop_last(), fills.drop_last()) + fills.last() + gaps.last()
    }
}

/// The gaps with the fills between them, where there is one gap more than
/// there are fills.
pub open spec fn spliced_text(gaps: Seq<Seq<char>>, fills: Seq<Seq<char>>) -> Option<Seq<char>> {
    if gaps.len() == fills.len() + 1 {
        Some(spliced(gaps, fills))
    } else {
        None
    }
}

/// The text `contents` with its `i`-th include directive replaced by the
/// `i`-th of `fills`, where there is a fill for each directive.
pub open spec fn includes_replaced(contents: Seq<char>, fills: Seq<Seq<char>>) -> Option<Seq<char>> {
    match regex_gaps(INCLUDE_PATTERN@, contents) {
        Some(gaps) => spliced_text(gaps, fills),
        None => None,
    }
}

/// Joins the directory and the path between the quotes of the first of
/// `quoted`, the quoted parts that were found in a directive.
pub fn join_include_target(dir: &str, quoted: &Vec<String>) -> (r: Option<String>)
    ensures
        match r {
            Some(target) => joined_target(dir@, views_of(quoted@)) == Some(target@),
            None => joined_target(dir@, views_of(quoted@)) is None,
        },
{
    if quoted.len() == 0 {
        return None;
    }
    let first = chars_of(quoted[0].as_str());
    assert(views_of(quoted@)[0] == first@);
    if first.len() < 2 {
        return None;
    }
    let mut out = chars_of(dir);
    out.push('/');
    let mut i: usize = 1;
    while i < first.len() - 1
        invariant
            2 <= first@.len(),
            1 <= i <= first@.len() - 1,
            out@ == dir@ + seq!['/'] + first@.subrange(1, i as int),
        decreases first@.len() - i,
    {
        out.push(first[i]);
        i += 1;
        assert(out@ =~= dir@ + seq!['/'] + first@.subrange(1, i as int));
    }
    Some(string_of(&out))
}

/// Puts the `i`-th of `fills` between the `i`-th and the next of `gaps`, the
/// texts that were found between the include directives.
pub fn splice_includes(gaps: &Vec<String>, fills: &Vec<String>) -> (r: Option<String>)
    ensures
        match r {
            Some(text) => spliced_text(views_of(gaps@), views_of(fills@)) == Some(text@),
            None => spliced_text(views_of(gaps@), views_of(fills@)) is None,
        },
{
    assert(views_of(gaps@).len() == gaps@.len() && views_of(fills@).len() == fills@.len());
    if fills.len() == usize::MAX {
        assert(gaps.len() <= usize::MAX);
        return None;
    }
    if gaps.len() != fills.len() + 1 {
        return None;
    }
    let ghost gap_texts = views_of(gaps@);
    let ghost fill_texts = views_of(fills@);
    let mut out = chars_of(gaps[0].as_str());
    assert(gap_texts.take(1)[0] == gaps@[0]@);
    let mut i: usize = 0;
    while i < fills.len()
        invariant
            i <= fills@.len(),
            gaps@.len() == fills@.len() + 1,
            gap_texts == views_of(gaps@),
            fill_texts == views_of(fills@),
            out@ == spliced(gap_texts.take(i + 1), fill_texts.take(i as int)),
        decreases fills@.len() - i,
    {
        proof {
            assert(gap_texts.take(i + 2).drop_last() =~= gap_texts.take(i + 1));
            assert(fill_texts.take(i + 1).drop_last() =~= fill_texts.take(i as int));
            assert(gap_texts.take(i + 2).last() == gaps@[i + 1]@);
            assert(fill_texts.take(i + 1).last() == fills@[i as int]@);
        }
        append_text(&mut out, fills[i].as_str());
        append_text(&mut out, gaps[i + 1].as_str());
        i += 1;
    }
    assert(gap_texts.take(gaps@.len() as int) =~= gap_texts);
    assert(fill_texts.take(fills@.len() as int) =~= fill_texts);
    Some(string_of(&out))
}

/// Finds the file that one include directive names.
pub fn find_include_target(dir: &str, directive: &str) -> (r: Option<String>)
    ensures
        match r {
            Some(target) => include_target(dir@, directive@) == Some(target@),
            None => include_target(dir@, directive@) is None,
        },
{
    match find_all(QUOTED_PATTERN, directive) {
        Some(quoted) => join_include_target(dir, &quoted),
        None => None,
    }
}

/// Finds the files that `directives` name, the include directives that
/// were found in a text, in their order.
pub fn find_targets_of(dir: &str, directives: &Vec<String>) -> (r: Option<Vec<String>>)
    ensures
        views_of_some(r) == targets_of(dir@, views_of(directives@)),
{
    let ghost texts = views_of(directives@);
    let mut out: Vec<String> = Vec::new();
    let mut i: usize = 0;
    while i < directives.len()
        invariant
            i <= directives@.len(),
            texts == views_of(directives@),
            targets_of(dir@, texts.take(i as int)) == Some(views_of(out@)),
        decreases directives@.len() - i,
    {
        proof {
            assert(texts.take(i + 1).drop_last() =~= texts.take(i as int));
            assert(texts.take(i + 1).last() == directives@[i as int]@);
        }
        match find_include_target(dir, directives[i].as_str()) {
            Some(target) => {
                let ghost before = views_of(out@);
                out.push(target);
                assert(views_of(out@) =~= before.push(target@));
            },
            None => {
                proof {
                    assert(include_target(dir@, texts.take(i + 1).last()) is None);
                    assert(targets_of(dir@, texts.take(i + 1)) is None);
                    lemma_targets_stay_none(dir@, texts, i as int + 1);
                }
                return None;
            },
        }
        i += 1;
    }
    assert(texts.take(directives@.len() as int) =~= texts);
    Some(out)
}

/// Finds the files that a text includes, in the order of its directives.
pub fn find_include_targets(dir: &str, contents: &str) -> (r: Option<Vec<String>>)
    ensures
        views_of_some(r) == include_targets(dir@, contents@),
{
    match find_all(INCLUDE_PATTERN, contents) {
        Some(directives) => find_targets_of(dir, &directives),
        None => None,
    }
}

/// Once a directive names no file, no longer list of directives has targets.
proof fn lemma_targets_stay_none(dir: Seq<char>, directives: Seq<Seq<char>>, count: int)
    requires
        0 <= count <= directives.len(),
        targets_of(dir, directives.take(count)) is None,
    ensures
        targets_of(dir, directives) is None,
    decreases directives.len() - count,
{
    if count < directives.len() {
        assert(directives.take(count + 1).drop_last() =~= directives.take(count));
        lemma_targets_stay_none(dir, directives, count + 1);
    } else {
        assert(directives.take(count) =~= directives);
    }
}

/// Replaces the `i`-th include directive of `contents` by the `i`-th of
/// `fills`.
pub fn replace_includes(contents: &str, fills: &Vec<String>) -> (r: Option<String>)
    ensures
        match r {
            Some(text) => includes_replaced(contents@, views_of(fills@)) == Some(text@),
            None => includes_replaced(contents@, views_of(fills@)) is None,
        },
{
    match split_all(INCLUDE_PATTERN, contents) {
        Some(gaps) => splice_includes(&gaps, fills),
        None => None,
    }
}

/// A source file that was read: its path, the directory it lies in, and
/// its text.
pub struct SourceFile {
    pub path: String,
    pub directory: String,
    pub contents: String,
}

/// What the resolution of includes answers.
pub enum ResolveStep {
    /// The file of this path has to be read and handed in with `provide`.
    NeedFile(String),
    /// Every include is resolved; the text of the root file with its
    /// includes in place.
    Done(String),
    /// This file includes itself, directly or through the files it includes.
    Cyclic(String),
    /// An include directive or a pattern could not be handled.
    Malformed,
}

/// A source file, as the contracts see it.
pub struct SourceView {
    pub path: Seq<char>,
    pub directory: Seq<char>,
    pub contents: Seq<char>,
}

/// An answer, as the contracts see it.
pub enum StepView {
    NeedFile(Seq<char>),
    Done(Seq<char>),
    Cyclic(Seq<char>),
    Malformed,
}

impl ResolveStep {
    pub open spec fn view(&self) -> StepView {
        match self {
            ResolveStep::NeedFile(path) => StepView::NeedFile(path@),
            ResolveStep::Done(text) => StepView::Done(text@),
            ResolveStep::Cyclic(path) => StepView::Cyclic(path@),
            ResolveStep::Malformed => StepView::Malformed,
        }
    }
}

/// The file that was handed in last under `path`.
pub open spec fn source_of(files: Seq<SourceView>, path: Seq<char>) -> Option<SourceView>
    decreases files.len(),
{
    if files.len() == 0 {
        None
    } else if files.last().path == path {
        Some(files.last())
    } else {
        source_of(files.drop_last(), path)
    }
}

/// The text of the file `path` with every include in place, where `chain`
/// holds the files that are being resolved around it, outermost first.
///
/// A file on the chain includes itself through the files after it: that is
/// a cycle. A file that was not handed in is asked for. Else each include
/// of the file is resolved in turn, with the file itself on the chain, and
/// the texts are put in place of the directives; the first include that
/// does not resolve decides the answer. The chain never grows as long as
/// the list of files; see `law_chain_fits`.
pub open spec fn expanded(files: Seq<SourceView>, path: Seq<char>, chain: Seq<Seq<char>>) -> StepView
    decreases files.len() - chain.len(), 0nat,
{
    if chain.contains(path) {
        StepView::Cyclic(path)
    } else {
        match source_of(files, path) {
            None => StepView::NeedFile(path),
            Some(file) => if chain.len() >= files.len() {
                StepView::Malformed
            } else {
                match include_targets(file.directory, file.contents) {
                    None => StepView::Malformed,
                    Some(targets) => match expanded_all(files, targets, chain.push(path)) {
                        Err(answer) => answer,
                        Ok(fills) => match includes_replaced(file.contents, fills) {
                            Some(text) => StepView::Done(text),
                            None => StepView::Malformed,
                        },
                    },
                }
            },
        }
    }
}

/// The resolved texts of `targets`, in order, or the answer of the first of
/// them that does not resolve.
pub open spec fn expanded_all(
    files: Seq<SourceView>,
    targets: Seq<Seq<char>>,
    chain: Seq<Seq<char>>,
) -> Result<Seq<Seq<char>>, StepView>
    decreases files.len() - chain.len(), 1 + targets.len(),
{
    if targets.len() == 0 {
        Ok(Seq::empty())
    } else {
        match expanded_all(files, targets.drop_last(), chain) {
            Err(answer) => Err(answer),
            Ok(fills) => match expanded(files, targets.last(), chain) {
                StepView::Done(text) => Ok(fills.push(text)),
                answer => Err(answer),
            },
        }
    }
}

/// What the resolution of the file `root` answers, given the files that
/// were handed in.
pub open spec fn resolved(files: Seq<SourceView>, root: Seq<char>) -> StepView {
    expanded(files, root, Seq::empty())
}

/// Whether the file `from` was handed in and includes the file `to`.
pub open spec fn includes(files: Seq<SourceView>, from: Seq<char>, to: Seq<char>) -> bool {
    match source_of(files, from) {
        Some(file) => match include_targets(file.directory, file.contents) {
            Some(targets) => targets.contains(to),
            None => false,
        },
        None => false,
    }
}

/// Whether each file of `walk` includes the next one.
pub open spec fn is_include_walk(files: Seq<SourceView>, walk: Seq<Seq<char>>) -> bool {
    &&& walk.len() > 0
    &&& forall|i: int| 0 <= i < walk.len() - 1 ==> includes(files, #[trigger] walk[i], walk[i + 1])
}

spec fn source_views(files: Seq<SourceFile>) -> Seq<SourceView> {
    Seq::new(
        files.len(),
        |i: int| SourceView { path: files[i].path@, directory: files[i].directory@, contents: files[i].contents@ },
    )
}

fn find_source(files: &Vec<SourceFile>, path: &String) -> (r: Option<usize>)
    ensures
        match r {
            Some(i) => i < files@.len() && source_of(source_views(files@), path@) == Some(
                source_views(files@)[i as int],
            ),
            None => source_of(source_views(files@), path@) is None,
        },
{
    let ghost views = source_views(files@);
    let mut i: usize = files.len();
    assert(views.take(files@.len() as int) =~= views);
    while i > 0
        invariant
            i <= files@.len(),
            views == source_views(files@),
            source_of(views, path@) == source_of(views.take(i as int), path@),
        decreases i,
    {
        proof {
            assert(views.take(i as int).drop_last() =~= views.take(i - 1));
            assert(views.take(i as int).last() == views[i - 1]);
        }
        if same_text(&files[i - 1].path, path) {
            return Some(i - 1);
        }
        i -= 1;
    }
    None
}

fn append_copies(out: &mut Vec<String>, items: &Vec<String>)
    ensures
        views_of(final(out)@) == views_of(old(out)@) + views_of(items@),
{
    let mut i: usize = 0;
    while i < items.len()
        invariant
            i <= items@.len(),
            views_of(out@) == views_of(old(out)@) + views_of(items@).take(i as int),
        decreases items@.len() - i,
    {
        let ghost before = views_of(out@);
        out.push(items[i].clone());
        i += 1;
        assert(views_of(out@) =~= before.push(items@[i - 1]@));
        assert(views_of(out@) =~= views_of(old(out)@) + views_of(items@).take(i as int));
    }
    assert(views_of(items@).take(items@.len() as int) =~= views_of(items@));
}

/// Resolves the file `path` with the files of `chain` being resolved around
/// it; see `expanded`.
fn expand_file(files: &Vec<SourceFile>, path: &String, chain: &Vec<String>) -> (r: ResolveStep)
    ensures
        r@ == expanded(source_views(files@), path@, views_of(chain@)),
    decreases files@.len() - chain@.len(),
{
    let ghost views = source_views(files@);
    let ghost outer = views_of(chain@);
    if contains_text(chain, path) {
        return ResolveStep::Cyclic(path.clone());
    }
    let at = match find_source(files, path) {
        Some(at) => at,
        None => {
            return ResolveStep::NeedFile(path.clone());
        },
    };
    if chain.len() >= files.len() {
        return ResolveStep::Malformed;
    }
    let file = &files[at];
    let targets = match find_include_targets(file.directory.as_str(), file.contents.as_str()) {
        Some(targets) => targets,
        None => {
            return ResolveStep::Malformed;
        },
    };
    let mut inner: Vec<String> = Vec::new();
    append_copies(&mut inner, chain);
    inner.push(path.clone());
    let ghost around = outer.push(path@);
    assert(views_of(inner@) =~= around);
    let ghost wanted = views_of(targets@);
    let mut fills: Vec<String> = Vec::new();
    let mut i: usize = 0;
    proof {
        assert(wanted.take(0) =~= Seq::empty());
        assert(views_of(fills@) =~= Seq::empty());
    }
    while i < targets.len()
        invariant
            i <= targets@.len(),
            views == source_views(files@),
            wanted == views_of(targets@),
            around == views_of(inner@),
            outer == views_of(chain@),
            around == outer.push(path@),
            !outer.contains(path@),
            source_of(views, path@) == Some(views[at as int]),
            at < files@.len(),
            include_targets(views[at as int].directory, views[at as int].contents) == Some(wanted),
            inner@.len() == chain@.len() + 1,
            chain@.len() < files@.len(),
            expanded_all(views, wanted.take(i as int), around) == Ok::<Seq<Seq<char>>, StepView>(
                views_of(fills@),
            ),
        decreases targets@.len() - i,
    {
        proof {
            assert(wanted.take(i + 1).drop_last() =~= wanted.take(i as int));
            assert(wanted.take(i + 1).last() == targets@[i as int]@);
        }
        let answer = expand_file(files, &targets[i], &inner);
        match answer {
            ResolveStep::Done(text) => {
                let ghost before = views_of(fills@);
                fills.push(text);
                assert(views_of(fills@) =~= before.push(text@));
            },
            other => {
                proof {
                    assert(expanded_all(views, wanted.take(i + 1), around) == Err::<
                        Seq<Seq<char>>,
                        StepView,
                    >(other@));
                    lemma_expanded_all_stays_failed(views, wanted, around, i as int + 1);
                }
                return other;
            },
        }
        i += 1;
    }
    assert(wanted.take(targets@.len() as int) =~= wanted);
    match replace_includes(file.contents.as_str(), &fills) {
        Some(text) => ResolveStep::Done(text),
        None => ResolveStep::Malformed,
    }
}

/// Once one of the first `count` targets has failed, the answer for all
/// targets is that failure.
proof fn lemma_expanded_all_stays_failed(
    files: Seq<SourceView>,
    targets: Seq<Seq<char>>,
    chain: Seq<Seq<char>>,
    count: int,
)
    requires
        0 <= count <= targets.len(),
        expanded_all(files, targets.take(count), chain) is Err,
    ensures
        expanded_all(files, targets, chain) == expanded_all(files, targets.take(count), chain),
    decreases targets.len() - count,
{
    if count < targets.len() {
        assert(targets.take(count + 1).drop_last() =~= targets.take(count));
        lemma_expanded_all_stays_failed(files, targets, chain, count + 1);
    } else {
        assert(targets.take(count) =~= targets);
    }
}

/// The state of a resolution: the root file and the files that were handed
/// in so far. The resolver reads no file itself: it asks for each file by
/// its path and is handed the text.
pub struct IncludeResolver {
    root: String,
    files: Vec<SourceFile>,
}

/// The state of a resolver, as the contracts see it.
pub struct ResolverView {
    pub root: Seq<char>,
    pub files: Seq<SourceView>,
}

impl IncludeResolver {
    pub closed spec fn view(&self) -> ResolverView {
        ResolverView { root: self.root@, files: source_views(self.files@) }
    }

    /// A resolver for the file `root`, with no file handed in yet.
    pub fn new(root: String) -> (r: Self)
        ensures
            r@ == (ResolverView { root: root@, files: Seq::empty() }),
    {
        let r = IncludeResolver { root, files: Vec::new() };
        assert(r@.files =~= Seq::empty());
        r
    }

    /// Hands in a file that was read.
    pub fn provide(&mut self, file: SourceFile)
        ensures
            final(self)@ == (ResolverView {
                files: old(self)@.files.push(
                    SourceView { path: file.path@, directory: file.directory@, contents: file.contents@ },
                ),
                ..old(self)@
            }),
    {
        self.files.push(file);
        proof {
            assert(self@.files =~= old(self)@.files.push(
                SourceView { path: file.path@, directory: file.directory@, contents: file.contents@ },
            ));
        }
    }

    /// Resolves the root with the files handed in so far: the text with
    /// every include in place, the next file to hand in, or why the
    /// resolution fails.
    pub fn advance(&self) -> (r: ResolveStep)
        ensures
            r@ == resolved(self@.files, self@.root),
    {
        let chain: Vec<String> = Vec::new();
        assert(views_of(chain@) =~= Seq::empty());
        expand_file(&self.files, &self.root, &chain)
    }
}

/// The position of the last dot of `path`, if it has one.
pub open spec fn last_dot(path: Seq<char>) -> Option<int>
    decreases path.len(),
{
    if path.len() == 0 {
        None
    } else if path.last() == '.' {
        Some(path.len() - 1)
    } else {
        last_dot(path.drop_last())
    }
}

/// What follows the last dot of `path`, or all of `path` without a dot.
pub open spec fn last_segment(path: Seq<char>) -> Seq<char> {
    match last_dot(path) {
        Some(dot) => path.subrange(dot + 1, path.len() as int),
        None => path,
    }
}

/// The shader type that an extension stands for.
pub open spec fn shader_type_of_extension(extension: Seq<char>) -> Option<ShaderType> {
    if extension == "vert"@ {
        Some(ShaderType::Vertex)
    } else if extension == "geom"@ {
        Some(ShaderType::Geometry)
    } else if extension == "frag"@ {
        Some(ShaderType::Fragment)
    } else if extension == "comp"@ {
        Some(ShaderType::Compute)
    } else {
        None
    }
}

/// The shader type that the name of a file stands for: that of its
/// extension, or, where the extension is `glsl`, that of the extension
/// before it.
pub open spec fn shader_type_of_path(path: Seq<char>) -> Option<ShaderType> {
    if last_segment(path) == "glsl"@ {
        match last_dot(path) {
            Some(dot) => shader_type_of_extension(last_segment(path.subrange(0, dot))),
            None => None,
        }
    } else {
        shader_type_of_extension(last_segment(path))
    }
}

fn find_last_dot(chars: &Vec<char>, end: usize) -> (r: Option<usize>)
    requires
        end <= chars@.len(),
    ensures
        match r {
            Some(dot) => dot < end && last_dot(chars@.subrange(0, end as int)) == Some(dot as int),
            None => last_dot(chars@.subrange(0, end as int)) is None,
        },
{
    let ghost text = chars@.subrange(0, end as int);
    let mut i: usize = end;
    assert(text.take(end as int) =~= text);
    while i > 0
        invariant
            i <= end <= chars@.len(),
            text == chars@.subrange(0, end as int),
            last_dot(text) == last_dot(text.take(i as int)),
        decreases i,
    {
        proof {
            assert(text.take(i as int).drop_last() =~= text.take(i - 1));
            assert(text.take(i as int).last() == chars@[i - 1]);
        }
        if chars[i - 1] == '.' {
            return Some(i - 1);
        }
        i -= 1;
    }
    None
}

fn segment_is(chars: &Vec<char>, from: usize, to: usize, word: &str) -> (r: bool)
    requires
        from <= to <= chars@.len(),
    ensures
        r == (chars@.subrange(from as int, to as int) == word@),
{
    let letters = chars_of(word);
    if letters.len() != to - from {
        assert(chars@.subrange(from as int, to as int).len() != word@.len());
        return false;
    }
    let mut i: usize = 0;
    while i < letters.len()
        invariant
            i <= letters@.len(),
            letters@.len() == to - from,
            letters@ == word@,
            from <= to <= chars@.len(),
            forall|j: int| 0 <= j < i ==> chars@[from + j] == letters@[j],
        decreases letters@.len() - i,
    {
        if chars[from + i] != letters[i] {
            assert(chars@.subrange(from as int, to as int)[i as int] != word@[i as int]);
            return false;
        }
        i += 1;
    }
    assert(chars@.subrange(from as int, to as int) =~= letters@);
    true
}

fn extension_type(chars: &Vec<char>, from: usize, to: usize) -> (r: Option<ShaderType>)
    requires
        from <= to <= chars@.len(),
    ensures
        r == shader_type_of_extension(chars@.subrange(from as int, to as int)),
{
    if segment_is(chars, from, to, "vert") {
        Some(ShaderType::Vertex)
    } else if segment_is(chars, from, to, "geom") {
        Some(ShaderType::Geometry)
    } else if segment_is(chars, from, to, "frag") {
        Some(ShaderType::Fragment)
    } else if segment_is(chars, from, to, "comp") {
        Some(ShaderType::Compute)
    } else {
        None
    }
}

/// Tells the shader type from the name of a file: `vert`, `geom`, `frag` or
/// `comp` as the extension, or as the extension before a final `glsl`.
pub fn shader_type_from_path(file_path: &str) -> (r: Option<ShaderType>)
    ensures
        r == shader_type_of_path(file_path@),
{
    let chars = chars_of(file_path);
    let end = chars.len();
    assert(chars@.subrange(0, end as int) =~= chars@);
    let dot = find_last_dot(&chars, end);
    let from = match dot {
        Some(dot) => dot + 1,
        None => 0,
    };
    assert(chars@.subrange(from as int, end as int) =~= last_segment(chars@));
    if !segment_is(&chars, from, end, "glsl") {
        return extension_type(&chars, from, end);
    }
    let dot = match dot {
        Some(dot) => dot,
        None => {
            return None;
        },
    };
    let stem = find_last_dot(&chars, dot);
    let start = match stem {
        Some(stem) => stem + 1,
        None => 0,
    };
    proof {
        let rest = chars@.subrange(0, dot as int);
        assert(chars@.subrange(start as int, dot as int) =~= last_segment(rest));
    }
    extension_type(&chars, start, dot)
}

/// How a shader is to be compiled.
pub struct ShaderLoadOptions {
    shader_type: ShaderType,
    optimization: ShaderOptimization,
    entry_point: String,
    name: String,
}

impl ShaderLoadOptions {
    pub fn new(shader_type: ShaderType, optimization: ShaderOptimization, entry_point: String, name: String) -> (r:
        Self)
        ensures
            r.shader_type() == shader_type,
            r.optimization() == optimization,
            r.spec_entry_point()@ == entry_point@,
            r.spec_name()@ == name@,
    {
        ShaderLoadOptions { shader_type, optimization, entry_point, name }
    }

    /// The options for a file: an entry point named `main`, no
    /// optimisation, and the shader type that the path stands for. A path
    /// that stands for no shader type has no options.
    pub fn for_file(file_path: &str, name: String) -> (r: Option<Self>)
        ensures
            match r {
                Some(options) => shader_type_of_path(file_path@) == Some(options.shader_type())
                    && options.optimization() == ShaderOptimization::Zero && options.spec_entry_point()@
                    == "main"@ && options.spec_name()@ == name@,
                None => shader_type_of_path(file_path@) is None,
            },
    {
        match shader_type_from_path(file_path) {
            Some(shader_type) => Some(
                ShaderLoadOptions {
                    shader_type,
                    optimization: ShaderOptimization::Zero,
                    entry_point: "main".to_owned(),
                    name,
                },
            ),
            None => None,
        }
    }

    pub closed spec fn spec_shader_type(&self) -> ShaderType {
        self.shader_type
    }

    pub closed spec fn spec_optimization(&self) -> ShaderOptimization {
        self.optimization
    }

    pub closed spec fn spec_entry_point(&self) -> String {
        self.entry_point
    }

    pub closed spec fn spec_name(&self) -> String {
        self.name
    }

    #[verifier::when_used_as_spec(spec_shader_type)]
    pub fn shader_type(&self) -> (r: ShaderType)
        ensures
            r == self.spec_shader_type(),
    {
        self.shader_type
    }

    #[verifier::when_used_as_spec(spec_optimization)]
    pub fn optimization(&self) -> (r: ShaderOptimization)
        ensures
            r == self.spec_optimization(),
    {
        self.optimization
    }

    pub fn entry_point(&self) -> (r: &String)
        ensures
            *r == self.spec_entry_point(),
    {
        &self.entry_point
    }

    pub fn name(&self) -> (r: &String)
        ensures
            *r == self.spec_name(),
    {
        &self.name
    }
}

/// The source that is compiled for a shader: the preamble, then the source
/// of the shader.
pub fn shader_source(source: &str) -> (r: String)
    ensures
        r@ == crate::preamble::SHADER_PREAMBLE_GLSL@ + source@,
{
    let mut out = chars_of(crate::preamble::SHADER_PREAMBLE_GLSL);
    append_text(&mut out, source);
    string_of(&out)
}

} // verus!
