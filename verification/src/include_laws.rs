use vstd::prelude::*;

use crate::shader::{
    expanded, expanded_all, include_targets, includes, includes_replaced, is_include_walk, resolved,
    source_of, SourceView, StepView, INCLUDE_PATTERN,
};
use crate::text::regex_gaps;

verus! {

/// Where the targets resolve, each of them resolves, to the fill at its
/// place.
proof fn lemma_each_target_resolves(
    files: Seq<SourceView>,
    targets: Seq<Seq<char>>,
    chain: Seq<Seq<char>>,
)
    requires
        expanded_all(files, targets, chain) is Ok,
    ensures
        expanded_all(files, targets, chain)->Ok_0.len() == targets.len(),
        forall|k: int|
            0 <= k < targets.len() ==> expanded(files, #[trigger] targets[k], chain) == StepView::Done(
                expanded_all(files, targets, chain)->Ok_0[k],
            ),
    decreases targets.len(),
{
    if targets.len() > 0 {
        let front = targets.drop_last();
        lemma_each_target_resolves(files, front, chain);
        assert forall|k: int| 0 <= k < targets.len() implies expanded(files, #[trigger] targets[k], chain)
            == StepView::Done(expanded_all(files, targets, chain)->Ok_0[k]) by {
            if k < front.len() {
                assert(targets[k] == front[k]);
            }
        }
    }
}

/// The answer of a target that does not resolve is no text.
proof fn lemma_failure_is_no_text(files: Seq<SourceView>, targets: Seq<Seq<char>>, chain: Seq<Seq<char>>)
    ensures
        expanded_all(files, targets, chain) is Err ==> !(expanded_all(files, targets, chain)->Err_0 is Done),
    decreases targets.len(),
{
    if targets.len() > 0 {
        lemma_failure_is_no_text(files, targets.drop_last(), chain);
    }
}

/// A file that resolves is not on the chain around it, was handed in, and
/// its includes resolve with the file on the chain.
proof fn lemma_done_unfolds(files: Seq<SourceView>, path: Seq<char>, chain: Seq<Seq<char>>)
    requires
        expanded(files, path, chain) is Done,
    ensures
        !chain.contains(path),
        chain.len() < files.len(),
        source_of(files, path) is Some,
        include_targets(source_of(files, path)->0.directory, source_of(files, path)->0.contents) is Some,
        expanded_all(
            files,
            include_targets(source_of(files, path)->0.directory, source_of(files, path)->0.contents)->0,
            chain.push(path),
        ) is Ok,
        includes_replaced(
            source_of(files, path)->0.contents,
            expanded_all(
                files,
                include_targets(source_of(files, path)->0.directory, source_of(files, path)->0.contents)->0,
                chain.push(path),
            )->Ok_0,
        ) == Some(expanded(files, path, chain)->Done_0),
{
    let file = source_of(files, path)->0;
    let targets = include_targets(file.directory, file.contents)->0;
    lemma_failure_is_no_text(files, targets, chain.push(path));
}

/// Along a walk from a file that resolves, every file resolves with the
/// files before it on the chain.
proof fn lemma_walk_resolves(
    files: Seq<SourceView>,
    chain: Seq<Seq<char>>,
    walk: Seq<Seq<char>>,
    i: int,
)
    requires
        is_include_walk(files, walk),
        expanded(files, walk[0], chain) is Done,
        0 <= i < walk.len(),
    ensures
        expanded(files, walk[i], chain + walk.take(i)) is Done,
    decreases i,
{
    if i == 0 {
        assert(chain + walk.take(0) =~= chain);
    } else {
        lemma_walk_resolves(files, chain, walk, i - 1);
        let before = chain + walk.take(i - 1);
        let from = walk[i - 1];
        lemma_done_unfolds(files, from, before);
        let file = source_of(files, from)->0;
        let targets = include_targets(file.directory, file.contents)->0;
        assert(includes(files, walk[i - 1], walk[i - 1 + 1]));
        assert(targets.contains(walk[i]));
        let k = choose|k: int| 0 <= k < targets.len() && targets[k] == walk[i];
        lemma_each_target_resolves(files, targets, before.push(from));
        assert(before.push(from) =~= chain + walk.take(i));
        assert(expanded(files, targets[k], before.push(from)) is Done);
    }
}

/// No cycle where the resolution is done: if the root resolves, no walk
/// along the includes from the root meets a file twice.
pub proof fn law_done_means_no_cycle(files: Seq<SourceView>, root: Seq<char>, walk: Seq<Seq<char>>)
    requires
        resolved(files, root) is Done,
        is_include_walk(files, walk),
        walk[0] == root,
    ensures
        forall|i: int, j: int| 0 <= i < j < walk.len() ==> #[trigger] walk[i] != #[trigger] walk[j],
{
    assert forall|i: int, j: int| 0 <= i < j < walk.len() implies #[trigger] walk[i] != #[trigger] walk[j] by {
        lemma_walk_resolves(files, Seq::empty(), walk, j);
        let before = Seq::<Seq<char>>::empty() + walk.take(j);
        lemma_done_unfolds(files, walk[j], before);
        assert(before[i] == walk[i]);
    }
}

/// Whether the include directives of a file cannot be handled: a directive
/// names no file, or the texts between the directives are not one more than
/// the directives.
pub open spec fn is_malformed(file: SourceView) -> bool {
    match include_targets(file.directory, file.contents) {
        None => true,
        Some(targets) => match regex_gaps(INCLUDE_PATTERN@, file.contents) {
            None => true,
            Some(gaps) => gaps.len() != targets.len() + 1,
        },
    }
}

/// Whether `chain` names files that were handed in, each of them once.
pub open spec fn chain_in_files(files: Seq<SourceView>, chain: Seq<Seq<char>>) -> bool {
    &&& chain.no_duplicates()
    &&& forall|i: int| 0 <= i < chain.len() ==> source_of(files, #[trigger] chain[i]) is Some
}

/// A file that was handed in is among the files.
proof fn lemma_source_is_among(files: Seq<SourceView>, path: Seq<char>)
    requires
        source_of(files, path) is Some,
    ensures
        exists|i: int| 0 <= i < files.len() && (#[trigger] files[i]).path == path,
    decreases files.len(),
{
    if files.last().path == path {
        assert(files[files.len() - 1].path == path);
    } else {
        lemma_source_is_among(files.drop_last(), path);
        let i = choose|i: int| 0 <= i < files.drop_last().len() && (#[trigger] files.drop_last()[i]).path == path;
        assert(files[i].path == path);
    }
}

/// The chain never grows as long as the list of files: a chain of files
/// that were handed in, each of them once, and a further such file off the
/// chain, are not more than the files that were handed in.
pub proof fn law_chain_fits(files: Seq<SourceView>, chain: Seq<Seq<char>>, path: Seq<char>)
    requires
        chain_in_files(files, chain),
        source_of(files, path) is Some,
        !chain.contains(path),
    ensures
        chain.len() < files.len(),
        chain_in_files(files, chain.push(path)),
{
    let longer = chain.push(path);
    assert(longer.no_duplicates()) by {
        assert forall|i: int, j: int| 0 <= i < longer.len() && 0 <= j < longer.len() && i != j implies longer[i]
            != longer[j] by {
            if i < chain.len() && j < chain.len() {
                assert(chain[i] != chain[j]);
            } else if i < chain.len() {
                assert(chain.contains(chain[i]));
            } else {
                assert(chain.contains(chain[j]));
            }
        }
    }
    assert forall|i: int| 0 <= i < longer.len() implies source_of(files, #[trigger] longer[i]) is Some by {
        if i < chain.len() {
            assert(longer[i] == chain[i]);
        }
    }
    let paths = Seq::new(files.len(), |i: int| files[i].path);
    assert(longer.to_set().subset_of(paths.to_set())) by {
        assert forall|x: Seq<char>| longer.to_set().contains(x) implies paths.to_set().contains(x) by {
            assert(longer.contains(x));
            let k = choose|k: int| 0 <= k < longer.len() && longer[k] == x;
            lemma_source_is_among(files, longer[k]);
            let i = choose|i: int| 0 <= i < files.len() && (#[trigger] files[i]).path == x;
            assert(paths[i] == x);
            assert(paths.contains(x));
        }
    }
    vstd::seq_lib::seq_to_set_is_finite(paths);
    vstd::set_lib::lemma_len_subset(longer.to_set(), paths.to_set());
    longer.unique_seq_to_set();
    paths.lemma_cardinality_of_set();
}

/// Why a file does not resolve, as a walk: the walk starts at the file,
/// follows the includes, and ends at the file that the answer names.
spec fn failure_walk(
    files: Seq<SourceView>,
    start: Seq<char>,
    chain: Seq<Seq<char>>,
    answer: StepView,
    walk: Seq<Seq<char>>,
) -> bool {
    &&& is_include_walk(files, walk)
    &&& walk[0] == start
    &&& match answer {
        StepView::Cyclic(path) => walk.last() == path && (chain + walk.drop_last()).contains(path),
        StepView::NeedFile(path) => walk.last() == path && source_of(files, path) is None,
        StepView::Malformed => source_of(files, walk.last()) is Some && is_malformed(
            source_of(files, walk.last())->0,
        ),
        StepView::Done(_) => true,
    }
}

proof fn lemma_failure_walk(files: Seq<SourceView>, path: Seq<char>, chain: Seq<Seq<char>>) -> (walk: Seq<
    Seq<char>,
>)
    requires
        chain_in_files(files, chain),
    ensures
        failure_walk(files, path, chain, expanded(files, path, chain), walk),
    decreases files.len() - chain.len(), 0nat,
{
    let answer = expanded(files, path, chain);
    let alone = seq![path];
    assert(alone.drop_last() =~= Seq::<Seq<char>>::empty());
    assert(chain + alone.drop_last() =~= chain);
    if chain.contains(path) {
        alone
    } else {
        match source_of(files, path) {
            None => alone,
            Some(file) => {
                law_chain_fits(files, chain, path);
                if chain.len() >= files.len() {
                    alone
                } else {
                    match include_targets(file.directory, file.contents) {
                        None => alone,
                        Some(targets) => {
                            match expanded_all(files, targets, chain.push(path)) {
                                Ok(fills) => {
                                    lemma_each_target_resolves(files, targets, chain.push(path));
                                    alone
                                },
                                Err(failed) => {
                                    let (k, rest) = lemma_failure_walk_all(
                                        files,
                                        targets,
                                        chain.push(path),
                                    );
                                    let walk = alone + rest;
                                    assert(targets.contains(targets[k]));
                                    assert(includes(files, path, rest[0]));
                                    assert forall|i: int| 0 <= i < walk.len() - 1 implies includes(
                                        files,
                                        #[trigger] walk[i],
                                        walk[i + 1],
                                    ) by {
                                        if i > 0 {
                                            assert(walk[i] == rest[i - 1]);
                                            assert(walk[i + 1] == rest[i - 1 + 1]);
                                        }
                                    }
                                    assert(walk.last() == rest.last());
                                    assert(chain + walk.drop_last() =~= chain.push(path) + rest.drop_last());
                                    walk
                                },
                            }
                        },
                    }
                }
            },
        }
    }
}

proof fn lemma_failure_walk_all(
    files: Seq<SourceView>,
    targets: Seq<Seq<char>>,
    chain: Seq<Seq<char>>,
) -> (r: (int, Seq<Seq<char>>))
    requires
        chain_in_files(files, chain),
        expanded_all(files, targets, chain) is Err,
    ensures
        0 <= r.0 < targets.len(),
        failure_walk(files, targets[r.0], chain, expanded_all(files, targets, chain)->Err_0, r.1),
    decreases files.len() - chain.len(), 1 + targets.len(),
{
    let front = targets.drop_last();
    match expanded_all(files, front, chain) {
        Err(failed) => {
            let (k, walk) = lemma_failure_walk_all(files, front, chain);
            assert(front[k] == targets[k]);
            (k, walk)
        },
        Ok(fills) => {
            let walk = lemma_failure_walk(files, targets.last(), chain);
            (targets.len() - 1, walk)
        },
    }
}

/// A cycle where the resolution says so: if the answer is `Cyclic` for a
/// file, the walk that comes back leads along the includes from the root to
/// that file, and has met the file before.
pub proof fn law_cyclic_means_cycle(files: Seq<SourceView>, root: Seq<char>) -> (walk: Seq<Seq<char>>)
    requires
        resolved(files, root) is Cyclic,
    ensures
        is_include_walk(files, walk),
        walk[0] == root,
        walk.last() == resolved(files, root)->Cyclic_0,
        walk.drop_last().contains(walk.last()),
{
    let walk = lemma_failure_walk(files, root, Seq::empty());
    assert(Seq::<Seq<char>>::empty() + walk.drop_last() =~= walk.drop_last());
    walk
}

/// Malformed includes where the resolution says so: if the answer is
/// `Malformed`, the root reaches along the includes a file that was handed
/// in and whose include directives cannot be handled. The length of the
/// chain never decides.
pub proof fn law_malformed_means_bad_file(files: Seq<SourceView>, root: Seq<char>) -> (walk: Seq<Seq<char>>)
    requires
        resolved(files, root) is Malformed,
    ensures
        is_include_walk(files, walk),
        walk[0] == root,
        source_of(files, walk.last()) is Some,
        is_malformed(source_of(files, walk.last())->0),
{
    lemma_failure_walk(files, root, Seq::empty())
}

/// A file that is asked for was not handed in, and the root reaches it
/// along the includes.
pub proof fn law_need_file_is_missing(files: Seq<SourceView>, root: Seq<char>) -> (walk: Seq<Seq<char>>)
    requires
        resolved(files, root) is NeedFile,
    ensures
        is_include_walk(files, walk),
        walk[0] == root,
        walk.last() == resolved(files, root)->NeedFile_0,
        source_of(files, walk.last()) is None,
{
    lemma_failure_walk(files, root, Seq::empty())
}

/// Whether every file of `shorter` is on `chain`, and `shorter` is no longer
/// than it.
spec fn within(shorter: Seq<Seq<char>>, chain: Seq<Seq<char>>) -> bool {
    &&& shorter.len() <= chain.len()
    &&& forall|x: Seq<char>| #[trigger] shorter.contains(x) ==> chain.contains(x)
}

proof fn lemma_within_push(shorter: Seq<Seq<char>>, chain: Seq<Seq<char>>, path: Seq<char>)
    requires
        within(shorter, chain),
    ensures
        within(shorter.push(path), chain.push(path)),
{
    assert forall|x: Seq<char>| #[trigger] shorter.push(path).contains(x) implies chain.push(path).contains(
        x,
    ) by {
        let i = choose|i: int| 0 <= i < shorter.push(path).len() && shorter.push(path)[i] == x;
        if i < shorter.len() {
            assert(shorter[i] == x);
            assert(shorter.contains(x));
            let j = choose|j: int| 0 <= j < chain.len() && chain[j] == x;
            assert(chain.push(path)[j] == x);
        } else {
            assert(chain.push(path)[chain.len() as int] == x);
        }
    }
}

/// A file that resolves with a chain around it resolves to the same text
/// with fewer files around it.
proof fn lemma_shorter_chain(
    files: Seq<SourceView>,
    path: Seq<char>,
    chain: Seq<Seq<char>>,
    shorter: Seq<Seq<char>>,
)
    requires
        expanded(files, path, chain) is Done,
        within(shorter, chain),
    ensures
        expanded(files, path, shorter) == expanded(files, path, chain),
    decreases files.len() - chain.len(), 0nat,
{
    lemma_done_unfolds(files, path, chain);
    let file = source_of(files, path)->0;
    let targets = include_targets(file.directory, file.contents)->0;
    lemma_within_push(shorter, chain, path);
    lemma_shorter_chain_all(files, targets, chain.push(path), shorter.push(path));
}

proof fn lemma_shorter_chain_all(
    files: Seq<SourceView>,
    targets: Seq<Seq<char>>,
    chain: Seq<Seq<char>>,
    shorter: Seq<Seq<char>>,
)
    requires
        expanded_all(files, targets, chain) is Ok,
        within(shorter, chain),
    ensures
        expanded_all(files, targets, shorter) == expanded_all(files, targets, chain),
    decreases files.len() - chain.len(), 1 + targets.len(),
{
    if targets.len() > 0 {
        lemma_shorter_chain_all(files, targets.drop_last(), chain, shorter);
        lemma_shorter_chain(files, targets.last(), chain, shorter);
    }
}

/// The text of a root that resolves: the text of the root file with its
/// `k`-th include directive replaced by `fills[k]`, where `fills[k]` is what
/// the `k`-th included file resolves to on its own. It is the same text at
/// every place where the file is included.
pub proof fn law_include_text(files: Seq<SourceView>, root: Seq<char>) -> (fills: Seq<Seq<char>>)
    requires
        resolved(files, root) is Done,
    ensures
        source_of(files, root) is Some,
        include_targets(source_of(files, root)->0.directory, source_of(files, root)->0.contents) is Some,
        fills.len() == include_targets(
            source_of(files, root)->0.directory,
            source_of(files, root)->0.contents,
        )->0.len(),
        forall|k: int|
            0 <= k < fills.len() ==> resolved(
                files,
                include_targets(source_of(files, root)->0.directory, source_of(files, root)->0.contents)->0[k],
            ) == StepView::Done(#[trigger] fills[k]),
        includes_replaced(source_of(files, root)->0.contents, fills) == Some(resolved(files, root)->Done_0),
{
    let none = Seq::<Seq<char>>::empty();
    lemma_done_unfolds(files, root, none);
    let file = source_of(files, root)->0;
    let targets = include_targets(file.directory, file.contents)->0;
    let around = none.push(root);
    let fills = expanded_all(files, targets, around)->Ok_0;
    lemma_each_target_resolves(files, targets, around);
    assert forall|k: int| 0 <= k < fills.len() implies resolved(files, targets[k]) == StepView::Done(
        #[trigger] fills[k],
    ) by {
        assert(expanded(files, targets[k], around) == StepView::Done(fills[k]));
        lemma_shorter_chain(files, targets[k], around, none);
    }
    fills
}

/// Whether a walk along the includes comes back to a file that it has met.
pub open spec fn closes_a_cycle(walk: Seq<Seq<char>>) -> bool {
    walk.drop_last().contains(walk.last())
}

/// The law of the whole resolution. Where every file that the root reaches
/// along the includes was handed in, and the include directives of each can
/// be handled, the resolution answers with the text or with a cycle, and
/// with a cycle exactly where a walk from the root comes back to a file
/// that it has met. The text is then the one of `law_include_text`.
pub proof fn law_resolution(files: Seq<SourceView>, root: Seq<char>)
    requires
        forall|walk: Seq<Seq<char>>|
            #[trigger] is_include_walk(files, walk) && walk[0] == root ==> source_of(
                files,
                walk.last(),
            ) is Some && !is_malformed(source_of(files, walk.last())->0),
    ensures
        resolved(files, root) is Done || resolved(files, root) is Cyclic,
        resolved(files, root) is Cyclic <==> exists|walk: Seq<Seq<char>>|
            #[trigger] is_include_walk(files, walk) && walk[0] == root && closes_a_cycle(walk),
{
    match resolved(files, root) {
        StepView::NeedFile(_) => {
            let walk = law_need_file_is_missing(files, root);
            assert(is_include_walk(files, walk));
        },
        StepView::Malformed => {
            let walk = law_malformed_means_bad_file(files, root);
            assert(is_include_walk(files, walk));
        },
        StepView::Cyclic(_) => {
            let walk = law_cyclic_means_cycle(files, root);
            assert(is_include_walk(files, walk) && walk[0] == root && closes_a_cycle(walk));
        },
        StepView::Done(_) => {
            assert forall|walk: Seq<Seq<char>>|
                #[trigger] is_include_walk(files, walk) && walk[0] == root implies !closes_a_cycle(walk) by {
                law_done_means_no_cycle(files, root, walk);
                if closes_a_cycle(walk) {
                    let front = walk.drop_last();
                    let i = choose|i: int| 0 <= i < front.len() && front[i] == walk.last();
                    assert(walk[i] == walk[walk.len() - 1]);
                }
            }
        },
    }
}

} // verus!
