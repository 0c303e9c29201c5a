//! Source paths as they are shown in a log line: relative to the source root
//! and cut down to a number of trailing components.
//!
//! A path is read as components separated by `/`. Splitting keeps every
//! component, empty ones included, so that joining the components of a path
//! with `/` gives back exactly that path.

use crate::text::{chars_of, push_chars, same_chars};
use vstd::prelude::*;

verus! {

/// The character that separates the components of a path.
pub open spec fn separator() -> char {
    '/'
}

/// The name of the directory that marks a project's source root.
pub open spec fn source_root() -> Seq<char> {
    "src"@
}

/// The components of `path`: the runs of characters between separators, in
/// order. A path without a separator is its own single component.
pub open spec fn split(path: Seq<char>) -> Seq<Seq<char>>
    decreases path.len(),
{
    if path.len() == 0 {
        seq![Seq::<char>::empty()]
    } else {
        let before = split(path.drop_last());
        if path.last() == separator() {
            before.push(Seq::<char>::empty())
        } else {
            before.drop_last().push(before.last().push(path.last()))
        }
    }
}

/// The components written one after another with a separator between each
/// two neighbours.
pub open spec fn join(parts: Seq<Seq<char>>) -> Seq<char>
    decreases parts.len(),
{
    if parts.len() == 0 {
        Seq::<char>::empty()
    } else if parts.len() == 1 {
        parts[0]
    } else {
        join(parts.drop_last()) + seq![separator()] + parts.last()
    }
}

/// The last `count` of `parts`; all of them when there are no more than
/// `count`.
pub open spec fn last_parts(parts: Seq<Seq<char>>, count: nat) -> Seq<Seq<char>> {
    if count >= parts.len() {
        parts
    } else {
        parts.skip(parts.len() - count)
    }
}

/// The components from the first one named `src` on; all of them when none
/// has that name.
pub open spec fn from_source_root(parts: Seq<Seq<char>>) -> Seq<Seq<char>> {
    match parts.index_of_first(source_root()) {
        Some(root) => parts.skip(root),
        None => parts,
    }
}

/// The components that are shown under a depth limit: a limit of zero shows
/// every one, any other limit shows at most that many, counted from the end.
pub open spec fn within_depth(parts: Seq<Seq<char>>, depth: nat) -> Seq<Seq<char>> {
    if depth == 0 {
        parts
    } else {
        last_parts(parts, depth)
    }
}

/// The path shown for the source file `path` under the depth limit `depth`.
pub open spec fn relative_path(path: Seq<char>, depth: nat) -> Seq<char> {
    join(within_depth(from_source_root(split(path)), depth))
}

/// The character sequences held by a vector of components.
spec fn views(parts: Seq<Vec<char>>) -> Seq<Seq<char>> {
    Seq::new(parts.len(), |i: int| parts[i]@)
}

/// A path always has at least one component.
pub proof fn lemma_split_is_never_empty(path: Seq<char>)
    ensures
        split(path).len() >= 1,
    decreases path.len(),
{
    if path.len() > 0 {
        lemma_split_is_never_empty(path.drop_last());
    }
}

/// No component of a path holds a separator.
pub proof fn lemma_split_parts_hold_no_separator(path: Seq<char>)
    ensures
        forall|i: int|
            0 <= i < split(path).len() ==> !(#[trigger] split(path)[i]).contains(separator()),
    decreases path.len(),
{
    if path.len() > 0 {
        lemma_split_is_never_empty(path.drop_last());
        lemma_split_parts_hold_no_separator(path.drop_last());
    }
}

/// Joining the components of a path gives the path back, character for
/// character.
pub proof fn lemma_join_undoes_split(path: Seq<char>)
    ensures
        join(split(path)) == path,
    decreases path.len(),
{
    if path.len() > 0 {
        let shorter = path.drop_last();
        let before = split(shorter);
        lemma_split_is_never_empty(shorter);
        lemma_join_undoes_split(shorter);
        if path.last() == separator() {
            // A separator at the end opens a new, empty component.
            assert(before.push(Seq::<char>::empty()).drop_last() == before);
        } else if before.len() > 1 {
            // Any other character lengthens the last component.
            let parts = before.drop_last().push(before.last().push(path.last()));
            assert(parts.drop_last() == before.drop_last());
            assert(join(parts) == join(before).push(path.last()));
        }
    }
}

/// Characters other than the separator, added at the end of a path, lengthen
/// its last component and leave the others alone.
proof fn lemma_split_of_extended_path(path: Seq<char>, tail: Seq<char>)
    requires
        !tail.contains(separator()),
    ensures
        split(path).len() >= 1,
        split(path + tail) == split(path).drop_last().push(split(path).last() + tail),
    decreases tail.len(),
{
    lemma_split_is_never_empty(path);
    if tail.len() > 0 {
        let shorter = tail.drop_last();
        lemma_split_of_extended_path(path, shorter);
        assert((path + tail).drop_last() == path + shorter);
        assert((split(path).last() + shorter).push(tail.last()) == split(path).last() + tail);
    }
}

/// Splitting undoes joining: components that hold no separator, at least one
/// of them, are exactly the components of the path they join to.
pub proof fn lemma_split_undoes_join(parts: Seq<Seq<char>>)
    requires
        parts.len() >= 1,
        forall|i: int| 0 <= i < parts.len() ==> !(#[trigger] parts[i]).contains(separator()),
    ensures
        split(join(parts)) == parts,
    decreases parts.len(),
{
    if parts.len() == 1 {
        lemma_split_of_extended_path(Seq::<char>::empty(), parts[0]);
    } else {
        // The path up to and with the last separator splits into the earlier
        // components and an empty one, which the last component then fills.
        let init = parts.drop_last();
        lemma_split_undoes_join(init);
        let stem = join(init) + seq![separator()];
        assert(stem.drop_last() == join(init));
        lemma_split_of_extended_path(stem, parts.last());
    }
}

/// With a limit of zero, a path whose first `src` component stands at `root`
/// is shown from that component to the end. With any other limit it is shown
/// as the last `depth` components of that stretch, or as the whole stretch
/// where it has no more than `depth`.
pub proof fn lemma_path_with_source_root(path: Seq<char>, depth: nat, root: int)
    requires
        0 <= root < split(path).len(),
        split(path)[root] == source_root(),
        forall|j: int| 0 <= j < root ==> split(path)[j] != source_root(),
    ensures
        relative_path(path, 0) == join(split(path).skip(root)),
        relative_path(path, depth) == join(within_depth(split(path).skip(root), depth)),
        depth >= 1 ==> within_depth(split(path).skip(root), depth).len() == vstd::math::min(
            depth as int,
            split(path).len() - root,
        ),
        depth >= 1 ==> within_depth(split(path).skip(root), depth) == last_parts(
            split(path).skip(root),
            depth,
        ),
{
    split(path).index_of_first_ensures(source_root());
}

/// A path without a `src` component is shown unchanged under a limit of zero.
/// Under any other limit it is shown as its last `depth` components, or as
/// all of them where it has no more than `depth`.
pub proof fn lemma_path_without_source_root(path: Seq<char>, depth: nat)
    requires
        forall|j: int| 0 <= j < split(path).len() ==> split(path)[j] != source_root(),
    ensures
        relative_path(path, 0) == path,
        depth >= 1 ==> relative_path(path, depth) == join(last_parts(split(path), depth)),
        depth >= 1 ==> last_parts(split(path), depth).len() == vstd::math::min(
            depth as int,
            split(path).len() as int,
        ),
{
    split(path).index_of_first_ensures(source_root());
    lemma_join_undoes_split(path);
}

/// A path that holds no separator and is not itself `src` is shown as it is,
/// whatever the limit.
pub proof fn lemma_single_component_path(path: Seq<char>, depth: nat)
    requires
        !path.contains(separator()),
        path != source_root(),
    ensures
        relative_path(path, depth) == path,
{
    lemma_split_of_extended_path(Seq::<char>::empty(), path);
    split(path).index_of_first_ensures(source_root());
}

/// Splits a path into its components.
fn components(path: &Vec<char>) -> (parts: Vec<Vec<char>>)
    ensures
        views(parts@) == split(path@),
{
    let mut parts: Vec<Vec<char>> = Vec::new();
    let mut current: Vec<char> = Vec::new();
    let mut i: usize = 0;
    while i < path.len()
        invariant
            i <= path@.len(),
            views(parts@).push(current@) == split(path@.take(i as int)),
        decreases path@.len() - i,
    {
        let c = path[i];
        assert(path@.take(i + 1).drop_last() == path@.take(i as int));
        if c == '/' {
            parts.push(current);
            current = Vec::new();
        } else {
            current.push(c);
        }
        i = i + 1;
    }
    assert(path@.take(path@.len() as int) == path@);
    parts.push(current);
    parts
}

/// The place of the first component named `src`, if there is one.
fn source_root_index(parts: &Vec<Vec<char>>) -> (found: Option<usize>)
    ensures
        (match found {
            Some(root) => views(parts@).index_of_first(source_root()) == Some(root as int),
            None => views(parts@).index_of_first(source_root()) is None,
        }),
{
    let name = chars_of("src");
    let mut i: usize = 0;
    proof {
        views(parts@).index_of_first_ensures(source_root());
    }
    while i < parts.len()
        invariant
            i <= parts@.len(),
            name@ == source_root(),
            forall|j: int| 0 <= j < i ==> views(parts@)[j] != source_root(),
            match views(parts@).index_of_first(source_root()) {
                Some(index) => {
                    &&& 0 <= index < views(parts@).len()
                    &&& views(parts@)[index] == source_root()
                    &&& forall|j: int| 0 <= j < index ==> views(parts@)[j] != source_root()
                },
                None => !views(parts@).contains(source_root()),
            },
        decreases parts@.len() - i,
    {
        if same_chars(&parts[i], &name) {
            assert(views(parts@)[i as int] == source_root());
            return Some(i);
        }
        i = i + 1;
    }
    None
}

/// Joins the components from `first` on.
fn join_from(parts: &Vec<Vec<char>>, first: usize) -> (out: String)
    requires
        first <= parts@.len(),
    ensures
        out@ == join(views(parts@).skip(first as int)),
{
    let mut out = String::new();
    let mut i: usize = first;
    while i < parts.len()
        invariant
            first <= i <= parts@.len(),
            out@ == join(views(parts@).subrange(first as int, i as int)),
        decreases parts@.len() - i,
    {
        assert(views(parts@).subrange(first as int, i + 1).drop_last() == views(parts@).subrange(
            first as int,
            i as int,
        ));
        if i > first {
            out.push('/');
        }
        push_chars(&mut out, &parts[i]);
        i = i + 1;
    }
    out
}

/// The path shown for a record's source file.
///
/// Every component before the first one named `src` is dropped, so that the
/// path is relative to the project's source root; a path without such a
/// component is kept whole. Of what is left, a `depth` of zero shows all, and
/// any other `depth` shows the last `depth` components, or all of them where
/// there are no more than that.
pub fn get_project_relative_path(file_path: &str, depth: usize) -> (shown: String)
    ensures
        shown@ == relative_path(file_path@, depth as nat),
{
    let path = chars_of(file_path);
    let parts = components(&path);
    proof {
        lemma_split_is_never_empty(path@);
        views(parts@).index_of_first_ensures(source_root());
    }
    let root: usize = match source_root_index(&parts) {
        Some(index) => index,
        None => 0,
    };
    let total: usize = parts.len() - root;
    let first: usize = if depth == 0 || depth >= total {
        root
    } else {
        parts.len() - depth
    };
    assert(within_depth(from_source_root(views(parts@)), depth as nat) == views(parts@).skip(
        first as int,
    ));
    join_from(&parts, first)
}

} // verus!
