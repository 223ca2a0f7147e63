//! What the file actions of a system plan do to the files on disk.
//!
//! The files are a map from path to text. Directories are not modelled
//! (creating one changes no file), nor are the effects of commands that a
//! plan runs: the model gives the files after a plan whose every action
//! succeeded, where a `Fail` action ends the plan.
use vstd::prelude::*;

use crate::dns_sys::ActionView;

verus! {

/// Whether `p` names a file directly inside the directory `dir`: `dir`, a
/// slash, and a non-empty name without slashes.
pub open spec fn file_in_dir(p: Seq<char>, dir: Seq<char>) -> bool {
    &&& p.len() > dir.len() + 1
    &&& p.take(dir.len() as int) == dir
    &&& p[dir.len() as int] == '/'
    &&& forall|i: int| dir.len() < i < p.len() ==> p[i] != '/'
}

/// Whether `part` occurs in `text`.
pub open spec fn text_has(text: Seq<char>, part: Seq<char>) -> bool {
    exists|i: int|
        0 <= i && i + part.len() <= text.len() && #[trigger] text.subrange(i, i + part.len())
            == part
}

/// `files` without the files directly in `dir` whose text holds `marker`.
pub open spec fn without_marked(
    files: Map<Seq<char>, Seq<char>>,
    dir: Seq<char>,
    marker: Seq<char>,
) -> Map<Seq<char>, Seq<char>> {
    Map::new(
        |p: Seq<char>| files.dom().contains(p) && !(file_in_dir(p, dir) && text_has(files[p], marker)),
        |p: Seq<char>| files[p],
    )
}

/// The files after the action `a`.
pub open spec fn after_action(files: Map<Seq<char>, Seq<char>>, a: ActionView) -> Map<
    Seq<char>,
    Seq<char>,
> {
    match a {
        ActionView::WriteFile(p, c) => files.insert(p, c),
        ActionView::RemoveFileIfExists(p) => files.remove(p),
        ActionView::RemoveFile(p) => files.remove(p),
        ActionView::RemoveManagedFiles(dir, marker) => without_marked(files, dir, marker),
        ActionView::CopyFile(from, to) => if files.dom().contains(from) {
            files.insert(to, files[from])
        } else {
            files
        },
        _ => files,
    }
}

/// The files after the actions of `plan`, in order; a `Fail` action ends
/// the plan.
pub open spec fn after_plan(files: Map<Seq<char>, Seq<char>>, plan: Seq<ActionView>) -> Map<
    Seq<char>,
    Seq<char>,
>
    decreases plan.len(),
{
    if plan.len() == 0 {
        files
    } else if plan[0] is Fail {
        files
    } else {
        after_plan(after_action(files, plan[0]), plan.skip(1))
    }
}

/// Running two plans one after the other is running their concatenation,
/// when the first never fails.
pub proof fn lemma_after_plan_concat(
    files: Map<Seq<char>, Seq<char>>,
    a: Seq<ActionView>,
    b: Seq<ActionView>,
)
    requires
        forall|i: int| 0 <= i < a.len() ==> !(#[trigger] a[i] is Fail),
    ensures
        after_plan(files, a + b) == after_plan(after_plan(files, a), b),
    decreases a.len(),
{
    if a.len() == 0 {
        assert(a + b =~= b);
    } else {
        assert((a + b)[0] == a[0]);
        assert((a + b).skip(1) =~= a.skip(1) + b);
        assert forall|i: int| 0 <= i < a.skip(1).len() implies !(#[trigger] a.skip(1)[i] is Fail) by {
            assert(a.skip(1)[i] == a[i + 1]);
        }
        lemma_after_plan_concat(after_action(files, a[0]), a.skip(1), b);
    }
}

/// Removing the marked files twice removes no more than once.
pub proof fn lemma_without_marked_twice(
    files: Map<Seq<char>, Seq<char>>,
    dir: Seq<char>,
    marker: Seq<char>,
)
    ensures
        without_marked(without_marked(files, dir, marker), dir, marker) == without_marked(
            files,
            dir,
            marker,
        ),
{
    assert(without_marked(without_marked(files, dir, marker), dir, marker) =~= without_marked(
        files,
        dir,
        marker,
    ));
}

/// Writing marked files into `dir`, where no unmarked file stands at their
/// paths, changes nothing once the marked files are removed.
pub proof fn lemma_marked_writes_vanish(
    files: Map<Seq<char>, Seq<char>>,
    writes: Seq<ActionView>,
    dir: Seq<char>,
    marker: Seq<char>,
)
    requires
        forall|i: int|
            0 <= i < writes.len() ==> (#[trigger] writes[i] matches ActionView::WriteFile(p, c)
                && file_in_dir(p, dir) && text_has(c, marker) && (files.dom().contains(p)
                ==> text_has(files[p], marker))),
    ensures
        without_marked(after_plan(files, writes), dir, marker) == without_marked(files, dir, marker),
    decreases writes.len(),
{
    if writes.len() > 0 {
        let w = writes[0];
        let rest = writes.skip(1);
        if let ActionView::WriteFile(p0, c0) = w {
            let next = files.insert(p0, c0);
            assert forall|i: int|
                0 <= i < rest.len() implies (#[trigger] rest[i] matches ActionView::WriteFile(p, c)
                    && file_in_dir(p, dir) && text_has(c, marker) && (next.dom().contains(p)
                    ==> text_has(next[p], marker))) by {
                assert(rest[i] == writes[i + 1]);
            }
            lemma_marked_writes_vanish(next, rest, dir, marker);
            assert(without_marked(next, dir, marker) =~= without_marked(files, dir, marker));
        }
    }
}


/// Some action of `writes` writes `content` to `p`.
pub open spec fn writes_to(writes: Seq<ActionView>, p: Seq<char>, content: Seq<char>) -> bool {
    exists|i: int| 0 <= i < writes.len() && #[trigger] writes[i] == ActionView::WriteFile(p, content)
}

/// Writing the same text to several paths: each path written holds it
/// after, and every other file is as it was.
pub proof fn lemma_uniform_writes(
    files: Map<Seq<char>, Seq<char>>,
    writes: Seq<ActionView>,
    content: Seq<char>,
)
    requires
        forall|i: int|
            0 <= i < writes.len() ==> (#[trigger] writes[i] matches ActionView::WriteFile(_, c)
                && c == content),
    ensures
        forall|p: Seq<char>|
            #[trigger] writes_to(writes, p, content) ==> after_plan(files, writes).contains_key(p)
                && after_plan(files, writes)[p] == content,
        forall|p: Seq<char>|
            !#[trigger] writes_to(writes, p, content) ==> (after_plan(files, writes).contains_key(p)
                == files.contains_key(p) && (files.contains_key(p) ==> after_plan(files, writes)[p]
                == files[p])),
    decreases writes.len(),
{
    if writes.len() == 0 {
        assert forall|p: Seq<char>| !#[trigger] writes_to(writes, p, content) by {}
    } else {
        let w = writes[0];
        let rest = writes.skip(1);
        assert forall|i: int|
            0 <= i < rest.len() implies (#[trigger] rest[i] matches ActionView::WriteFile(_, c) && c
                == content) by {
            assert(rest[i] == writes[i + 1]);
        }
        if let ActionView::WriteFile(q, c) = w {
            let next = files.insert(q, c);
            lemma_uniform_writes(next, rest, content);
            let after = after_plan(files, writes);
            assert(after == after_plan(next, rest));
            assert forall|p: Seq<char>| #[trigger] writes_to(writes, p, content) implies after.contains_key(
                p,
            ) && after[p] == content by {
                if !writes_to(rest, p, content) {
                    let i = choose|i: int|
                        0 <= i < writes.len() && #[trigger] writes[i] == ActionView::WriteFile(
                            p,
                            content,
                        );
                    if i > 0 {
                        assert(rest[i - 1] == writes[i]);
                    }
                    assert(p == q);
                }
            }
            assert forall|p: Seq<char>| !#[trigger] writes_to(writes, p, content) implies (
            after.contains_key(p) == files.contains_key(p) && (files.contains_key(p) ==> after[p]
                == files[p])) by {
                assert(writes[0] == ActionView::WriteFile(q, content));
                assert(p != q);
                if writes_to(rest, p, content) {
                    let i = choose|i: int|
                        0 <= i < rest.len() && #[trigger] rest[i] == ActionView::WriteFile(
                            p,
                            content,
                        );
                    assert(writes[i + 1] == rest[i]);
                }
            }
        }
    }
}

} // verus!
