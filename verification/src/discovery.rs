//! Project layout discovery: from a working directory, the nearest ancestor
//! (or the directory itself) that contains the project configuration
//! directory.

use vstd::prelude::*;
use crate::paths::FsPath;
use crate::paths::clone_parts;

verus! {

/// The index of the nearest marked candidate: candidates are the prefixes of
/// the working directory, from the root (index 0) to the directory itself,
/// and the nearest is the longest marked one.
pub open spec fn spec_nearest_marked(marks: Seq<bool>) -> Option<int>
    decreases marks.len(),
{
    if marks.len() == 0 {
        None
    } else if marks.last() {
        Some(marks.len() - 1)
    } else {
        spec_nearest_marked(marks.drop_last())
    }
}

/// The nearest marked index carries a mark, and nothing above it does; when
/// there is none, nothing is marked at all.
pub proof fn lemma_nearest_marked_props(marks: Seq<bool>)
    ensures
        match spec_nearest_marked(marks) {
            Some(i) => 0 <= i < marks.len() && marks[i] && (forall|j: int|
                i < j < marks.len() ==> !marks[j]),
            None => forall|j: int| 0 <= j < marks.len() ==> !marks[j],
        },
    decreases marks.len(),
{
    if marks.len() > 0 && !marks.last() {
        let dl = marks.drop_last();
        lemma_nearest_marked_props(dl);
        match spec_nearest_marked(dl) {
            Some(i) => {
                assert(marks[i] == dl[i]);
                assert forall|j: int| i < j < marks.len() implies !(#[trigger] marks[j]) by {
                    if j < marks.len() - 1 {
                        assert(!dl[j]);
                    }
                }
            },
            None => {
                assert forall|j: int| 0 <= j < marks.len() implies !(#[trigger] marks[j]) by {
                    if j < marks.len() - 1 {
                        assert(!dl[j]);
                    }
                }
            },
        }
    }
}

/// A marked index with nothing marked above it is the nearest.
proof fn lemma_nearest_marked_at(marks: Seq<bool>, i: int)
    requires
        0 <= i < marks.len(),
        marks[i],
        forall|j: int| i < j < marks.len() ==> !marks[j],
    ensures
        spec_nearest_marked(marks) == Some(i),
    decreases marks.len(),
{
    if i != marks.len() - 1 {
        lemma_nearest_marked_at(marks.drop_last(), i);
    }
}

/// Discovery is ancestor-stable: when resolution from a working directory
/// finds the project root strictly below depth `m`, resolution from the
/// ancestor at depth `m` (over the same directory tree, hence the truncated
/// marks) finds the same root.
pub proof fn lemma_discovery_ancestor_stable(marks: Seq<bool>, m: int)
    requires
        0 <= m <= marks.len(),
        (spec_nearest_marked(marks) matches Some(i) && i < m),
    ensures
        spec_nearest_marked(marks.take(m)) == spec_nearest_marked(marks),
{
    lemma_nearest_marked_props(marks);
    let i = spec_nearest_marked(marks)->0;
    assert(marks.take(m)[i] == marks[i]);
    assert(forall|j: int| i < j < m ==> !(#[trigger] marks.take(m)[j]));
    lemma_nearest_marked_at(marks.take(m), i);
}

/// Resolves the project configuration directory from a working directory.
/// `marks[i]` says whether the prefix of `cwd` with `i` components has a
/// child named `.codex`; the resolver walks from the directory itself
/// upward and returns the first hit, as the configuration directory itself.
pub fn discover_project_codex_dir(cwd: &FsPath, marks: &Vec<bool>) -> (r: Option<FsPath>)
    requires
        marks@.len() == cwd@.parts.len() + 1,
    ensures
        match spec_nearest_marked(marks@) {
            Some(i) => (r matches Some(p) && p@.absolute == cwd@.absolute && p@.parts
                == cwd@.parts.take(i).push(".codex"@)),
            None => r is None,
        },
{
    let mut i: usize = marks.len();
    while i > 0
        invariant
            i <= marks@.len(),
            marks@.len() == cwd@.parts.len() + 1,
            forall|j: int| i <= j < marks@.len() ==> !marks@[j],
        decreases i,
    {
        if marks[i - 1] {
            proof {
                lemma_nearest_marked_at(marks@, i - 1);
            }
            let mut parts = clone_parts(&cwd.parts);
            parts.truncate(i - 1);
            let found = FsPath { absolute: cwd.absolute, parts };
            let dir = found.child(".codex");
            proof {
                assert(found@.parts =~= cwd@.parts.take(i - 1));
            }
            return Some(dir);
        }
        i = i - 1;
    }
    proof {
        lemma_nearest_marked_props(marks@);
        if spec_nearest_marked(marks@) is Some {
            let k = spec_nearest_marked(marks@)->0;
            assert(!marks@[k]);
        }
    }
    None
}

} // verus!
