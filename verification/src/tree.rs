//! Facts about paths in the category tree.

use crate::state::ForumState;
use crate::types::CategoryId;
use vstd::prelude::*;

verus! {

/// A path starts at the category asked for and is never empty.
pub proof fn lemma_path_head(s: ForumState, c: CategoryId)
    ensures
        s.path(c).len() >= 1,
        s.path(c)[0] == c,
        forall|i: int| 0 <= i < s.path(c).len() ==> #[trigger] s.path(c)[i] <= c,
    decreases c,
{
    match s.parent_of(c) {
        Some(p) => {
            lemma_path_head(s, p);
            assert forall|i: int| 0 <= i < s.path(c).len() implies #[trigger] s.path(c)[i] <= c by {
                if i > 0 {
                    assert(s.path(c)[i] == s.path(p)[i - 1]);
                }
            }
        },
        None => {},
    }
}

/// Each step of a path goes from a category to its parent, and the path ends
/// where there is no parent.
pub proof fn lemma_path_steps(s: ForumState, c: CategoryId, i: int)
    requires
        0 <= i < s.path(c).len(),
    ensures
        i + 1 < s.path(c).len() ==> s.parent_of(s.path(c)[i]) == Some(s.path(c)[i + 1]),
        i + 1 == s.path(c).len() ==> s.parent_of(s.path(c)[i]) is None,
        s.path(s.path(c)[i]) == s.path(c).subrange(i, s.path(c).len() as int),
    decreases c,
{
    lemma_path_head(s, c);
    match s.parent_of(c) {
        Some(p) => {
            lemma_path_head(s, p);
            if i == 0 {
                assert(s.path(c)[1] == s.path(p)[0]);
                assert(s.path(c).subrange(0, s.path(c).len() as int) =~= s.path(c));
            } else {
                lemma_path_steps(s, p, i - 1);
                assert(s.path(c)[i] == s.path(p)[i - 1]);
                if i + 1 < s.path(c).len() {
                    assert(s.path(c)[i + 1] == s.path(p)[i]);
                }
                assert(s.path(c).subrange(i, s.path(c).len() as int) =~= s.path(p).subrange(
                    i - 1,
                    s.path(p).len() as int,
                ));
            }
        },
        None => {
            assert(s.path(c).subrange(0, 1) =~= s.path(c));
        },
    }
}

/// In a linked tree, every category on the path of an existing category
/// exists.
pub proof fn lemma_path_exists(s: ForumState, c: CategoryId, i: int)
    requires
        s.tree_linked(),
        s.categories.contains_key(c),
        0 <= i < s.path(c).len(),
    ensures
        s.categories.contains_key(s.path(c)[i]),
    decreases i,
{
    lemma_path_head(s, c);
    if i > 0 {
        lemma_path_exists(s, c, i - 1);
        lemma_path_steps(s, c, i - 1);
    }
}

/// Two states that agree on the parent of every category on a path agree on
/// the path.
pub proof fn lemma_path_frame(s1: ForumState, s2: ForumState, c: CategoryId)
    requires
        forall|i: int|
            0 <= i < s1.path(c).len() ==> s1.parent_of(#[trigger] s1.path(c)[i]) == s2.parent_of(
                s1.path(c)[i],
            ),
    ensures
        s1.path(c) == s2.path(c),
    decreases c,
{
    lemma_path_head(s1, c);
    assert(s1.path(c)[0] == c);
    match s1.parent_of(c) {
        Some(p) => {
            assert forall|i: int| 0 <= i < s1.path(p).len() implies s1.parent_of(
                #[trigger] s1.path(p)[i],
            ) == s2.parent_of(s1.path(p)[i]) by {
                assert(s1.path(c)[i + 1] == s1.path(p)[i]);
            }
            lemma_path_frame(s1, s2, p);
        },
        None => {},
    }
}

/// A category other than the first on a path has a subcategory: the one
/// before it on the path.
pub proof fn lemma_path_inner_has_child(s: ForumState, c: CategoryId, i: int)
    requires
        s.tree_linked(),
        s.categories.contains_key(c),
        0 < i < s.path(c).len(),
    ensures
        s.subcategories_of(s.path(c)[i]).contains(s.path(c)[i - 1]),
{
    lemma_path_steps(s, c, i - 1);
    lemma_path_exists(s, c, i - 1);
}

/// In a linked tree the way up from an existing category can be followed to
/// its end exactly where it passes through no more categories than allowed,
/// and is then the path of that category.
pub proof fn lemma_walk_is_path(s: ForumState, c: CategoryId, fuel: nat)
    requires
        s.tree_linked(),
        s.categories.contains_key(c),
    ensures
        s.walk(c, fuel) == if s.path(c).len() <= fuel {
            Some(s.path(c))
        } else {
            None::<Seq<CategoryId>>
        },
    decreases fuel,
{
    lemma_path_head(s, c);
    if fuel > 0 {
        match s.categories[c].parent_category_id {
            Some(p) => {
                assert(s.parent_of(c) == Some(p));
                lemma_walk_is_path(s, p, (fuel - 1) as nat);
            },
            None => {},
        }
    }
}

} // verus!
