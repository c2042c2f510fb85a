//! Every operation leaves a consistent state consistent.

use crate::rules::{
    category_archival_next, create_category_guard, create_category_next, delete_category_guard,
    delete_category_next, edit_post_next, edit_title_next, membership_guard, membership_next,
    moderate_post_guard, moderate_post_next, move_thread_guard, move_thread_next, new_post_guard,
    new_post_next, new_thread_guard, new_thread_next, stickied_next, thread_archival_next,
    vote_next, without_thread,
};
use crate::state::{Config, ForumState};
use crate::tree::{lemma_path_exists, lemma_path_frame, lemma_path_head, lemma_path_inner_has_child};
use crate::types::{
    CategoryId, ContentHash, ForumUserId, ModeratorId, Moment, PollView, PostId, PrivilegedActor,
    ThreadId,
};
use vstd::prelude::*;

verus! {

/// Whether two states have the same categories, threads, posts and
/// assignments with the same links and counters, whatever else differs.
pub open spec fn same_shape(s1: ForumState, s2: ForumState) -> bool {
    &&& s2.categories.dom() == s1.categories.dom()
    &&& forall|c: CategoryId| #[trigger]
        s1.categories.contains_key(c) ==> {
            &&& s2.categories[c].parent_category_id == s1.categories[c].parent_category_id
            &&& s2.categories[c].num_direct_subcategories
                == s1.categories[c].num_direct_subcategories
            &&& s2.categories[c].num_direct_threads == s1.categories[c].num_direct_threads
            &&& s2.categories[c].num_direct_moderators == s1.categories[c].num_direct_moderators
        }
    &&& s2.threads.dom() == s1.threads.dom()
    &&& forall|k: (CategoryId, ThreadId)| #[trigger]
        s1.threads.contains_key(k) ==> {
            &&& s2.threads[k].category_id == s1.threads[k].category_id
            &&& s2.threads[k].num_direct_posts == s1.threads[k].num_direct_posts
        }
    &&& s2.posts.dom() == s1.posts.dom()
    &&& forall|k: (ThreadId, PostId)| #[trigger]
        s1.posts.contains_key(k) ==> s2.posts[k].thread_id == s1.posts[k].thread_id
    &&& s2.moderators == s1.moderators
    &&& s2.next_category_id == s1.next_category_id
    &&& s2.category_counter == s1.category_counter
    &&& s2.next_thread_id == s1.next_thread_id
    &&& s2.next_post_id == s1.next_post_id
}

/// States of the same shape agree on every path.
pub proof fn lemma_same_shape_paths(s1: ForumState, s2: ForumState, c: CategoryId)
    requires
        same_shape(s1, s2),
    ensures
        s2.path(c) == s1.path(c),
{
    assert forall|i: int| 0 <= i < s1.path(c).len() implies s1.parent_of(
        #[trigger] s1.path(c)[i],
    ) == s2.parent_of(s1.path(c)[i]) by {
        let x = s1.path(c)[i];
        if s1.categories.contains_key(x) {
            assert(s2.categories.contains_key(x));
        } else {
            assert(!s2.categories.dom().contains(x));
        }
    }
    lemma_path_frame(s1, s2, c);
}

/// A state of the same shape as a consistent one is consistent.
pub proof fn lemma_same_shape_wf(s1: ForumState, s2: ForumState, cfg: Config)
    requires
        s1.wf(cfg),
        same_shape(s1, s2),
    ensures
        s2.wf(cfg),
{
    assert forall|c: CategoryId| #[trigger] s2.categories.contains_key(c) implies s2.path(c).len()
        <= cfg.max_category_depth || s2.path(c).len() == 1 by {
        assert(s1.categories.contains_key(c));
        lemma_same_shape_paths(s1, s2, c);
    }
    assert forall|c: CategoryId| #[trigger] s2.categories.contains_key(c) implies {
        &&& s2.categories[c].num_direct_subcategories == s2.subcategories_of(c).len()
        &&& s2.categories[c].num_direct_threads == s2.threads_of(c).len()
        &&& s2.categories[c].num_direct_moderators == s2.moderators_of(c).len()
    } by {
        assert(s1.categories.contains_key(c));
        assert(s2.subcategories_of(c) =~= s1.subcategories_of(c)) by {
            assert forall|k: CategoryId| s2.subcategories_of(c).contains(k)
                <==> s1.subcategories_of(c).contains(k) by {
                if s1.categories.contains_key(k) {
                    assert(s2.categories.contains_key(k));
                }
            }
        }
        assert(s2.threads_of(c) =~= s1.threads_of(c));
        assert(s2.moderators_of(c) =~= s1.moderators_of(c));
    }
    assert forall|c: CategoryId| #[trigger] s2.categories.contains_key(c) implies c
        < s2.next_category_id by {
        assert(s1.categories.contains_key(c));
    }
    assert forall|c: CategoryId| #[trigger]
        s2.categories.contains_key(c) implies match s2.categories[c].parent_category_id {
        Some(p) => p < c && s2.categories.contains_key(p),
        None => true,
    } by {
        assert(s1.categories.contains_key(c));
    }
    assert forall|k: (CategoryId, ThreadId)| #[trigger] s2.threads.contains_key(k) implies {
        &&& s2.categories.contains_key(k.0)
        &&& k.1 < s2.next_thread_id
        &&& s2.threads[k].category_id == k.0
        &&& s2.threads[k].num_direct_posts == s2.posts_of(k.1).len()
    } by {
        assert(s1.threads.contains_key(k));
        assert(s2.posts_of(k.1) =~= s1.posts_of(k.1));
    }
    assert forall|k1: (CategoryId, ThreadId), k2: (CategoryId, ThreadId)|
        #![trigger s2.threads.contains_key(k1), s2.threads.contains_key(k2)]
        s2.threads.contains_key(k1) && s2.threads.contains_key(k2) && k1.1 == k2.1 implies k1
        == k2 by {
        assert(s1.threads.contains_key(k1) && s1.threads.contains_key(k2));
    }
    assert forall|k: (ThreadId, PostId)| #[trigger] s2.posts.contains_key(k) implies {
        &&& k.0 < s2.next_thread_id
        &&& k.1 < s2.next_post_id
        &&& s2.posts[k].thread_id == k.0
    } by {
        assert(s1.posts.contains_key(k));
    }
}

/// Filtering a set with one more member.
pub proof fn lemma_filter_insert<A>(s: Set<A>, f: spec_fn(A) -> bool, a: A)
    requires
        s.finite(),
    ensures
        s.filter(f).finite(),
        s.insert(a).filter(f) == if f(a) {
            s.filter(f).insert(a)
        } else {
            s.filter(f)
        },
        !s.contains(a) && f(a) ==> s.insert(a).filter(f).len() == s.filter(f).len() + 1,
        s.contains(a) ==> s.insert(a).filter(f) == s.filter(f),
{
    s.lemma_len_filter(f);
    if f(a) {
        assert(s.insert(a).filter(f) =~= s.filter(f).insert(a));
    } else {
        assert(s.insert(a).filter(f) =~= s.filter(f));
    }
    if s.contains(a) {
        assert(s.insert(a) =~= s);
    }
}

/// Filtering a set with one member fewer.
pub proof fn lemma_filter_remove<A>(s: Set<A>, f: spec_fn(A) -> bool, a: A)
    requires
        s.finite(),
    ensures
        s.filter(f).finite(),
        s.remove(a).filter(f) == if f(a) {
            s.filter(f).remove(a)
        } else {
            s.filter(f)
        },
        s.contains(a) && f(a) ==> s.filter(f).len() >= 1 && s.remove(a).filter(f).len()
            == s.filter(f).len() - 1,
{
    s.lemma_len_filter(f);
    if f(a) {
        assert(s.remove(a).filter(f) =~= s.filter(f).remove(a));
    } else {
        assert(s.remove(a).filter(f) =~= s.filter(f));
    }
}

/// Assigning or unassigning a moderator keeps the state consistent.
pub proof fn lemma_membership_wf(
    s: ForumState,
    cfg: Config,
    is_lead: bool,
    m: ModeratorId,
    c: CategoryId,
    new_value: bool,
)
    requires
        s.wf(cfg),
    ensures
        membership_next(s, cfg, is_lead, m, c, new_value).wf(cfg),
        membership_guard(s, cfg, is_lead, m, c, new_value) is None && new_value
            && !s.moderators.contains((c, m))
            ==> s.categories[c].num_direct_moderators < u32::MAX,
        membership_guard(s, cfg, is_lead, m, c, new_value) is None && !new_value
            && s.moderators.contains((c, m))
            ==> s.categories[c].num_direct_moderators > 0,
{
    let s2 = membership_next(s, cfg, is_lead, m, c, new_value);
    if membership_guard(s, cfg, is_lead, m, c, new_value) is None && new_value
        != s.moderators.contains((c, m)) {
        assert(s.categories.contains_key(c));
        {
            let f = |k: (CategoryId, ModeratorId)| k.0 == c;
            lemma_filter_remove(s.moderators, f, (c, m));
            assert(s.moderators_of(c) == s.moderators.filter(f));
        }
        assert(s2.categories.dom() =~= s.categories.dom());
        lemma_same_tree(s, s2, cfg.max_category_depth);
        assert forall|x: CategoryId| #[trigger] s2.categories.contains_key(x) implies {
            &&& s2.categories[x].num_direct_subcategories == s2.subcategories_of(x).len()
            &&& s2.categories[x].num_direct_threads == s2.threads_of(x).len()
            &&& s2.categories[x].num_direct_moderators == s2.moderators_of(x).len()
        } by {
            assert(s.categories.contains_key(x));
            let g = |k: (CategoryId, ModeratorId)| k.0 == x;
            lemma_filter_insert(s.moderators, g, (c, m));
            lemma_filter_remove(s.moderators, g, (c, m));
            assert(s2.moderators_of(x) == s2.moderators.filter(g));
            assert(s.moderators_of(x) == s.moderators.filter(g));
            assert(s2.threads_of(x) == s.threads_of(x));
        }
        assert forall|k: (CategoryId, ThreadId)| #[trigger] s2.threads.contains_key(k) implies {
            &&& s2.categories.contains_key(k.0)
            &&& k.1 < s2.next_thread_id
            &&& s2.threads[k].category_id == k.0
            &&& s2.threads[k].num_direct_posts == s2.posts_of(k.1).len()
        } by {
            assert(s.threads.contains_key(k));
            assert(s2.posts_of(k.1) == s.posts_of(k.1));
        }
        assert forall|k: (CategoryId, ModeratorId)| #[trigger] s2.moderators.contains(k) implies k.0
            < s2.next_category_id by {
            if k != (c, m) {
                assert(s.moderators.contains(k));
            }
        }
    }
}

/// Two states with the same categories, each with the same parent, agree on
/// every path.
pub proof fn lemma_same_parents_paths(s1: ForumState, s2: ForumState, c: CategoryId)
    requires
        s2.categories.dom() == s1.categories.dom(),
        forall|x: CategoryId| #[trigger]
            s1.categories.contains_key(x) ==> s2.categories[x].parent_category_id
                == s1.categories[x].parent_category_id,
    ensures
        s2.path(c) == s1.path(c),
{
    assert forall|i: int| 0 <= i < s1.path(c).len() implies s1.parent_of(
        #[trigger] s1.path(c)[i],
    ) == s2.parent_of(s1.path(c)[i]) by {
        let x = s1.path(c)[i];
        if s1.categories.contains_key(x) {
            assert(s2.categories.contains_key(x));
        } else {
            assert(!s2.categories.dom().contains(x));
        }
    }
    lemma_path_frame(s1, s2, c);
}

/// Setting a category's archival status keeps the state consistent.
pub proof fn lemma_category_archival_wf(
    s: ForumState,
    cfg: Config,
    role_confirmed: bool,
    actor: PrivilegedActor,
    c: CategoryId,
    new_status: bool,
)
    requires
        s.wf(cfg),
    ensures
        category_archival_next(s, role_confirmed, actor, c, new_status).wf(cfg),
{
    let s2 = category_archival_next(s, role_confirmed, actor, c, new_status);
    if s2 != s {
        assert(s2.categories.dom() =~= s.categories.dom());
        lemma_same_shape_wf(s, s2, cfg);
    }
}

/// Setting a category's sticky threads keeps the state consistent.
pub proof fn lemma_stickied_wf(
    s: ForumState,
    cfg: Config,
    role_confirmed: bool,
    actor: PrivilegedActor,
    c: CategoryId,
    ids: Seq<ThreadId>,
)
    requires
        s.wf(cfg),
    ensures
        stickied_next(s, role_confirmed, actor, c, ids).wf(cfg),
{
    let s2 = stickied_next(s, role_confirmed, actor, c, ids);
    if s2 != s {
        assert(s2.categories.dom() =~= s.categories.dom());
        lemma_same_shape_wf(s, s2, cfg);
    }
}

/// Changing a thread's title keeps the state consistent.
pub proof fn lemma_edit_title_wf(
    s: ForumState,
    cfg: Config,
    is_member: bool,
    user: ForumUserId,
    c: CategoryId,
    t: ThreadId,
    title_hash: ContentHash,
)
    requires
        s.wf(cfg),
    ensures
        edit_title_next(s, is_member, user, c, t, title_hash).wf(cfg),
{
    let s2 = edit_title_next(s, is_member, user, c, t, title_hash);
    if s2 != s {
        assert(s2.threads.dom() =~= s.threads.dom());
        lemma_same_shape_wf(s, s2, cfg);
    }
}

/// Setting a thread's archival status keeps the state consistent.
pub proof fn lemma_thread_archival_wf(
    s: ForumState,
    cfg: Config,
    role_confirmed: bool,
    actor: PrivilegedActor,
    c: CategoryId,
    t: ThreadId,
    new_status: bool,
)
    requires
        s.wf(cfg),
    ensures
        thread_archival_next(s, role_confirmed, actor, c, t, new_status).wf(cfg),
{
    let s2 = thread_archival_next(s, role_confirmed, actor, c, t, new_status);
    if s2 != s {
        assert(s2.threads.dom() =~= s.threads.dom());
        lemma_same_shape_wf(s, s2, cfg);
    }
}

/// Casting a vote keeps the state consistent.
pub proof fn lemma_vote_wf(
    s: ForumState,
    cfg: Config,
    is_member: bool,
    c: CategoryId,
    t: ThreadId,
    index: u32,
    now: Moment,
)
    requires
        s.wf(cfg),
    ensures
        vote_next(s, is_member, c, t, index, now).wf(cfg),
{
    let s2 = vote_next(s, is_member, c, t, index, now);
    if s2 != s {
        assert(s2.threads.dom() =~= s.threads.dom());
        lemma_same_shape_wf(s, s2, cfg);
    }
}

/// Changing a post's text keeps the state consistent.
pub proof fn lemma_edit_post_wf(
    s: ForumState,
    cfg: Config,
    is_member: bool,
    user: ForumUserId,
    c: CategoryId,
    t: ThreadId,
    p: PostId,
    text_hash: ContentHash,
)
    requires
        s.wf(cfg),
    ensures
        edit_post_next(s, is_member, user, c, t, p, text_hash).wf(cfg),
{
    let s2 = edit_post_next(s, is_member, user, c, t, p, text_hash);
    if s2 != s {
        assert(s2.posts.dom() =~= s.posts.dom());
        lemma_same_shape_wf(s, s2, cfg);
    }
}

/// Whether two states have the same categories, each with the same parent,
/// and the same category bookkeeping.
pub open spec fn same_tree(s1: ForumState, s2: ForumState) -> bool {
    &&& s2.categories.dom() == s1.categories.dom()
    &&& forall|x: CategoryId| #[trigger]
        s1.categories.contains_key(x) ==> s2.categories[x].parent_category_id
            == s1.categories[x].parent_category_id
    &&& s2.next_category_id == s1.next_category_id
    &&& s2.category_counter == s1.category_counter
}

/// States with the same tree are linked and bounded alike and agree on who
/// is a subcategory of whom.
pub proof fn lemma_same_tree(s1: ForumState, s2: ForumState, max_depth: u64)
    requires
        s1.tree_linked(),
        s1.depth_bounded(max_depth),
        same_tree(s1, s2),
    ensures
        s2.tree_linked(),
        s2.depth_bounded(max_depth),
        forall|x: CategoryId| s2.subcategories_of(x) == s1.subcategories_of(x),
        forall|x: CategoryId| s2.path(x) == s1.path(x),
{
    assert forall|x: CategoryId| s2.path(x) == s1.path(x) by {
        lemma_same_parents_paths(s1, s2, x);
    }
    assert forall|x: CategoryId| #[trigger] s2.categories.contains_key(x) implies x
        < s2.next_category_id by {
        assert(s1.categories.contains_key(x));
    }
    assert forall|x: CategoryId| #[trigger]
        s2.categories.contains_key(x) implies match s2.categories[x].parent_category_id {
        Some(p) => p < x && s2.categories.contains_key(p),
        None => true,
    } by {
        assert(s1.categories.contains_key(x));
    }
    assert forall|x: CategoryId| #[trigger] s2.categories.contains_key(x) implies s2.path(x).len()
        <= max_depth || s2.path(x).len() == 1 by {
        assert(s1.categories.contains_key(x));
    }
    assert forall|x: CategoryId| s2.subcategories_of(x) == s1.subcategories_of(x) by {
        assert forall|k: CategoryId| s2.subcategories_of(x).contains(k) <==> s1.subcategories_of(
            x,
        ).contains(k) by {
            if s1.categories.contains_key(k) {
                assert(s2.categories.contains_key(k));
            }
        }
        assert(s2.subcategories_of(x) =~= s1.subcategories_of(x));
    }
}

/// Adding a thread with its first post keeps the state consistent.
pub proof fn lemma_new_thread_wf(
    s: ForumState,
    cfg: Config,
    c: CategoryId,
    author: ForumUserId,
    title_hash: ContentHash,
    text_hash: ContentHash,
    poll: Option<PollView>,
    now: Moment,
)
    requires
        s.wf(cfg),
        new_thread_guard(s, cfg, c, poll, now) is None ==> s.next_thread_id < u64::MAX
            && s.next_post_id < u64::MAX,
    ensures
        new_thread_next(s, cfg, c, author, title_hash, text_hash, poll, now).wf(cfg),
        new_thread_guard(s, cfg, c, poll, now) is None ==> !s.threads.contains_key(
            (c, s.next_thread_id),
        ) && !s.posts.contains_key((s.next_thread_id, s.next_post_id)),
{
    let s2 = new_thread_next(s, cfg, c, author, title_hash, text_hash, poll, now);
    if new_thread_guard(s, cfg, c, poll, now) is None {
        let t = s.next_thread_id;
        let p = s.next_post_id;
        if s.threads.contains_key((c, t)) {
            assert(false);
        }
        if s.posts.contains_key((t, p)) {
            assert(false);
        }
        assert(s2.categories.dom() =~= s.categories.dom());
        lemma_same_tree(s, s2, cfg.max_category_depth);
        assert forall|x: CategoryId| #[trigger] s2.categories.contains_key(x) implies {
            &&& s2.categories[x].num_direct_subcategories == s2.subcategories_of(x).len()
            &&& s2.categories[x].num_direct_threads == s2.threads_of(x).len()
            &&& s2.categories[x].num_direct_moderators == s2.moderators_of(x).len()
        } by {
            assert(s.categories.contains_key(x));
            let f = |k: (CategoryId, ThreadId)| k.0 == x;
            lemma_filter_insert(s.threads.dom(), f, (c, t));
            assert(s2.threads.dom() =~= s.threads.dom().insert((c, t)));
            assert(s2.threads_of(x) == s2.threads.dom().filter(f));
            assert(s.threads_of(x) == s.threads.dom().filter(f));
            assert(s2.moderators_of(x) == s.moderators_of(x));
        }
        assert(s2.threads.dom() =~= s.threads.dom().insert((c, t)));
        assert(s2.posts.dom() =~= s.posts.dom().insert((t, p)));
        assert forall|k: (CategoryId, ThreadId)| #[trigger] s2.threads.contains_key(k) implies {
            &&& s2.categories.contains_key(k.0)
            &&& k.1 < s2.next_thread_id
            &&& s2.threads[k].category_id == k.0
            &&& s2.threads[k].num_direct_posts == s2.posts_of(k.1).len()
        } by {
            let g = |q: (ThreadId, PostId)| q.0 == k.1;
            lemma_filter_insert(s.posts.dom(), g, (t, p));
            assert(s2.posts_of(k.1) == s2.posts.dom().filter(g));
            assert(s.posts_of(k.1) == s.posts.dom().filter(g));
            if k == (c, t) {
                assert(s.posts_of(t) =~= Set::empty()) by {
                    assert forall|q: (ThreadId, PostId)| !s.posts_of(t).contains(q) by {
                        if s.posts.contains_key(q) && q.0 == t {
                            assert(false);
                        }
                    }
                }
            } else {
                assert(s.threads.contains_key(k));
            }
        }
        assert forall|k1: (CategoryId, ThreadId), k2: (CategoryId, ThreadId)|
            #![trigger s2.threads.contains_key(k1), s2.threads.contains_key(k2)]
            s2.threads.contains_key(k1) && s2.threads.contains_key(k2) && k1.1 == k2.1 implies k1
            == k2 by {
            if k1 != (c, t) {
                assert(s.threads.contains_key(k1));
            }
            if k2 != (c, t) {
                assert(s.threads.contains_key(k2));
            }
        }
        assert forall|k: (ThreadId, PostId)| #[trigger] s2.posts.contains_key(k) implies {
            &&& k.0 < s2.next_thread_id
            &&& k.1 < s2.next_post_id
            &&& s2.posts[k].thread_id == k.0
        } by {
            if k != (t, p) {
                assert(s.posts.contains_key(k));
            }
        }
    }
}

/// Removing a thread with all its posts keeps the state consistent.
pub proof fn lemma_without_thread_wf(s: ForumState, cfg: Config, c: CategoryId, t: ThreadId)
    requires
        s.wf(cfg),
        s.threads.contains_key((c, t)),
    ensures
        without_thread(s, c, t).wf(cfg),
        s.categories.contains_key(c),
        s.categories[c].num_direct_threads > 0,
{
    let s2 = without_thread(s, c, t);
    assert(s.categories.contains_key(c));
    {
        let f = |k: (CategoryId, ThreadId)| k.0 == c;
        lemma_filter_remove(s.threads.dom(), f, (c, t));
        assert(s.threads_of(c) == s.threads.dom().filter(f));
    }
    assert(s2.categories.dom() =~= s.categories.dom());
    lemma_same_tree(s, s2, cfg.max_category_depth);
    assert(s2.threads.dom() =~= s.threads.dom().remove((c, t)));
    assert(s2.posts.dom() =~= s.posts.dom().difference(s.posts_of(t)));
    vstd::set_lib::lemma_set_subset_finite(s.posts.dom(), s2.posts.dom());
    assert forall|x: CategoryId| #[trigger] s2.categories.contains_key(x) implies {
        &&& s2.categories[x].num_direct_subcategories == s2.subcategories_of(x).len()
        &&& s2.categories[x].num_direct_threads == s2.threads_of(x).len()
        &&& s2.categories[x].num_direct_moderators == s2.moderators_of(x).len()
    } by {
        assert(s.categories.contains_key(x));
        let f = |k: (CategoryId, ThreadId)| k.0 == x;
        lemma_filter_remove(s.threads.dom(), f, (c, t));
        assert(s2.threads_of(x) == s2.threads.dom().filter(f));
        assert(s.threads_of(x) == s.threads.dom().filter(f));
        assert(s2.moderators_of(x) == s.moderators_of(x));
    }
    assert forall|k: (CategoryId, ThreadId)| #[trigger] s2.threads.contains_key(k) implies {
        &&& s2.categories.contains_key(k.0)
        &&& k.1 < s2.next_thread_id
        &&& s2.threads[k].category_id == k.0
        &&& s2.threads[k].num_direct_posts == s2.posts_of(k.1).len()
    } by {
        assert(s.threads.contains_key(k));
        assert(k.1 != t);
        assert(s2.posts_of(k.1) =~= s.posts_of(k.1));
    }
    assert forall|k1: (CategoryId, ThreadId), k2: (CategoryId, ThreadId)|
        #![trigger s2.threads.contains_key(k1), s2.threads.contains_key(k2)]
        s2.threads.contains_key(k1) && s2.threads.contains_key(k2) && k1.1 == k2.1 implies k1
        == k2 by {
        assert(s.threads.contains_key(k1) && s.threads.contains_key(k2));
    }
    assert forall|k: (ThreadId, PostId)| #[trigger] s2.posts.contains_key(k) implies {
        &&& k.0 < s2.next_thread_id
        &&& k.1 < s2.next_post_id
        &&& s2.posts[k].thread_id == k.0
    } by {
        assert(s.posts.contains_key(k));
    }
}

/// Moving a thread keeps the state consistent.
pub proof fn lemma_move_thread_wf(
    s: ForumState,
    cfg: Config,
    role_confirmed: bool,
    actor: PrivilegedActor,
    c: CategoryId,
    t: ThreadId,
    to: CategoryId,
)
    requires
        s.wf(cfg),
    ensures
        move_thread_next(s, cfg, role_confirmed, actor, c, t, to).wf(cfg),
        move_thread_guard(s, cfg, role_confirmed, actor, c, t, to) is None ==> {
            &&& s.categories.contains_key(c)
            &&& s.categories[c].num_direct_threads > 0
            &&& s.categories[to].num_direct_threads < u32::MAX
        },
{
    let s2 = move_thread_next(s, cfg, role_confirmed, actor, c, t, to);
    if move_thread_guard(s, cfg, role_confirmed, actor, c, t, to) is None {
        assert(s.threads.contains_key((c, t)));
        assert(s.categories.contains_key(c));
        if s.threads.contains_key((to, t)) {
            assert((c, t) == (to, t));
        }
        {
            let f = |k: (CategoryId, ThreadId)| k.0 == c;
            lemma_filter_remove(s.threads.dom(), f, (c, t));
            assert(s.threads_of(c) == s.threads.dom().filter(f));
        }
        assert(s2.categories.dom() =~= s.categories.dom());
        lemma_same_tree(s, s2, cfg.max_category_depth);
        let mid = s.threads.dom().remove((c, t));
        assert(s2.threads.dom() =~= mid.insert((to, t)));
        assert forall|x: CategoryId| #[trigger] s2.categories.contains_key(x) implies {
            &&& s2.categories[x].num_direct_subcategories == s2.subcategories_of(x).len()
            &&& s2.categories[x].num_direct_threads == s2.threads_of(x).len()
            &&& s2.categories[x].num_direct_moderators == s2.moderators_of(x).len()
        } by {
            assert(s.categories.contains_key(x));
            let f = |k: (CategoryId, ThreadId)| k.0 == x;
            lemma_filter_remove(s.threads.dom(), f, (c, t));
            lemma_filter_insert(mid, f, (to, t));
            assert(s2.threads_of(x) == s2.threads.dom().filter(f));
            assert(s.threads_of(x) == s.threads.dom().filter(f));
            assert(s2.moderators_of(x) == s.moderators_of(x));
        }
        assert forall|k: (CategoryId, ThreadId)| #[trigger] s2.threads.contains_key(k) implies {
            &&& s2.categories.contains_key(k.0)
            &&& k.1 < s2.next_thread_id
            &&& s2.threads[k].category_id == k.0
            &&& s2.threads[k].num_direct_posts == s2.posts_of(k.1).len()
        } by {
            assert(s2.posts_of(k.1) == s.posts_of(k.1));
            if k != (to, t) {
                assert(s.threads.contains_key(k));
            }
        }
        assert forall|k1: (CategoryId, ThreadId), k2: (CategoryId, ThreadId)|
            #![trigger s2.threads.contains_key(k1), s2.threads.contains_key(k2)]
            s2.threads.contains_key(k1) && s2.threads.contains_key(k2) && k1.1 == k2.1 implies k1
            == k2 by {
            if k1 != (to, t) {
                assert(s.threads.contains_key(k1));
            }
            if k2 != (to, t) {
                assert(s.threads.contains_key(k2));
            }
        }
    }
}

/// Adding a post keeps the state consistent.
pub proof fn lemma_new_post_wf(
    s: ForumState,
    cfg: Config,
    c: CategoryId,
    t: ThreadId,
    text_hash: ContentHash,
    author: ForumUserId,
)
    requires
        s.wf(cfg),
        new_post_guard(s, cfg, c, t) is None ==> s.next_post_id < u64::MAX,
    ensures
        new_post_next(s, cfg, c, t, text_hash, author).wf(cfg),
        new_post_guard(s, cfg, c, t) is None ==> !s.posts.contains_key((t, s.next_post_id)),
{
    let s2 = new_post_next(s, cfg, c, t, text_hash, author);
    if new_post_guard(s, cfg, c, t) is None {
        let p = s.next_post_id;
        if s.posts.contains_key((t, p)) {
            assert(false);
        }
        assert(s.threads.contains_key((c, t)));
        assert(s2.threads.dom() =~= s.threads.dom());
        assert(s2.posts.dom() =~= s.posts.dom().insert((t, p)));
        lemma_same_tree(s, s2, cfg.max_category_depth);
        assert forall|x: CategoryId| #[trigger] s2.categories.contains_key(x) implies {
            &&& s2.categories[x].num_direct_subcategories == s2.subcategories_of(x).len()
            &&& s2.categories[x].num_direct_threads == s2.threads_of(x).len()
            &&& s2.categories[x].num_direct_moderators == s2.moderators_of(x).len()
        } by {
            assert(s2.threads_of(x) == s.threads_of(x));
            assert(s2.moderators_of(x) == s.moderators_of(x));
        }
        assert forall|k: (CategoryId, ThreadId)| #[trigger] s2.threads.contains_key(k) implies {
            &&& s2.categories.contains_key(k.0)
            &&& k.1 < s2.next_thread_id
            &&& s2.threads[k].category_id == k.0
            &&& s2.threads[k].num_direct_posts == s2.posts_of(k.1).len()
        } by {
            assert(s.threads.contains_key(k));
            let g = |q: (ThreadId, PostId)| q.0 == k.1;
            lemma_filter_insert(s.posts.dom(), g, (t, p));
            assert(s2.posts_of(k.1) == s2.posts.dom().filter(g));
            assert(s.posts_of(k.1) == s.posts.dom().filter(g));
            if k.1 == t {
                assert(k == (c, t));
            }
        }
        assert forall|k1: (CategoryId, ThreadId), k2: (CategoryId, ThreadId)|
            #![trigger s2.threads.contains_key(k1), s2.threads.contains_key(k2)]
            s2.threads.contains_key(k1) && s2.threads.contains_key(k2) && k1.1 == k2.1 implies k1
            == k2 by {
            assert(s.threads.contains_key(k1) && s.threads.contains_key(k2));
        }
        assert forall|k: (ThreadId, PostId)| #[trigger] s2.posts.contains_key(k) implies {
            &&& k.0 < s2.next_thread_id
            &&& k.1 < s2.next_post_id
            &&& s2.posts[k].thread_id == k.0
        } by {
            if k != (t, p) {
                assert(s.posts.contains_key(k));
            }
        }
    }
}

/// Removing a post keeps the state consistent.
pub proof fn lemma_moderate_post_wf(
    s: ForumState,
    cfg: Config,
    role_confirmed: bool,
    actor: PrivilegedActor,
    c: CategoryId,
    t: ThreadId,
    p: PostId,
)
    requires
        s.wf(cfg),
    ensures
        moderate_post_next(s, role_confirmed, actor, c, t, p).wf(cfg),
        moderate_post_guard(s, role_confirmed, actor, c, t, p) is None ==> s.threads[(
            c,
            t,
        )].num_direct_posts > 0,
{
    let s2 = moderate_post_next(s, role_confirmed, actor, c, t, p);
    if moderate_post_guard(s, role_confirmed, actor, c, t, p) is None {
        assert(s.threads.contains_key((c, t)));
        assert(s.posts.contains_key((t, p)));
        {
            let g = |q: (ThreadId, PostId)| q.0 == t;
            lemma_filter_remove(s.posts.dom(), g, (t, p));
            assert(s.posts_of(t) == s.posts.dom().filter(g));
        }
        assert(s2.threads.dom() =~= s.threads.dom());
        assert(s2.posts.dom() =~= s.posts.dom().remove((t, p)));
        lemma_same_tree(s, s2, cfg.max_category_depth);
        assert forall|x: CategoryId| #[trigger] s2.categories.contains_key(x) implies {
            &&& s2.categories[x].num_direct_subcategories == s2.subcategories_of(x).len()
            &&& s2.categories[x].num_direct_threads == s2.threads_of(x).len()
            &&& s2.categories[x].num_direct_moderators == s2.moderators_of(x).len()
        } by {
            assert(s2.threads_of(x) == s.threads_of(x));
            assert(s2.moderators_of(x) == s.moderators_of(x));
        }
        assert forall|k: (CategoryId, ThreadId)| #[trigger] s2.threads.contains_key(k) implies {
            &&& s2.categories.contains_key(k.0)
            &&& k.1 < s2.next_thread_id
            &&& s2.threads[k].category_id == k.0
            &&& s2.threads[k].num_direct_posts == s2.posts_of(k.1).len()
        } by {
            assert(s.threads.contains_key(k));
            let g = |q: (ThreadId, PostId)| q.0 == k.1;
            lemma_filter_remove(s.posts.dom(), g, (t, p));
            assert(s2.posts_of(k.1) == s2.posts.dom().filter(g));
            assert(s.posts_of(k.1) == s.posts.dom().filter(g));
            if k.1 == t {
                assert(k == (c, t));
            }
        }
        assert forall|k1: (CategoryId, ThreadId), k2: (CategoryId, ThreadId)|
            #![trigger s2.threads.contains_key(k1), s2.threads.contains_key(k2)]
            s2.threads.contains_key(k1) && s2.threads.contains_key(k2) && k1.1 == k2.1 implies k1
            == k2 by {
            assert(s.threads.contains_key(k1) && s.threads.contains_key(k2));
        }
        assert forall|k: (ThreadId, PostId)| #[trigger] s2.posts.contains_key(k) implies {
            &&& k.0 < s2.next_thread_id
            &&& k.1 < s2.next_post_id
            &&& s2.posts[k].thread_id == k.0
        } by {
            assert(s.posts.contains_key(k));
        }
    }
}

/// Creating a category keeps the state consistent.
pub proof fn lemma_create_category_wf(
    s: ForumState,
    cfg: Config,
    is_lead: bool,
    parent: Option<CategoryId>,
    title_hash: ContentHash,
    description_hash: ContentHash,
)
    requires
        s.wf(cfg),
        create_category_guard(s, cfg, is_lead, parent) is None ==> s.next_category_id < u64::MAX,
    ensures
        create_category_next(s, cfg, is_lead, parent, title_hash, description_hash).wf(cfg),
        create_category_guard(s, cfg, is_lead, parent) is None ==> !s.categories.contains_key(
            s.next_category_id,
        ),
{
    let s2 = create_category_next(s, cfg, is_lead, parent, title_hash, description_hash);
    if create_category_guard(s, cfg, is_lead, parent) is None {
        let n = s.next_category_id;
        if s.categories.contains_key(n) {
            assert(false);
        }
        assert(s2.categories.dom() =~= s.categories.dom().insert(n));
        if let Some(p) = parent {
            assert(s.categories.contains_key(p));
            assert(p < n);
        }
        assert forall|x: CategoryId| #[trigger]
            s2.categories.contains_key(x) implies match s2.categories[x].parent_category_id {
            Some(q) => q < x && s2.categories.contains_key(q),
            None => true,
        } by {
            if x != n {
                assert(s.categories.contains_key(x));
            }
        }
        assert forall|x: CategoryId| #[trigger] s2.categories.contains_key(x) implies x
            < s2.next_category_id by {
            if x != n {
                assert(s.categories.contains_key(x));
            }
        }
        // Paths of the categories that were there before are as they were.
        assert forall|x: CategoryId| x < n implies s2.path(x) == s.path(x) by {
            lemma_path_head(s, x);
            assert forall|i: int| 0 <= i < s.path(x).len() implies s.parent_of(
                #[trigger] s.path(x)[i],
            ) == s2.parent_of(s.path(x)[i]) by {
                let y = s.path(x)[i];
                assert(y != n);
                if s.categories.contains_key(y) {
                    assert(s2.categories.contains_key(y));
                }
            }
            lemma_path_frame(s, s2, x);
        }
        assert forall|x: CategoryId| #[trigger] s2.categories.contains_key(x) implies s2.path(
            x,
        ).len() <= cfg.max_category_depth || s2.path(x).len() == 1 by {
            if x != n {
                assert(s.categories.contains_key(x));
            } else {
                match parent {
                    Some(p) => {
                        assert(s2.parent_of(n) == Some(p));
                    },
                    None => {},
                }
            }
        }
        assert forall|x: CategoryId| #[trigger] s2.categories.contains_key(x) implies {
            &&& s2.categories[x].num_direct_subcategories == s2.subcategories_of(x).len()
            &&& s2.categories[x].num_direct_threads == s2.threads_of(x).len()
            &&& s2.categories[x].num_direct_moderators == s2.moderators_of(x).len()
        } by {
            let f2 = |k: CategoryId| s2.categories[k].parent_category_id == Some(x);
            let f1 = |k: CategoryId| s.categories[k].parent_category_id == Some(x);
            s.categories.dom().lemma_len_filter(f1);
            assert(s2.subcategories_of(x) == s2.categories.dom().filter(f2));
            assert(s.subcategories_of(x) == s.categories.dom().filter(f1));
            if x != n {
                assert(s.categories.contains_key(x));
                assert(s2.threads_of(x) == s.threads_of(x));
                assert(s2.moderators_of(x) == s.moderators_of(x));
                if parent == Some(x) {
                    assert(s2.subcategories_of(x) =~= s.subcategories_of(x).insert(n));
                } else {
                    assert(s2.subcategories_of(x) =~= s.subcategories_of(x));
                }
            } else {
                assert(s2.subcategories_of(n) =~= Set::empty()) by {
                    assert forall|k: CategoryId| !s2.subcategories_of(n).contains(k) by {
                        if s2.categories.contains_key(k) && s2.categories[k].parent_category_id
                            == Some(n) {
                            assert(false);
                        }
                    }
                }
                assert(s2.threads_of(n) =~= Set::empty()) by {
                    assert forall|k: (CategoryId, ThreadId)| !s2.threads_of(n).contains(k) by {
                        if s.threads.contains_key(k) && k.0 == n {
                            assert(false);
                        }
                    }
                }
                assert(s2.moderators_of(n) =~= Set::empty()) by {
                    assert forall|k: (CategoryId, ModeratorId)| !s2.moderators_of(n).contains(
                        k,
                    ) by {
                        if s.moderators.contains(k) && k.0 == n {
                            assert(false);
                        }
                    }
                }
            }
        }
        assert forall|k: (CategoryId, ThreadId)| #[trigger] s2.threads.contains_key(k) implies {
            &&& s2.categories.contains_key(k.0)
            &&& k.1 < s2.next_thread_id
            &&& s2.threads[k].category_id == k.0
            &&& s2.threads[k].num_direct_posts == s2.posts_of(k.1).len()
        } by {
            assert(s.threads.contains_key(k));
            assert(s2.posts_of(k.1) == s.posts_of(k.1));
        }
    }
}

/// Deleting a category keeps the state consistent.
pub proof fn lemma_delete_category_wf(
    s: ForumState,
    cfg: Config,
    role_confirmed: bool,
    actor: PrivilegedActor,
    c: CategoryId,
)
    requires
        s.wf(cfg),
    ensures
        delete_category_next(s, role_confirmed, actor, c).wf(cfg),
        delete_category_guard(s, role_confirmed, actor, c) is None ==> {
            &&& s.category_counter > 0
            &&& match s.categories[c].parent_category_id {
                Some(p) => s.categories.contains_key(p) && p != c && s.categories[
                    p
                ].num_direct_subcategories > 0,
                None => true,
            }
        },
{
    let s2 = delete_category_next(s, role_confirmed, actor, c);
    if delete_category_guard(s, role_confirmed, actor, c) is None {
        assert(s.categories.contains_key(c));
        let parent = s.categories[c].parent_category_id;
        s.subcategories_of(c).lemma_len0_is_empty();
        s.threads_of(c).lemma_len0_is_empty();
        s.categories.dom().lemma_len_filter(
            |k: CategoryId| s.categories[k].parent_category_id == Some(c),
        );
        s.threads.dom().lemma_len_filter(|k: (CategoryId, ThreadId)| k.0 == c);
        assert(s.subcategories_of(c) =~= Set::empty());
        assert(s.threads_of(c) =~= Set::empty());
        assert(s2.categories.dom() =~= s.categories.dom().remove(c));
        if let Some(p) = parent {
            let f = |k: CategoryId| s.categories[k].parent_category_id == Some(p);
            s.categories.dom().lemma_len_filter(f);
            assert(s.subcategories_of(p).contains(c));
            assert(s.subcategories_of(p).len() > 0) by {
                if s.subcategories_of(p).len() == 0 {
                    s.subcategories_of(p).lemma_len0_is_empty();
                    assert(false);
                }
            }
        }
        assert forall|x: CategoryId| #[trigger]
            s2.categories.contains_key(x) implies match s2.categories[x].parent_category_id {
            Some(q) => q < x && s2.categories.contains_key(q),
            None => true,
        } by {
            assert(s.categories.contains_key(x));
            if s.categories[x].parent_category_id == Some(c) {
                assert(s.subcategories_of(c).contains(x));
            }
        }
        assert forall|x: CategoryId| #[trigger] s2.categories.contains_key(x) implies x
            < s2.next_category_id by {
            assert(s.categories.contains_key(x));
        }
        assert forall|x: CategoryId| #[trigger] s2.categories.contains_key(x) implies s2.path(x)
            == s.path(x) by {
            assert(s.categories.contains_key(x));
            assert forall|i: int| 0 <= i < s.path(x).len() implies s.parent_of(
                #[trigger] s.path(x)[i],
            ) == s2.parent_of(s.path(x)[i]) by {
                let y = s.path(x)[i];
                lemma_path_head(s, x);
                lemma_path_exists(s, x, i);
                if i > 0 {
                    lemma_path_inner_has_child(s, x, i);
                }
                assert(y != c);
                assert(s2.categories.contains_key(y));
            }
            lemma_path_frame(s, s2, x);
        }
        assert forall|x: CategoryId| #[trigger] s2.categories.contains_key(x) implies s2.path(
            x,
        ).len() <= cfg.max_category_depth || s2.path(x).len() == 1 by {
            assert(s.categories.contains_key(x));
        }
        assert forall|x: CategoryId| #[trigger] s2.categories.contains_key(x) implies {
            &&& s2.categories[x].num_direct_subcategories == s2.subcategories_of(x).len()
            &&& s2.categories[x].num_direct_threads == s2.threads_of(x).len()
            &&& s2.categories[x].num_direct_moderators == s2.moderators_of(x).len()
        } by {
            assert(s.categories.contains_key(x));
            let f1 = |k: CategoryId| s.categories[k].parent_category_id == Some(x);
            s.categories.dom().lemma_len_filter(f1);
            assert(s.subcategories_of(x) == s.categories.dom().filter(f1));
            assert(s2.threads_of(x) == s.threads_of(x));
            assert(s2.moderators_of(x) == s.moderators_of(x));
            if parent == Some(x) {
                assert(s2.subcategories_of(x) =~= s.subcategories_of(x).remove(c));
            } else {
                assert(s2.subcategories_of(x) =~= s.subcategories_of(x));
            }
        }
        assert forall|k: (CategoryId, ThreadId)| #[trigger] s2.threads.contains_key(k) implies {
            &&& s2.categories.contains_key(k.0)
            &&& k.1 < s2.next_thread_id
            &&& s2.threads[k].category_id == k.0
            &&& s2.threads[k].num_direct_posts == s2.posts_of(k.1).len()
        } by {
            assert(s.threads.contains_key(k));
            assert(s2.posts_of(k.1) == s.posts_of(k.1));
            if k.0 == c {
                assert(s.threads_of(c).contains(k));
            }
        }
    }
}

} // verus!
