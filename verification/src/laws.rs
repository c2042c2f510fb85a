//! What holds of the forum whatever is done with it.

use crate::preserve::{lemma_membership_wf, lemma_same_parents_paths};
use crate::rules::{
    add_post_guard, authorize_guard, category_archival_guard, category_archival_next,
    create_category_guard, create_thread_guard, delete_category_guard, delete_category_next,
    edit_post_guard, edit_title_guard, membership_guard, membership_next, moderate_post_guard,
    moderate_thread_guard, moderation_guard, move_thread_guard, move_thread_next, new_post_guard,
    new_thread_guard, post_guard, react_guard, thread_archival_guard, thread_guard, vote_guard,
    vote_next,
};
use crate::state::{Config, ForumState};
use crate::tree::{lemma_path_exists, lemma_path_head, lemma_path_steps};
use crate::types::{
    CategoryId, Error, ForumUserId, Moment, PollView, PostId, PrivilegedActor, ThreadId,
};
use vstd::prelude::*;

verus! {

/// In a consistent state each counter of a category equals what it counts:
/// the categories whose parent it is, the threads stored under it, and the
/// moderators assigned to it. Every operation keeps the state consistent,
/// so this holds after every one of them.
pub proof fn law_counters_equal_counts(s: ForumState, cfg: Config, c: CategoryId)
    requires
        s.wf(cfg),
        s.categories.contains_key(c),
    ensures
        s.categories[c].num_direct_subcategories == Set::new(
            |k: CategoryId|
                s.categories.contains_key(k) && s.categories[k].parent_category_id == Some(c),
        ).len(),
        s.categories[c].num_direct_threads == Set::new(
            |k: (CategoryId, ThreadId)| s.threads.contains_key(k) && k.0 == c,
        ).len(),
        s.categories[c].num_direct_moderators == Set::new(
            |k: (CategoryId, u64)| s.moderators.contains(k) && k.0 == c,
        ).len(),
        s.category_counter == s.categories.dom().len(),
{
    assert(s.subcategories_of(c) =~= Set::new(
        |k: CategoryId|
            s.categories.contains_key(k) && s.categories[k].parent_category_id == Some(c),
    ));
    assert(s.threads_of(c) =~= Set::new(
        |k: (CategoryId, ThreadId)| s.threads.contains_key(k) && k.0 == c,
    ));
    assert(s.moderators_of(c) =~= Set::new(
        |k: (CategoryId, u64)| s.moderators.contains(k) && k.0 == c,
    ));
}

/// In a consistent state each thread's counter equals the number of posts
/// stored under the thread.
pub proof fn law_post_counter_equals_count(
    s: ForumState,
    cfg: Config,
    c: CategoryId,
    t: ThreadId,
)
    requires
        s.wf(cfg),
        s.threads.contains_key((c, t)),
    ensures
        s.threads[(c, t)].num_direct_posts == Set::new(
            |k: (ThreadId, PostId)| s.posts.contains_key(k) && k.0 == t,
        ).len(),
{
    assert(s.posts_of(t) =~= Set::new(
        |k: (ThreadId, PostId)| s.posts.contains_key(k) && k.0 == t,
    ));
}

/// In a consistent state the way up from a category passes through existing
/// categories only, each the parent of the one before, ends at a root, and
/// is no longer than the tree may be deep (a lone root is always allowed).
pub proof fn law_path_ends_at_root(s: ForumState, cfg: Config, c: CategoryId)
    requires
        s.wf(cfg),
        s.categories.contains_key(c),
    ensures
        s.path(c).len() >= 1,
        s.path(c)[0] == c,
        s.path(c).len() <= cfg.max_category_depth || s.path(c).len() == 1,
        forall|i: int|
            0 <= i < s.path(c).len() ==> s.categories.contains_key(#[trigger] s.path(c)[i]),
        forall|i: int|
            0 <= i < s.path(c).len() - 1 ==> s.categories[#[trigger] s.path(
                c,
            )[i]].parent_category_id == Some(s.path(c)[i + 1]),
        s.categories[s.path(c).last()].parent_category_id is None,
{
    lemma_path_head(s, c);
    assert forall|i: int| 0 <= i < s.path(c).len() implies s.categories.contains_key(
        #[trigger] s.path(c)[i],
    ) by {
        lemma_path_exists(s, c, i);
    }
    assert forall|i: int| 0 <= i < s.path(c).len() - 1 implies s.categories[#[trigger] s.path(
        c,
    )[i]].parent_category_id == Some(s.path(c)[i + 1]) by {
        lemma_path_exists(s, c, i);
        lemma_path_steps(s, c, i);
    }
    let last = s.path(c).len() - 1;
    lemma_path_exists(s, c, last);
    lemma_path_steps(s, c, last);
}

/// Where the actor's role is confirmed, the category exists and the actor
/// may delete it (the lead, or for a category with a parent a moderator
/// assigned to the category or to one above it), deleting succeeds exactly
/// when both the count of threads and the count of subcategories are zero; a
/// category with threads is refused for its threads, one with subcategories
/// only for its subcategories. A refused deletion changes nothing.
pub proof fn law_delete_iff_empty(
    s: ForumState,
    role_confirmed: bool,
    actor: PrivilegedActor,
    c: CategoryId,
)
    requires
        role_confirmed,
        s.categories.contains_key(c),
        match s.categories[c].parent_category_id {
            Some(_) => s.may_moderate(actor, c),
            None => actor is Lead,
        },
    ensures
        delete_category_guard(s, role_confirmed, actor, c) is None <==> {
            &&& s.categories[c].num_direct_threads == 0
            &&& s.categories[c].num_direct_subcategories == 0
        },
        s.categories[c].num_direct_threads != 0 ==> delete_category_guard(
            s,
            role_confirmed,
            actor,
            c,
        ) == Some(Error::CategoryNotEmptyThreads),
        s.categories[c].num_direct_threads == 0 && s.categories[c].num_direct_subcategories != 0
            ==> delete_category_guard(s, role_confirmed, actor, c) == Some(
            Error::CategoryNotEmptyCategories,
        ),
        delete_category_guard(s, role_confirmed, actor, c) is Some ==> delete_category_next(
            s,
            role_confirmed,
            actor,
            c,
        ) == s,
{
}

/// Whoever asks and whatever the category looks like, a deletion that is
/// refused changes nothing.
pub proof fn law_refused_delete_changes_nothing(
    s: ForumState,
    role_confirmed: bool,
    actor: PrivilegedActor,
    c: CategoryId,
)
    ensures
        delete_category_guard(s, role_confirmed, actor, c) is Some ==> delete_category_next(
            s,
            role_confirmed,
            actor,
            c,
        ) == s,
{
}

/// In a consistent state a category is empty by its counters exactly when
/// nothing is stored under it.
pub proof fn law_empty_means_empty(s: ForumState, cfg: Config, c: CategoryId)
    requires
        s.wf(cfg),
        s.categories.contains_key(c),
    ensures
        s.categories[c].num_direct_threads == 0 <==> forall|t: ThreadId|
            !s.threads.contains_key((c, t)),
        s.categories[c].num_direct_subcategories == 0 <==> forall|k: CategoryId|
            s.categories.contains_key(k) ==> s.categories[k].parent_category_id != Some(c),
{
    s.threads.dom().lemma_len_filter(|k: (CategoryId, ThreadId)| k.0 == c);
    s.categories.dom().lemma_len_filter(
        |k: CategoryId| s.categories[k].parent_category_id == Some(c),
    );
    if s.categories[c].num_direct_threads == 0 {
        s.threads_of(c).lemma_len0_is_empty();
        assert forall|t: ThreadId| !s.threads.contains_key((c, t)) by {
            if s.threads.contains_key((c, t)) {
                assert(s.threads_of(c).contains((c, t)));
            }
        }
    }
    if forall|t: ThreadId| !s.threads.contains_key((c, t)) {
        assert(s.threads_of(c) =~= Set::empty());
    }
    if s.categories[c].num_direct_subcategories == 0 {
        s.subcategories_of(c).lemma_len0_is_empty();
        assert forall|k: CategoryId|
            s.categories.contains_key(k) implies s.categories[k].parent_category_id != Some(
            c,
        ) by {
            if s.categories[k].parent_category_id == Some(c) {
                assert(s.subcategories_of(c).contains(k));
            }
        }
    }
    if forall|k: CategoryId|
        s.categories.contains_key(k) ==> s.categories[k].parent_category_id != Some(c) {
        assert(s.subcategories_of(c) =~= Set::empty());
    }
}

/// Where the lead asks, the forum has room for one more category and the
/// parent exists, creating a subcategory fails for the depth of the tree
/// exactly when the parent's path plus the new category would be longer
/// than the tree may be deep. Whether anything on that path is archived
/// plays no part.
pub proof fn law_depth_decides_before_archival(
    s: ForumState,
    cfg: Config,
    is_lead: bool,
    parent: CategoryId,
)
    requires
        is_lead,
        s.category_counter < cfg.limits.max_categories,
        s.categories.contains_key(parent),
    ensures
        create_category_guard(s, cfg, is_lead, Some(parent)) == Some(
            Error::MaxValidCategoryDepthExceeded,
        ) <==> s.path(parent).len() + 1 > cfg.max_category_depth,
{
}

/// Whether a category is a on the way up from another: the category itself,
/// its parent, the parent's parent, and so on.
pub open spec fn on_path(s: ForumState, c: CategoryId, ancestor: CategoryId) -> bool {
    exists|i: int| 0 <= i < s.path(c).len() && #[trigger] s.path(c)[i] == ancestor
}

/// While a category is archived, nothing below it can be changed: no thread
/// or post in it or in any of its descendants passes the checks that every
/// change starts with, no thread can be opened there, and none can be
/// deleted or moved away.
pub proof fn law_archived_ancestor_locks(
    s: ForumState,
    cfg: Config,
    c: CategoryId,
    ancestor: CategoryId,
    t: ThreadId,
    p: PostId,
)
    requires
        on_path(s, c, ancestor),
        s.archived_at(ancestor),
    ensures
        s.chain_archived(c),
        !s.thread_mutable(c, t),
        thread_guard(s, c, t) is Some,
        s.threads.contains_key((c, t)) && !s.threads[(c, t)].archived ==> thread_guard(s, c, t)
            == Some(Error::AncestorCategoryImmutable),
        post_guard(s, c, t, p) is Some,
        forall|poll: Option<PollView>, now: Moment| #[trigger]
            new_thread_guard(s, cfg, c, poll, now) is Some,
        forall|member: bool, poll: Option<PollView>, now: Moment| #[trigger]
            create_thread_guard(s, cfg, member, c, poll, now) is Some,
        forall|member: bool, user: ForumUserId| #[trigger]
            edit_title_guard(s, member, user, c, t) is Some,
        forall|confirmed: bool, actor: PrivilegedActor, status: bool| #[trigger]
            thread_archival_guard(s, confirmed, actor, c, t, status) is Some,
        forall|member: bool, index: u32, now: Moment| #[trigger]
            vote_guard(s, member, c, t, index, now) is Some,
        new_post_guard(s, cfg, c, t) is Some,
        forall|member: bool| #[trigger] add_post_guard(s, cfg, member, c, t) is Some,
        forall|member: bool| #[trigger] react_guard(s, member, c, t, p) is Some,
        forall|member: bool, user: ForumUserId| #[trigger]
            edit_post_guard(s, member, user, c, t, p) is Some,
        forall|confirmed: bool, actor: PrivilegedActor| #[trigger]
            moderate_post_guard(s, confirmed, actor, c, t, p) is Some,
        forall|confirmed: bool, actor: PrivilegedActor| #[trigger]
            moderate_thread_guard(s, confirmed, actor, c, t) is Some,
        forall|confirmed: bool, actor: PrivilegedActor, to: CategoryId| #[trigger]
            move_thread_guard(s, cfg, confirmed, actor, c, t, to) is Some,
{
    let i = choose|i: int| 0 <= i < s.path(c).len() && #[trigger] s.path(c)[i] == ancestor;
    assert(s.archived_at(s.path(c)[i]));
}

/// Archiving a category and taking it out of the archive again, by an actor
/// who may, gives back the very state there was before: whatever could be
/// changed before can be changed again.
pub proof fn law_unarchiving_restores(
    s: ForumState,
    actor: PrivilegedActor,
    c: CategoryId,
)
    requires
        s.categories.contains_key(c),
        !s.categories[c].archived,
        s.may_moderate(actor, c),
    ensures
        category_archival_guard(s, true, actor, c, true) is None,
        category_archival_guard(
            category_archival_next(s, true, actor, c, true),
            true,
            actor,
            c,
            false,
        )
            is None,
        category_archival_next(
            category_archival_next(s, true, actor, c, true),
            true,
            actor,
            c,
            false,
        ) == s,
{
    let s1 = category_archival_next(s, true, actor, c, true);
    assert(s1.categories.dom() =~= s.categories.dom());
    lemma_same_parents_paths(s, s1, c);
    match actor {
        PrivilegedActor::Lead => {},
        PrivilegedActor::Moderator(m) => {
            let i = choose|i: int|
                0 <= i < s.path(c).len() && s.moderators.contains((#[trigger] s.path(c)[i], m));
            assert(s1.moderators.contains((s1.path(c)[i], m)));
        },
    }
    let s2 = category_archival_next(s1, true, actor, c, false);
    assert(s2.categories =~= s.categories);
}

/// Asking for the archival status a category already has is refused as such,
/// where the actor may act on the category at all.
pub proof fn law_same_status_rejected(
    s: ForumState,
    actor: PrivilegedActor,
    c: CategoryId,
    status: bool,
)
    requires
        s.categories.contains_key(c),
        s.may_moderate(actor, c),
        s.categories[c].archived == status,
    ensures
        category_archival_guard(s, true, actor, c, status) == Some(
            Error::CategoryNotBeingUpdated,
        ),
        category_archival_next(s, true, actor, c, status) == s,
{
}

/// Moving a thread to the category it is in fails as an invalid move,
/// whoever asks and whatever their rights.
pub proof fn law_move_to_same_category_invalid(
    s: ForumState,
    cfg: Config,
    role_confirmed: bool,
    actor: PrivilegedActor,
    c: CategoryId,
    t: ThreadId,
)
    ensures
        move_thread_guard(s, cfg, role_confirmed, actor, c, t, c) == Some(
            Error::ThreadMoveInvalid,
        ),
        move_thread_next(s, cfg, role_confirmed, actor, c, t, c) == s,
{
}

/// A vote by a member in a thread that may be changed and carries a poll is
/// refused as expired exactly when the poll's end time has passed, and else
/// as naming no alternative exactly when the index is not below the number
/// of alternatives.
pub proof fn law_vote_refusals(
    s: ForumState,
    c: CategoryId,
    t: ThreadId,
    index: u32,
    now: Moment,
)
    requires
        s.thread_mutable(c, t),
        s.threads[(c, t)].poll is Some,
    ensures
        vote_guard(s, true, c, t, index, now) == Some(Error::PollCommitExpired) <==> s.threads[(
            c,
            t,
        )].poll->0.end_time < now,
        vote_guard(s, true, c, t, index, now) == Some(Error::PollData) <==> s.threads[(
            c,
            t,
        )].poll->0.end_time >= now && index >= s.threads[(c, t)].poll->0.poll_alternatives.len(),
{
}

/// Votes are not told apart by voter. After a vote that counted, a second
/// vote for the same alternative, cast no later than the poll's end, counts
/// as well: the alternative then has two votes more than at the start and
/// every other alternative has what it had.
pub proof fn law_repeated_votes_count(
    s: ForumState,
    c: CategoryId,
    t: ThreadId,
    index: u32,
    now: Moment,
    later: Moment,
)
    requires
        vote_guard(s, true, c, t, index, now) is None,
        later <= s.threads[(c, t)].poll->0.end_time,
        s.votes_for(c, t, index) + 2 <= u32::MAX,
    ensures
        vote_guard(vote_next(s, true, c, t, index, now), true, c, t, index, later) is None,
        ({
            let before = s.threads[(c, t)].poll->0.poll_alternatives;
            let after = vote_next(
                vote_next(s, true, c, t, index, now),
                true,
                c,
                t,
                index,
                later,
            ).threads[(c, t)].poll->0.poll_alternatives;
            &&& after.len() == before.len()
            &&& after[index as int].vote_count == before[index as int].vote_count + 2
            &&& after[index as int].alternative_text_hash
                == before[index as int].alternative_text_hash
            &&& forall|i: int| 0 <= i < before.len() && i != index ==> after[i] == before[i]
        }),
{
    let s1 = vote_next(s, true, c, t, index, now);
    lemma_same_parents_paths(s, s1, c);
    if s1.chain_archived(c) {
        let i = choose|i: int|
            0 <= i < s1.path(c).len() && s1.archived_at(#[trigger] s1.path(c)[i]);
        assert(s.archived_at(s.path(c)[i]));
    }
}

/// Once a category is archived, every category that has it on its way up is
/// locked, and so is every thread in it.
pub proof fn law_archiving_locks_descendants(
    s: ForumState,
    actor: PrivilegedActor,
    ancestor: CategoryId,
    c: CategoryId,
    t: ThreadId,
)
    requires
        category_archival_guard(s, true, actor, ancestor, true) is None,
        on_path(s, c, ancestor),
    ensures
        on_path(category_archival_next(s, true, actor, ancestor, true), c, ancestor),
        category_archival_next(s, true, actor, ancestor, true).chain_archived(c),
        !category_archival_next(s, true, actor, ancestor, true).thread_mutable(c, t),
{
    let s1 = category_archival_next(s, true, actor, ancestor, true);
    assert(s1.categories.dom() =~= s.categories.dom());
    lemma_same_parents_paths(s, s1, c);
    let i = choose|i: int| 0 <= i < s.path(c).len() && #[trigger] s.path(c)[i] == ancestor;
    assert(s1.path(c)[i] == ancestor);
    assert(s1.archived_at(s1.path(c)[i]));
}

/// A moderator assigned to a category may act on it and on every category
/// that has it on its way up.
pub proof fn law_delegation_flows_down(
    s: ForumState,
    m: u64,
    assigned_to: CategoryId,
    c: CategoryId,
)
    requires
        s.moderators.contains((assigned_to, m)),
        on_path(s, c, assigned_to),
    ensures
        s.may_moderate(PrivilegedActor::Moderator(m), c),
{
    let i = choose|i: int| 0 <= i < s.path(c).len() && #[trigger] s.path(c)[i] == assigned_to;
    assert(s.moderators.contains((s.path(c)[i], m)));
}

/// A moderator may act on a category only where assigned to it or to a
/// category on its way up: an assignment further down gives no right
/// further up.
pub proof fn law_delegation_needs_assignment_above(s: ForumState, m: u64, c: CategoryId)
    requires
        forall|a: CategoryId| on_path(s, c, a) ==> !s.moderators.contains((a, m)),
    ensures
        !s.may_moderate(PrivilegedActor::Moderator(m), c),
{
    if s.chain_moderated_by(c, m) {
        let i = choose|i: int|
            0 <= i < s.path(c).len() && s.moderators.contains((#[trigger] s.path(c)[i], m));
        assert(on_path(s, c, s.path(c)[i]));
    }
}

/// While a thread is archived it can be neither changed nor deleted nor
/// moved, whoever asks.
pub proof fn law_archived_thread_locks(
    s: ForumState,
    cfg: Config,
    c: CategoryId,
    t: ThreadId,
)
    requires
        s.threads.contains_key((c, t)),
        s.threads[(c, t)].archived,
    ensures
        thread_guard(s, c, t) == Some(Error::ThreadImmutable),
        forall|confirmed: bool, actor: PrivilegedActor| #[trigger]
            moderate_thread_guard(s, confirmed, actor, c, t) is Some,
        forall|confirmed: bool, actor: PrivilegedActor, to: CategoryId| #[trigger]
            move_thread_guard(s, cfg, confirmed, actor, c, t, to) is Some,
        forall|confirmed: bool, actor: PrivilegedActor, status: bool| #[trigger]
            thread_archival_guard(s, confirmed, actor, c, t, status) is Some,
{
}

/// The ceiling on moderators stands in the way of nothing but an assignment
/// that adds one: the lead can always take a moderator off a category that
/// exists, and can always name again one who is assigned already. Taking off
/// one who is assigned lowers the count by one.
pub proof fn law_ceiling_guards_inserts_only(
    s: ForumState,
    cfg: Config,
    m: u64,
    c: CategoryId,
)
    requires
        s.wf(cfg),
        s.categories.contains_key(c),
    ensures
        membership_guard(s, cfg, true, m, c, false) is None,
        s.moderators.contains((c, m)) ==> membership_guard(s, cfg, true, m, c, true) is None,
        s.moderators.contains((c, m)) ==> {
            let after = membership_next(s, cfg, true, m, c, false);
            &&& !after.moderators.contains((c, m))
            &&& after.categories[c].num_direct_moderators
                == s.categories[c].num_direct_moderators - 1
        },
{
    lemma_membership_wf(s, cfg, true, m, c, false);
}

/// A moderator assigned to a category that has a parent, or to a category
/// above it, may delete it once it is empty; a root goes by the lead's hand
/// only.
pub proof fn law_moderator_deletes_below_root_only(s: ForumState, m: u64, c: CategoryId)
    requires
        s.categories.contains_key(c),
        s.categories[c].num_direct_threads == 0,
        s.categories[c].num_direct_subcategories == 0,
    ensures
        delete_category_guard(s, true, PrivilegedActor::Moderator(m), c) is None <==> {
            &&& s.categories[c].parent_category_id is Some
            &&& s.chain_moderated_by(c, m)
        },
        delete_category_guard(s, true, PrivilegedActor::Lead, c) is None,
{
}

/// A category that does not exist is reported as such to whoever asks to
/// act on it with a confirmed role, the lead included.
pub proof fn law_missing_category_is_not_found(
    s: ForumState,
    actor: PrivilegedActor,
    c: CategoryId,
)
    requires
        !s.categories.contains_key(c),
    ensures
        authorize_guard(s, actor, c) == Some(Error::CategoryDoesNotExist),
        moderation_guard(s, true, actor, c) == Some(Error::CategoryDoesNotExist),
{
}

} // verus!
