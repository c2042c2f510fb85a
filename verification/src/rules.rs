//! What each operation answers and what it leaves behind, as functions of the
//! state before and the arguments. The checks of an operation are tried in
//! the order written; the first that fails names the error, and a rejected
//! operation changes nothing.

use crate::state::{Config, ForumState};
use crate::types::{
    CategoryId, CategoryView, ContentHash, Error, ForumUserId, ModeratorId, Moment,
    PollAlternative, PollView, Post, PostId, PrivilegedActor, ThreadId, ThreadView,
};
use vstd::prelude::*;

verus! {

/// The error for an actor whose claimed role the caller's account does not
/// carry.
pub open spec fn role_error(actor: PrivilegedActor) -> Error {
    match actor {
        PrivilegedActor::Lead => Error::OriginNotForumLead,
        PrivilegedActor::Moderator(_) => Error::ModeratorIdNotMatchAccount,
    }
}

/// Why the thread under the key cannot be changed, if it cannot.
pub open spec fn thread_guard(s: ForumState, c: CategoryId, t: ThreadId) -> Option<Error> {
    if !s.threads.contains_key((c, t)) {
        Some(Error::ThreadDoesNotExist)
    } else if s.threads[(c, t)].archived {
        Some(Error::ThreadImmutable)
    } else if s.chain_archived(c) {
        Some(Error::AncestorCategoryImmutable)
    } else {
        None
    }
}

/// Why the post under the key cannot be changed, if it cannot.
pub open spec fn post_guard(s: ForumState, c: CategoryId, t: ThreadId, p: PostId) -> Option<
    Error,
> {
    if !s.posts.contains_key((t, p)) {
        Some(Error::PostDoesNotExist)
    } else {
        thread_guard(s, c, t)
    }
}

/// Why the actor cannot act on the category, if it cannot: the category has
/// to exist, and a moderator has to be assigned to it or to a category above
/// it. The lead may act on every category there is.
pub open spec fn authorize_guard(s: ForumState, actor: PrivilegedActor, c: CategoryId) -> Option<
    Error,
> {
    if !s.categories.contains_key(c) {
        Some(Error::CategoryDoesNotExist)
    } else if !s.may_moderate(actor, c) {
        Some(Error::ModeratorCantUpdateCategory)
    } else {
        None
    }
}

/// Why the actor, with the role confirmed or not, cannot moderate in the
/// category, if it cannot.
pub open spec fn moderation_guard(
    s: ForumState,
    role_confirmed: bool,
    actor: PrivilegedActor,
    c: CategoryId,
) -> Option<Error> {
    if !role_confirmed {
        Some(role_error(actor))
    } else {
        authorize_guard(s, actor, c)
    }
}

/// Why the poll cannot be attached to a new thread at the moment `now`, if it
/// cannot.
pub open spec fn poll_guard(cfg: Config, poll: Option<PollView>, now: Moment) -> Option<Error> {
    match poll {
        None => None,
        Some(p) => {
            match cfg.poll_items_constraint.verdict(
                p.poll_alternatives.len() as usize,
                Error::PollAlternativesTooShort,
                Error::PollAlternativesTooLong,
            ) {
                Err(e) => Some(e),
                Ok(_) => if p.end_time < now {
                    Some(Error::PollTimeSetting)
                } else {
                    None
                },
            }
        },
    }
}

/// The state with one field of one category replaced.
pub open spec fn with_category(s: ForumState, c: CategoryId, v: CategoryView) -> ForumState {
    ForumState { categories: s.categories.insert(c, v), ..s }
}

// ---------------------------------------------------------------------------
// Moderator assignment
// ---------------------------------------------------------------------------
/// Why the lead cannot assign moderator `m` to `c` (`new_value`) or take
/// them off it, if they cannot. The ceiling stands in the way only of an
/// assignment that adds one: taking a moderator off is always in order, and
/// so is assigning one who is assigned already.
pub open spec fn membership_guard(
    s: ForumState,
    cfg: Config,
    is_lead: bool,
    m: ModeratorId,
    c: CategoryId,
    new_value: bool,
) -> Option<Error> {
    if !is_lead {
        Some(Error::OriginNotForumLead)
    } else if !s.categories.contains_key(c) {
        Some(Error::CategoryDoesNotExist)
    } else if new_value && !s.moderators.contains((c, m)) && s.categories[c].num_direct_moderators
        >= cfg.limits.max_moderators_for_category {
        Some(Error::MapSizeLimit)
    } else {
        None
    }
}

/// The state after moderator `m` is assigned to `c` (`new_value`) or taken
/// off it. The counter moves only when the assignment changes.
pub open spec fn membership_next(
    s: ForumState,
    cfg: Config,
    is_lead: bool,
    m: ModeratorId,
    c: CategoryId,
    new_value: bool,
) -> ForumState {
    if membership_guard(s, cfg, is_lead, m, c, new_value) is Some {
        s
    } else {
        let old = s.categories[c];
        let had = s.moderators.contains((c, m));
        if new_value && !had {
            ForumState {
                moderators: s.moderators.insert((c, m)),
                categories: s.categories.insert(
                    c,
                    CategoryView {
                        num_direct_moderators: (old.num_direct_moderators + 1) as u32,
                        ..old
                    },
                ),
                ..s
            }
        } else if !new_value && had {
            ForumState {
                moderators: s.moderators.remove((c, m)),
                categories: s.categories.insert(
                    c,
                    CategoryView {
                        num_direct_moderators: (old.num_direct_moderators - 1) as u32,
                        ..old
                    },
                ),
                ..s
            }
        } else {
            s
        }
    }
}

// ---------------------------------------------------------------------------
// Categories
// ---------------------------------------------------------------------------
/// Why the tree cannot grow below `p`, if it cannot. The depth of the tree is
/// checked before archival.
pub open spec fn subcategory_path_guard(s: ForumState, max_depth: u64, p: CategoryId) -> Option<
    Error,
> {
    if !s.categories.contains_key(p) {
        Some(Error::CategoryDoesNotExist)
    } else if s.path(p).len() >= max_depth {
        Some(Error::MaxValidCategoryDepthExceeded)
    } else if s.chain_archived(p) {
        Some(Error::AncestorCategoryImmutable)
    } else {
        None
    }
}

/// Why a subcategory cannot be added under `p`, if it cannot.
pub open spec fn subcategory_guard(s: ForumState, cfg: Config, p: CategoryId) -> Option<Error> {
    if subcategory_path_guard(s, cfg.max_category_depth, p) is Some {
        subcategory_path_guard(s, cfg.max_category_depth, p)
    } else if s.categories[p].num_direct_subcategories >= cfg.limits.max_subcategories {
        Some(Error::MapSizeLimit)
    } else {
        None
    }
}

/// Why a category cannot be created, if it cannot.
pub open spec fn create_category_guard(
    s: ForumState,
    cfg: Config,
    is_lead: bool,
    parent: Option<CategoryId>,
) -> Option<Error> {
    if !is_lead {
        Some(Error::OriginNotForumLead)
    } else if s.category_counter >= cfg.limits.max_categories {
        Some(Error::MapSizeLimit)
    } else {
        match parent {
            Some(p) => subcategory_guard(s, cfg, p),
            None => None,
        }
    }
}

/// A category as it is when created.
pub open spec fn fresh_category(
    parent: Option<CategoryId>,
    title_hash: ContentHash,
    description_hash: ContentHash,
) -> CategoryView {
    CategoryView {
        title_hash,
        description_hash,
        archived: false,
        num_direct_subcategories: 0,
        num_direct_threads: 0,
        num_direct_moderators: 0,
        parent_category_id: parent,
        sticky_thread_ids: Seq::empty(),
    }
}

/// The state after a category is created: it takes the next id, the total
/// grows by one, and so does the parent's count of subcategories.
pub open spec fn create_category_next(
    s: ForumState,
    cfg: Config,
    is_lead: bool,
    parent: Option<CategoryId>,
    title_hash: ContentHash,
    description_hash: ContentHash,
) -> ForumState {
    if create_category_guard(s, cfg, is_lead, parent) is Some {
        s
    } else {
        let id = s.next_category_id;
        let added = s.categories.insert(id, fresh_category(parent, title_hash, description_hash));
        let linked = match parent {
            Some(p) => added.insert(
                p,
                CategoryView {
                    num_direct_subcategories: (s.categories[p].num_direct_subcategories
                        + 1) as u32,
                    ..s.categories[p]
                },
            ),
            None => added,
        };
        ForumState {
            categories: linked,
            next_category_id: (id + 1) as u64,
            category_counter: (s.category_counter + 1) as u64,
            ..s
        }
    }
}

/// Why the archival status of `c` cannot be set to `new_status`, if it
/// cannot. Setting it to what it already is counts as an error.
pub open spec fn category_archival_guard(
    s: ForumState,
    role_confirmed: bool,
    actor: PrivilegedActor,
    c: CategoryId,
    new_status: bool,
) -> Option<Error> {
    if moderation_guard(s, role_confirmed, actor, c) is Some {
        moderation_guard(s, role_confirmed, actor, c)
    } else if s.categories[c].archived == new_status {
        Some(Error::CategoryNotBeingUpdated)
    } else {
        None
    }
}

/// The state after the archival status of `c` is set.
pub open spec fn category_archival_next(
    s: ForumState,
    role_confirmed: bool,
    actor: PrivilegedActor,
    c: CategoryId,
    new_status: bool,
) -> ForumState {
    if category_archival_guard(s, role_confirmed, actor, c, new_status) is Some {
        s
    } else {
        with_category(s, c, CategoryView { archived: new_status, ..s.categories[c] })
    }
}

/// Why `c` cannot be deleted, if it cannot. A category goes only when empty;
/// a root goes only by the lead's hand, any other also by the hand of a
/// moderator assigned to it or to a category above it.
pub open spec fn delete_category_guard(
    s: ForumState,
    role_confirmed: bool,
    actor: PrivilegedActor,
    c: CategoryId,
) -> Option<Error> {
    if !role_confirmed {
        Some(role_error(actor))
    } else if !s.categories.contains_key(c) {
        Some(Error::CategoryDoesNotExist)
    } else if s.categories[c].num_direct_threads != 0 {
        Some(Error::CategoryNotEmptyThreads)
    } else if s.categories[c].num_direct_subcategories != 0 {
        Some(Error::CategoryNotEmptyCategories)
    } else {
        match s.categories[c].parent_category_id {
            Some(_) => if s.may_moderate(actor, c) {
                None
            } else {
                Some(Error::ModeratorCantDeleteCategory)
            },
            None => if actor is Lead {
                None
            } else {
                Some(Error::ModeratorCantDeleteCategory)
            },
        }
    }
}

/// The state after `c` is deleted: it is gone, the total shrinks by one, and
/// so does the parent's count of subcategories.
pub open spec fn delete_category_next(
    s: ForumState,
    role_confirmed: bool,
    actor: PrivilegedActor,
    c: CategoryId,
) -> ForumState {
    if delete_category_guard(s, role_confirmed, actor, c) is Some {
        s
    } else {
        let removed = s.categories.remove(c);
        let unlinked = match s.categories[c].parent_category_id {
            Some(p) => removed.insert(
                p,
                CategoryView {
                    num_direct_subcategories: (s.categories[p].num_direct_subcategories
                        - 1) as u32,
                    ..s.categories[p]
                },
            ),
            None => removed,
        };
        ForumState {
            categories: unlinked,
            category_counter: (s.category_counter - 1) as u64,
            ..s
        }
    }
}

/// Why the sticky threads of `c` cannot be set to `ids`, if they cannot:
/// every one of them has to be a thread of `c`.
pub open spec fn stickied_guard(
    s: ForumState,
    role_confirmed: bool,
    actor: PrivilegedActor,
    c: CategoryId,
    ids: Seq<ThreadId>,
) -> Option<Error> {
    if moderation_guard(s, role_confirmed, actor, c) is Some {
        moderation_guard(s, role_confirmed, actor, c)
    } else if exists|i: int| 0 <= i < ids.len() && !s.threads.contains_key((c, #[trigger] ids[i])) {
        Some(Error::ThreadDoesNotExist)
    } else {
        None
    }
}

/// The state after the sticky threads of `c` are set.
pub open spec fn stickied_next(
    s: ForumState,
    role_confirmed: bool,
    actor: PrivilegedActor,
    c: CategoryId,
    ids: Seq<ThreadId>,
) -> ForumState {
    if stickied_guard(s, role_confirmed, actor, c, ids) is Some {
        s
    } else {
        with_category(s, c, CategoryView { sticky_thread_ids: ids, ..s.categories[c] })
    }
}

// ---------------------------------------------------------------------------
// Threads
// ---------------------------------------------------------------------------
/// Why nothing can be changed in `c`, if nothing can: the category has to
/// exist, and neither it nor a category above it may be archived.
pub open spec fn category_guard(s: ForumState, c: CategoryId) -> Option<Error> {
    if !s.categories.contains_key(c) {
        Some(Error::CategoryDoesNotExist)
    } else if s.chain_archived(c) {
        Some(Error::AncestorCategoryImmutable)
    } else {
        None
    }
}

/// Why `c` cannot take one more thread, if it cannot.
pub open spec fn thread_room_guard(s: ForumState, cfg: Config, c: CategoryId) -> Option<Error> {
    if category_guard(s, c) is Some {
        category_guard(s, c)
    } else if s.categories[c].num_direct_threads >= cfg.limits.max_threads_in_category {
        Some(Error::MapSizeLimit)
    } else {
        None
    }
}

/// Why a thread cannot be added to `c` at the moment `now`, if it cannot.
/// The thread comes with its first post, so a forum whose threads may hold no
/// post takes no thread.
pub open spec fn new_thread_guard(
    s: ForumState,
    cfg: Config,
    c: CategoryId,
    poll: Option<PollView>,
    now: Moment,
) -> Option<Error> {
    if thread_room_guard(s, cfg, c) is Some {
        thread_room_guard(s, cfg, c)
    } else if poll_guard(cfg, poll, now) is Some {
        poll_guard(cfg, poll, now)
    } else if cfg.limits.max_posts_in_thread == 0 {
        Some(Error::MapSizeLimit)
    } else {
        None
    }
}

/// A thread as it is when created, its first post counted.
pub open spec fn fresh_thread(
    c: CategoryId,
    author: ForumUserId,
    title_hash: ContentHash,
    poll: Option<PollView>,
) -> ThreadView {
    ThreadView {
        title_hash,
        category_id: c,
        author_id: author,
        archived: false,
        poll,
        num_direct_posts: 1,
    }
}

/// The state after a thread and its first post are added to `c`.
pub open spec fn new_thread_next(
    s: ForumState,
    cfg: Config,
    c: CategoryId,
    author: ForumUserId,
    title_hash: ContentHash,
    text_hash: ContentHash,
    poll: Option<PollView>,
    now: Moment,
) -> ForumState {
    if new_thread_guard(s, cfg, c, poll, now) is Some {
        s
    } else {
        let t = s.next_thread_id;
        let p = s.next_post_id;
        ForumState {
            threads: s.threads.insert((c, t), fresh_thread(c, author, title_hash, poll)),
            posts: s.posts.insert((t, p), Post { thread_id: t, text_hash, author_id: author }),
            categories: s.categories.insert(
                c,
                CategoryView {
                    num_direct_threads: (s.categories[c].num_direct_threads + 1) as u32,
                    ..s.categories[c]
                },
            ),
            next_thread_id: (t + 1) as u64,
            next_post_id: (p + 1) as u64,
            ..s
        }
    }
}

/// Why a member cannot open a thread in `c`, if they cannot.
pub open spec fn create_thread_guard(
    s: ForumState,
    cfg: Config,
    is_member: bool,
    c: CategoryId,
    poll: Option<PollView>,
    now: Moment,
) -> Option<Error> {
    if !is_member {
        Some(Error::ForumUserIdNotMatchAccount)
    } else {
        new_thread_guard(s, cfg, c, poll, now)
    }
}

/// The state after a member opens a thread in `c`.
pub open spec fn create_thread_next(
    s: ForumState,
    cfg: Config,
    is_member: bool,
    c: CategoryId,
    author: ForumUserId,
    title_hash: ContentHash,
    text_hash: ContentHash,
    poll: Option<PollView>,
    now: Moment,
) -> ForumState {
    if is_member {
        new_thread_next(s, cfg, c, author, title_hash, text_hash, poll, now)
    } else {
        s
    }
}

/// Why the author cannot change the thread's title, if they cannot.
pub open spec fn edit_title_guard(
    s: ForumState,
    is_member: bool,
    user: ForumUserId,
    c: CategoryId,
    t: ThreadId,
) -> Option<Error> {
    if !is_member {
        Some(Error::ForumUserIdNotMatchAccount)
    } else if thread_guard(s, c, t) is Some {
        thread_guard(s, c, t)
    } else if s.threads[(c, t)].author_id != user {
        Some(Error::AccountDoesNotMatchThreadAuthor)
    } else {
        None
    }
}

/// The state after the thread's title is changed.
pub open spec fn edit_title_next(
    s: ForumState,
    is_member: bool,
    user: ForumUserId,
    c: CategoryId,
    t: ThreadId,
    title_hash: ContentHash,
) -> ForumState {
    if edit_title_guard(s, is_member, user, c, t) is Some {
        s
    } else {
        ForumState {
            threads: s.threads.insert((c, t), ThreadView { title_hash, ..s.threads[(c, t)] }),
            ..s
        }
    }
}

/// Why the actor cannot change the thread itself, if it cannot.
pub open spec fn thread_moderation_guard(
    s: ForumState,
    role_confirmed: bool,
    actor: PrivilegedActor,
    c: CategoryId,
    t: ThreadId,
) -> Option<Error> {
    if !role_confirmed {
        Some(role_error(actor))
    } else if thread_guard(s, c, t) is Some {
        thread_guard(s, c, t)
    } else {
        authorize_guard(s, actor, c)
    }
}

/// Why the archival status of the thread cannot be set to `new_status`, if it
/// cannot.
pub open spec fn thread_archival_guard(
    s: ForumState,
    role_confirmed: bool,
    actor: PrivilegedActor,
    c: CategoryId,
    t: ThreadId,
    new_status: bool,
) -> Option<Error> {
    if thread_moderation_guard(s, role_confirmed, actor, c, t) is Some {
        thread_moderation_guard(s, role_confirmed, actor, c, t)
    } else if s.threads[(c, t)].archived == new_status {
        Some(Error::ThreadNotBeingUpdated)
    } else {
        None
    }
}

/// The state after the archival status of the thread is set.
pub open spec fn thread_archival_next(
    s: ForumState,
    role_confirmed: bool,
    actor: PrivilegedActor,
    c: CategoryId,
    t: ThreadId,
    new_status: bool,
) -> ForumState {
    if thread_archival_guard(s, role_confirmed, actor, c, t, new_status) is Some {
        s
    } else {
        ForumState {
            threads: s.threads.insert(
                (c, t),
                ThreadView { archived: new_status, ..s.threads[(c, t)] },
            ),
            ..s
        }
    }
}

/// Why the actor cannot remove the thread, if it cannot. Archival stands in
/// the way as it does of every change to a thread.
pub open spec fn moderate_thread_guard(
    s: ForumState,
    role_confirmed: bool,
    actor: PrivilegedActor,
    c: CategoryId,
    t: ThreadId,
) -> Option<Error> {
    if moderation_guard(s, role_confirmed, actor, c) is Some {
        moderation_guard(s, role_confirmed, actor, c)
    } else {
        thread_guard(s, c, t)
    }
}

/// The state with the thread under the key, and every post of it, removed and
/// the category's count of threads lowered by one.
pub open spec fn without_thread(s: ForumState, c: CategoryId, t: ThreadId) -> ForumState {
    ForumState {
        threads: s.threads.remove((c, t)),
        posts: s.posts.remove_keys(s.posts_of(t)),
        categories: s.categories.insert(
            c,
            CategoryView {
                num_direct_threads: (s.categories[c].num_direct_threads - 1) as u32,
                ..s.categories[c]
            },
        ),
        ..s
    }
}

/// The state after the thread is removed.
pub open spec fn moderate_thread_next(
    s: ForumState,
    role_confirmed: bool,
    actor: PrivilegedActor,
    c: CategoryId,
    t: ThreadId,
) -> ForumState {
    if moderate_thread_guard(s, role_confirmed, actor, c, t) is Some {
        s
    } else {
        without_thread(s, c, t)
    }
}

/// What is wrong on the side a thread is to leave, where the actor's role is
/// not confirmed or the actor may not moderate there.
pub open spec fn origin_error(e: Error) -> Error {
    if e == Error::CategoryDoesNotExist {
        e
    } else {
        Error::ModeratorModerateOriginCategory
    }
}

/// What is wrong on the side a thread is to arrive at, where the actor may
/// not moderate there.
pub open spec fn destination_error(e: Error) -> Error {
    if e == Error::CategoryDoesNotExist {
        e
    } else {
        Error::ModeratorModerateDestinationCategory
    }
}

/// Why the thread cannot move from `c` to `to`, if it cannot. A move to
/// where the thread already is fails before anything else is looked at.
/// After that, a role that is not confirmed or a missing right to moderate
/// is reported by the side it is missing on; a category or thread that is
/// not there, and archival, are reported as what they are.
pub open spec fn move_thread_guard(
    s: ForumState,
    cfg: Config,
    role_confirmed: bool,
    actor: PrivilegedActor,
    c: CategoryId,
    t: ThreadId,
    to: CategoryId,
) -> Option<Error> {
    if c == to {
        Some(Error::ThreadMoveInvalid)
    } else if moderation_guard(s, role_confirmed, actor, c) is Some {
        Some(origin_error(moderation_guard(s, role_confirmed, actor, c)->0))
    } else if thread_guard(s, c, t) is Some {
        thread_guard(s, c, t)
    } else if authorize_guard(s, actor, to) is Some {
        Some(destination_error(authorize_guard(s, actor, to)->0))
    } else if s.categories[to].num_direct_threads >= cfg.limits.max_threads_in_category {
        Some(Error::MapSizeLimit)
    } else {
        None
    }
}

/// The state after the thread moves from `c` to `to`.
pub open spec fn move_thread_next(
    s: ForumState,
    cfg: Config,
    role_confirmed: bool,
    actor: PrivilegedActor,
    c: CategoryId,
    t: ThreadId,
    to: CategoryId,
) -> ForumState {
    if move_thread_guard(s, cfg, role_confirmed, actor, c, t, to) is Some {
        s
    } else {
        ForumState {
            threads: s.threads.remove((c, t)).insert(
                (to, t),
                ThreadView { category_id: to, ..s.threads[(c, t)] },
            ),
            categories: s.categories.insert(
                c,
                CategoryView {
                    num_direct_threads: (s.categories[c].num_direct_threads - 1) as u32,
                    ..s.categories[c]
                },
            ).insert(
                to,
                CategoryView {
                    num_direct_threads: (s.categories[to].num_direct_threads + 1) as u32,
                    ..s.categories[to]
                },
            ),
            ..s
        }
    }
}

// ---------------------------------------------------------------------------
// Polls
// ---------------------------------------------------------------------------
/// Why a vote for alternative `index` cannot be cast at the moment `now`, if
/// it cannot. A poll takes votes up to and including its end time.
pub open spec fn vote_guard(
    s: ForumState,
    is_member: bool,
    c: CategoryId,
    t: ThreadId,
    index: u32,
    now: Moment,
) -> Option<Error> {
    if !is_member {
        Some(Error::ForumUserIdNotMatchAccount)
    } else if thread_guard(s, c, t) is Some {
        thread_guard(s, c, t)
    } else {
        match s.threads[(c, t)].poll {
            None => Some(Error::PollNotExist),
            Some(p) => if p.end_time < now {
                Some(Error::PollCommitExpired)
            } else if index >= p.poll_alternatives.len() {
                Some(Error::PollData)
            } else {
                None
            },
        }
    }
}

/// The poll with one more vote for alternative `index` and every other
/// alternative as it was.
pub open spec fn poll_with_vote(p: PollView, index: int) -> PollView {
    PollView {
        poll_alternatives: p.poll_alternatives.update(
            index,
            PollAlternative {
                vote_count: (p.poll_alternatives[index].vote_count + 1) as u32,
                ..p.poll_alternatives[index]
            },
        ),
        ..p
    }
}

/// The state after the vote is cast. Votes are not told apart by voter: each
/// accepted vote counts.
pub open spec fn vote_next(
    s: ForumState,
    is_member: bool,
    c: CategoryId,
    t: ThreadId,
    index: u32,
    now: Moment,
) -> ForumState {
    if vote_guard(s, is_member, c, t, index, now) is Some {
        s
    } else {
        let th = s.threads[(c, t)];
        ForumState {
            threads: s.threads.insert(
                (c, t),
                ThreadView { poll: Some(poll_with_vote(th.poll->0, index as int)), ..th },
            ),
            ..s
        }
    }
}

// ---------------------------------------------------------------------------
// Posts
// ---------------------------------------------------------------------------
/// Why a post cannot be added to the thread, if it cannot.
pub open spec fn new_post_guard(s: ForumState, cfg: Config, c: CategoryId, t: ThreadId) -> Option<
    Error,
> {
    if thread_guard(s, c, t) is Some {
        thread_guard(s, c, t)
    } else if s.threads[(c, t)].num_direct_posts >= cfg.limits.max_posts_in_thread {
        Some(Error::MapSizeLimit)
    } else {
        None
    }
}

/// The state after a post is added to the thread: it takes the next id and
/// the thread's count of posts grows by one.
pub open spec fn new_post_next(
    s: ForumState,
    cfg: Config,
    c: CategoryId,
    t: ThreadId,
    text_hash: ContentHash,
    author: ForumUserId,
) -> ForumState {
    if new_post_guard(s, cfg, c, t) is Some {
        s
    } else {
        let p = s.next_post_id;
        ForumState {
            posts: s.posts.insert((t, p), Post { thread_id: t, text_hash, author_id: author }),
            threads: s.threads.insert(
                (c, t),
                ThreadView {
                    num_direct_posts: (s.threads[(c, t)].num_direct_posts + 1) as u32,
                    ..s.threads[(c, t)]
                },
            ),
            next_post_id: (p + 1) as u64,
            ..s
        }
    }
}

/// Why a member cannot add a post to the thread, if they cannot.
pub open spec fn add_post_guard(
    s: ForumState,
    cfg: Config,
    is_member: bool,
    c: CategoryId,
    t: ThreadId,
) -> Option<Error> {
    if !is_member {
        Some(Error::ForumUserIdNotMatchAccount)
    } else {
        new_post_guard(s, cfg, c, t)
    }
}

/// The state after a member adds a post to the thread.
pub open spec fn add_post_next(
    s: ForumState,
    cfg: Config,
    is_member: bool,
    c: CategoryId,
    t: ThreadId,
    text_hash: ContentHash,
    author: ForumUserId,
) -> ForumState {
    if is_member {
        new_post_next(s, cfg, c, t, text_hash, author)
    } else {
        s
    }
}

/// Why a member cannot react to the post, if they cannot.
pub open spec fn react_guard(
    s: ForumState,
    is_member: bool,
    c: CategoryId,
    t: ThreadId,
    p: PostId,
) -> Option<Error> {
    if !is_member {
        Some(Error::ForumUserIdNotMatchAccount)
    } else {
        post_guard(s, c, t, p)
    }
}

/// Why the author cannot change the post's text, if they cannot.
pub open spec fn edit_post_guard(
    s: ForumState,
    is_member: bool,
    user: ForumUserId,
    c: CategoryId,
    t: ThreadId,
    p: PostId,
) -> Option<Error> {
    if react_guard(s, is_member, c, t, p) is Some {
        react_guard(s, is_member, c, t, p)
    } else if s.posts[(t, p)].author_id != user {
        Some(Error::AccountDoesNotMatchPostAuthor)
    } else {
        None
    }
}

/// The state after the post's text is changed.
pub open spec fn edit_post_next(
    s: ForumState,
    is_member: bool,
    user: ForumUserId,
    c: CategoryId,
    t: ThreadId,
    p: PostId,
    text_hash: ContentHash,
) -> ForumState {
    if edit_post_guard(s, is_member, user, c, t, p) is Some {
        s
    } else {
        ForumState { posts: s.posts.insert((t, p), Post { text_hash, ..s.posts[(t, p)] }), ..s }
    }
}

/// Why the actor cannot remove the post, if it cannot.
pub open spec fn moderate_post_guard(
    s: ForumState,
    role_confirmed: bool,
    actor: PrivilegedActor,
    c: CategoryId,
    t: ThreadId,
    p: PostId,
) -> Option<Error> {
    if moderation_guard(s, role_confirmed, actor, c) is Some {
        moderation_guard(s, role_confirmed, actor, c)
    } else {
        post_guard(s, c, t, p)
    }
}

/// The state after the post is removed: it is gone and the thread's count of
/// posts is lowered by one; the category is not touched.
pub open spec fn moderate_post_next(
    s: ForumState,
    role_confirmed: bool,
    actor: PrivilegedActor,
    c: CategoryId,
    t: ThreadId,
    p: PostId,
) -> ForumState {
    if moderate_post_guard(s, role_confirmed, actor, c, t, p) is Some {
        s
    } else {
        ForumState {
            posts: s.posts.remove((t, p)),
            threads: s.threads.insert(
                (c, t),
                ThreadView {
                    num_direct_posts: (s.threads[(c, t)].num_direct_posts - 1) as u32,
                    ..s.threads[(c, t)]
                },
            ),
            ..s
        }
    }
}

} // verus!
