//! The forum's entry points for callers known by their account only. Who an
//! account is, what a text hashes to and what time it is are asked of the
//! surroundings; with the answers the operations of the forum are run.
//!
//! Nothing is assumed of the answers. Each entry point says which questions
//! it puts, on which arguments, and that it then does what the operation of
//! the forum does on the answers it got; what follows from a given answer is
//! said by that operation.

use crate::events::{answers, Event, EventView};
use crate::module::Module;
use crate::rules::{
    add_post_guard, add_post_next, category_archival_guard, category_archival_next,
    create_category_guard, create_category_next, create_thread_guard, create_thread_next,
    delete_category_guard, delete_category_next, edit_post_guard, edit_post_next, edit_title_guard,
    edit_title_next, membership_guard, membership_next, moderate_post_guard, moderate_post_next,
    moderate_thread_guard, moderate_thread_next, move_thread_guard, move_thread_next, react_guard,
    role_error, stickied_guard, stickied_next, thread_archival_guard, thread_archival_next,
    vote_guard, vote_next,
};
use crate::threads::poll_view;
use crate::types::{
    CategoryId, ContentHash, Error, ForumUserId, ModeratorId, Moment, Poll, PostId, PostReactionId,
    PrivilegedActor, ThreadId,
};
use vstd::prelude::*;

verus! {

/// What the forum asks of its surroundings.
pub trait Trait {
    /// How callers are identified.
    type AccountId;

    /// Whether the account is the forum lead's.
    fn is_lead(&self, account_id: &Self::AccountId) -> bool;

    /// Whether the forum user id belongs to the account.
    fn is_forum_member(&self, account_id: &Self::AccountId, forum_user_id: &ForumUserId) -> bool;

    /// Whether the moderator id belongs to the account.
    fn is_moderator(&self, account_id: &Self::AccountId, moderator_id: &ModeratorId) -> bool;

    /// The digest of a text.
    fn calculate_hash(&self, text: &[u8]) -> ContentHash;

    /// The time on the clock. It never runs backwards.
    fn now(&self) -> Moment;
}

/// Whether `digest` is what the surroundings may give as the digest of the
/// text.
pub open spec fn hash_answer<T: Trait>(env: &T, text: &[u8], digest: ContentHash) -> bool {
    call_ensures(T::calculate_hash, (env, text), digest)
}

/// Whether `now` is what the surroundings may give as the time on the clock.
pub open spec fn clock_answer<T: Trait>(env: &T, now: Moment) -> bool {
    call_ensures(T::now, (env,), now)
}

/// Whether `answer` is what the surroundings may say when asked whether the
/// account is the lead's.
pub open spec fn lead_answer<T: Trait>(env: &T, account_id: &T::AccountId, answer: bool) -> bool {
    call_ensures(T::is_lead, (env, account_id), answer)
}

/// Whether `answer` is what the surroundings may say when asked whether the
/// forum user id belongs to the account.
pub open spec fn member_answer<T: Trait>(
    env: &T,
    account_id: &T::AccountId,
    forum_user_id: ForumUserId,
    answer: bool,
) -> bool {
    call_ensures(T::is_forum_member, (env, account_id, &forum_user_id), answer)
}

/// Whether `answer` is what the surroundings may say when asked whether the
/// moderator id belongs to the account.
pub open spec fn moderator_answer<T: Trait>(
    env: &T,
    account_id: &T::AccountId,
    moderator_id: ModeratorId,
    answer: bool,
) -> bool {
    call_ensures(T::is_moderator, (env, account_id, &moderator_id), answer)
}

/// Whether `answer` is what the surroundings may say when asked whether the
/// account carries the role the actor claims: for the lead the question is
/// whether the account is the lead's, for a moderator whether the moderator
/// id belongs to the account.
pub open spec fn role_answer<T: Trait>(
    env: &T,
    account_id: &T::AccountId,
    actor: PrivilegedActor,
    answer: bool,
) -> bool {
    match actor {
        PrivilegedActor::Lead => lead_answer(env, account_id, answer),
        PrivilegedActor::Moderator(moderator_id) => moderator_answer(
            env,
            account_id,
            moderator_id,
            answer,
        ),
    }
}

/// What becomes of an answer: a yes lets the caller pass, a no is the error
/// given.
pub open spec fn verdict_of(answer: bool, error: Error) -> Result<(), Error> {
    if answer {
        Ok(())
    } else {
        Err(error)
    }
}

/// Asks the surroundings whether the account is the lead's, this account and
/// no other, and lets the caller pass exactly where the answer is yes.
pub fn ensure_is_forum_lead_account<T: Trait>(env: &T, account_id: &T::AccountId) -> (res: Result<
    (),
    Error,
>)
    ensures
        lead_answer(env, account_id, res is Ok),
        res == verdict_of(res is Ok, Error::OriginNotForumLead),
{
    let is_lead = env.is_lead(account_id);
    if !is_lead {
        return Err(Error::OriginNotForumLead);
    }
    Ok(())
}

/// Asks the surroundings whether the forum user id belongs to the account,
/// this id and this account, and lets the caller pass exactly where the
/// answer is yes.
pub fn ensure_is_forum_user<T: Trait>(
    env: &T,
    account_id: &T::AccountId,
    forum_user_id: &ForumUserId,
) -> (res: Result<(), Error>)
    ensures
        member_answer(env, account_id, *forum_user_id, res is Ok),
        res == verdict_of(res is Ok, Error::ForumUserIdNotMatchAccount),
{
    let is_member = env.is_forum_member(account_id, forum_user_id);
    if !is_member {
        return Err(Error::ForumUserIdNotMatchAccount);
    }
    Ok(())
}

/// Asks the surroundings whether the moderator id belongs to the account,
/// this id and this account, and lets the caller pass exactly where the
/// answer is yes.
pub fn ensure_is_moderator_account<T: Trait>(
    env: &T,
    account_id: &T::AccountId,
    moderator_id: &ModeratorId,
) -> (res: Result<(), Error>)
    ensures
        moderator_answer(env, account_id, *moderator_id, res is Ok),
        res == verdict_of(res is Ok, Error::ModeratorIdNotMatchAccount),
{
    let is_moderator = env.is_moderator(account_id, moderator_id);
    if !is_moderator {
        return Err(Error::ModeratorIdNotMatchAccount);
    }
    Ok(())
}

/// Asks the surroundings whether the account carries the role the actor
/// claims, the lead's or that of the moderator named, and lets the caller
/// pass exactly where the answer is yes; a no is the error of that role.
pub fn ensure_actor_role<T: Trait>(
    env: &T,
    account_id: &T::AccountId,
    actor: &PrivilegedActor,
) -> (res: Result<(), Error>)
    ensures
        role_answer(env, account_id, *actor, res is Ok),
        res == verdict_of(res is Ok, role_error(*actor)),
{
    match actor {
        PrivilegedActor::Lead => ensure_is_forum_lead_account(env, account_id),
        PrivilegedActor::Moderator(moderator_id) => ensure_is_moderator_account(
            env,
            account_id,
            moderator_id,
        ),
    }
}

/// Assigns a moderator to a category or takes them off it, for the account
/// if it is the lead's.
pub fn update_category_membership_of_moderator<T: Trait>(
    forum: &mut Module,
    env: &T,
    account_id: &T::AccountId,
    moderator_id: ModeratorId,
    category_id: CategoryId,
    new_value: bool,
) -> (res: Result<Event, Error>)
    requires
        old(forum).wf(),
    ensures
        final(forum).wf(),
        final(forum).config() == old(forum).config(),
        exists|is_lead: bool|
            #![trigger lead_answer(env, account_id, is_lead)]
            {
                &&& lead_answer(env, account_id, is_lead)
                &&& answers(
                    res,
                    membership_guard(
                        old(forum)@,
                        old(forum).config(),
                        is_lead,
                        moderator_id,
                        category_id,
                        new_value,
                    ),
                    EventView::CategoryMembershipOfModeratorUpdated(
                        moderator_id,
                        category_id,
                        new_value,
                    ),
                )
                &&& final(forum)@ == membership_next(
                    old(forum)@,
                    old(forum).config(),
                    is_lead,
                    moderator_id,
                    category_id,
                    new_value,
                )
            },
{
    let is_lead = ensure_is_forum_lead_account(env, account_id).is_ok();
    forum.update_category_membership_of_moderator(is_lead, moderator_id, category_id, new_value)
}

/// Creates a category with the given title and description, for the account
/// if it is the lead's.
pub fn create_category<T: Trait>(
    forum: &mut Module,
    env: &T,
    account_id: &T::AccountId,
    parent_category_id: Option<CategoryId>,
    title: &[u8],
    description: &[u8],
) -> (res: Result<Event, Error>)
    requires
        old(forum).wf(),
        create_category_guard(old(forum)@, old(forum).config(), true, parent_category_id)
            is None ==> old(forum)@.next_category_id < u64::MAX,
    ensures
        final(forum).wf(),
        final(forum).config() == old(forum).config(),
        exists|is_lead: bool, title_hash: ContentHash, description_hash: ContentHash|
            #![trigger
                lead_answer(env, account_id, is_lead),
                hash_answer(env, title, title_hash),
                hash_answer(env, description, description_hash)
            ]
            {
                &&& lead_answer(env, account_id, is_lead)
                &&& hash_answer(env, title, title_hash)
                &&& hash_answer(env, description, description_hash)
                &&& answers(
                    res,
                    create_category_guard(
                        old(forum)@,
                        old(forum).config(),
                        is_lead,
                        parent_category_id,
                    ),
                    EventView::CategoryCreated(old(forum)@.next_category_id),
                )
                &&& final(forum)@ == create_category_next(
                    old(forum)@,
                    old(forum).config(),
                    is_lead,
                    parent_category_id,
                    title_hash,
                    description_hash,
                )
            },
{
    let is_lead = ensure_is_forum_lead_account(env, account_id).is_ok();
    let title_hash = env.calculate_hash(title);
    let description_hash = env.calculate_hash(description);
    proof {
        assert(hash_answer(env, title, title_hash));
        assert(hash_answer(env, description, description_hash));
    }
    forum.create_category(is_lead, parent_category_id, title_hash, description_hash)
}

/// Sets the archival status of a category, for the account if it carries
/// the actor's role.
pub fn update_category_archival_status<T: Trait>(
    forum: &mut Module,
    env: &T,
    account_id: &T::AccountId,
    actor: &PrivilegedActor,
    category_id: CategoryId,
    new_archival_status: bool,
) -> (res: Result<Event, Error>)
    requires
        old(forum).wf(),
    ensures
        final(forum).wf(),
        final(forum).config() == old(forum).config(),
        exists|confirmed: bool|
            #![trigger role_answer(env, account_id, *actor, confirmed)]
            {
                &&& role_answer(env, account_id, *actor, confirmed)
                &&& answers(
                    res,
                    category_archival_guard(
                        old(forum)@,
                        confirmed,
                        *actor,
                        category_id,
                        new_archival_status,
                    ),
                    EventView::CategoryUpdated(category_id, new_archival_status),
                )
                &&& final(forum)@ == category_archival_next(
                    old(forum)@,
                    confirmed,
                    *actor,
                    category_id,
                    new_archival_status,
                )
            },
{
    let confirmed = ensure_actor_role(env, account_id, actor).is_ok();
    forum.update_category_archival_status(confirmed, actor, category_id, new_archival_status)
}

/// Deletes a category, for the account if it carries the actor's role.
pub fn delete_category<T: Trait>(
    forum: &mut Module,
    env: &T,
    account_id: &T::AccountId,
    actor: &PrivilegedActor,
    category_id: CategoryId,
) -> (res: Result<Event, Error>)
    requires
        old(forum).wf(),
    ensures
        final(forum).wf(),
        final(forum).config() == old(forum).config(),
        exists|confirmed: bool|
            #![trigger role_answer(env, account_id, *actor, confirmed)]
            {
                &&& role_answer(env, account_id, *actor, confirmed)
                &&& answers(
                    res,
                    delete_category_guard(old(forum)@, confirmed, *actor, category_id),
                    EventView::CategoryDeleted(category_id),
                )
                &&& final(forum)@ == delete_category_next(
                    old(forum)@,
                    confirmed,
                    *actor,
                    category_id,
                )
            },
{
    let confirmed = ensure_actor_role(env, account_id, actor).is_ok();
    forum.delete_category(confirmed, actor, category_id)
}

/// Opens a thread with the given title and first text at the present time,
/// for the account if the forum user id is its own.
pub fn create_thread<T: Trait>(
    forum: &mut Module,
    env: &T,
    account_id: &T::AccountId,
    forum_user_id: ForumUserId,
    category_id: CategoryId,
    title: &[u8],
    text: &[u8],
    poll: Option<Poll>,
) -> (res: Result<Event, Error>)
    requires
        old(forum).wf(),
        forall|now: Moment|
            #[trigger] create_thread_guard(
                old(forum)@,
                old(forum).config(),
                true,
                category_id,
                poll_view(poll),
                now,
            ) is None ==> old(forum)@.next_thread_id < u64::MAX && old(forum)@.next_post_id
                < u64::MAX,
    ensures
        final(forum).wf(),
        final(forum).config() == old(forum).config(),
        exists|is_member: bool, title_hash: ContentHash, text_hash: ContentHash, now: Moment|
            #![trigger
                member_answer(env, account_id, forum_user_id, is_member),
                hash_answer(env, title, title_hash),
                hash_answer(env, text, text_hash),
                clock_answer(env, now)
            ]
            {
                &&& member_answer(env, account_id, forum_user_id, is_member)
                &&& hash_answer(env, title, title_hash)
                &&& hash_answer(env, text, text_hash)
                &&& clock_answer(env, now)
                &&& answers(
                    res,
                    create_thread_guard(
                        old(forum)@,
                        old(forum).config(),
                        is_member,
                        category_id,
                        poll_view(poll),
                        now,
                    ),
                    EventView::ThreadCreated(old(forum)@.next_thread_id),
                )
                &&& final(forum)@ == create_thread_next(
                    old(forum)@,
                    old(forum).config(),
                    is_member,
                    category_id,
                    forum_user_id,
                    title_hash,
                    text_hash,
                    poll_view(poll),
                    now,
                )
            },
{
    let is_member = ensure_is_forum_user(env, account_id, &forum_user_id).is_ok();
    let title_hash = env.calculate_hash(title);
    let text_hash = env.calculate_hash(text);
    let now = env.now();
    proof {
        assert(hash_answer(env, title, title_hash));
        assert(hash_answer(env, text, text_hash));
        assert(clock_answer(env, now));
    }
    forum.create_thread(is_member, forum_user_id, category_id, title_hash, text_hash, poll, now)
}

/// Changes a thread's title, for the account if the forum user id is its
/// own.
pub fn edit_thread_title<T: Trait>(
    forum: &mut Module,
    env: &T,
    account_id: &T::AccountId,
    forum_user_id: ForumUserId,
    category_id: CategoryId,
    thread_id: ThreadId,
    new_title: &[u8],
) -> (res: Result<Event, Error>)
    requires
        old(forum).wf(),
    ensures
        final(forum).wf(),
        final(forum).config() == old(forum).config(),
        exists|is_member: bool, title_hash: ContentHash|
            #![trigger
                member_answer(env, account_id, forum_user_id, is_member),
                hash_answer(env, new_title, title_hash)
            ]
            {
                &&& member_answer(env, account_id, forum_user_id, is_member)
                &&& hash_answer(env, new_title, title_hash)
                &&& answers(
                    res,
                    edit_title_guard(old(forum)@, is_member, forum_user_id, category_id, thread_id),
                    EventView::ThreadTitleUpdated(thread_id),
                )
                &&& final(forum)@ == edit_title_next(
                    old(forum)@,
                    is_member,
                    forum_user_id,
                    category_id,
                    thread_id,
                    title_hash,
                )
            },
{
    let is_member = ensure_is_forum_user(env, account_id, &forum_user_id).is_ok();
    let title_hash = env.calculate_hash(new_title);
    proof {
        assert(hash_answer(env, new_title, title_hash));
    }
    forum.edit_thread_title(is_member, forum_user_id, category_id, thread_id, title_hash)
}

/// Sets the archival status of a thread, for the account if it carries the
/// actor's role.
pub fn update_thread_archival_status<T: Trait>(
    forum: &mut Module,
    env: &T,
    account_id: &T::AccountId,
    actor: &PrivilegedActor,
    category_id: CategoryId,
    thread_id: ThreadId,
    new_archival_status: bool,
) -> (res: Result<Event, Error>)
    requires
        old(forum).wf(),
    ensures
        final(forum).wf(),
        final(forum).config() == old(forum).config(),
        exists|confirmed: bool|
            #![trigger role_answer(env, account_id, *actor, confirmed)]
            {
                &&& role_answer(env, account_id, *actor, confirmed)
                &&& answers(
                    res,
                    thread_archival_guard(
                        old(forum)@,
                        confirmed,
                        *actor,
                        category_id,
                        thread_id,
                        new_archival_status,
                    ),
                    EventView::ThreadUpdated(thread_id, new_archival_status),
                )
                &&& final(forum)@ == thread_archival_next(
                    old(forum)@,
                    confirmed,
                    *actor,
                    category_id,
                    thread_id,
                    new_archival_status,
                )
            },
{
    let confirmed = ensure_actor_role(env, account_id, actor).is_ok();
    forum.update_thread_archival_status(
        confirmed,
        actor,
        category_id,
        thread_id,
        new_archival_status,
    )
}

/// Deletes a thread, for the account if it carries the actor's role.
pub fn delete_thread<T: Trait>(
    forum: &mut Module,
    env: &T,
    account_id: &T::AccountId,
    actor: &PrivilegedActor,
    category_id: CategoryId,
    thread_id: ThreadId,
) -> (res: Result<Event, Error>)
    requires
        old(forum).wf(),
    ensures
        final(forum).wf(),
        final(forum).config() == old(forum).config(),
        exists|confirmed: bool|
            #![trigger role_answer(env, account_id, *actor, confirmed)]
            {
                &&& role_answer(env, account_id, *actor, confirmed)
                &&& answers(
                    res,
                    moderate_thread_guard(old(forum)@, confirmed, *actor, category_id, thread_id),
                    EventView::ThreadDeleted(thread_id),
                )
                &&& final(forum)@ == moderate_thread_next(
                    old(forum)@,
                    confirmed,
                    *actor,
                    category_id,
                    thread_id,
                )
            },
{
    let confirmed = ensure_actor_role(env, account_id, actor).is_ok();
    forum.delete_thread(confirmed, actor, category_id, thread_id)
}

/// Moves a thread to another category, for the account if it carries the
/// actor's role.
pub fn move_thread_to_category<T: Trait>(
    forum: &mut Module,
    env: &T,
    account_id: &T::AccountId,
    actor: &PrivilegedActor,
    category_id: CategoryId,
    thread_id: ThreadId,
    new_category_id: CategoryId,
) -> (res: Result<Event, Error>)
    requires
        old(forum).wf(),
    ensures
        final(forum).wf(),
        final(forum).config() == old(forum).config(),
        exists|confirmed: bool|
            #![trigger role_answer(env, account_id, *actor, confirmed)]
            {
                &&& role_answer(env, account_id, *actor, confirmed)
                &&& answers(
                    res,
                    move_thread_guard(
                        old(forum)@,
                        old(forum).config(),
                        confirmed,
                        *actor,
                        category_id,
                        thread_id,
                        new_category_id,
                    ),
                    EventView::ThreadMoved(thread_id, new_category_id),
                )
                &&& final(forum)@ == move_thread_next(
                    old(forum)@,
                    old(forum).config(),
                    confirmed,
                    *actor,
                    category_id,
                    thread_id,
                    new_category_id,
                )
            },
{
    let confirmed = ensure_actor_role(env, account_id, actor).is_ok();
    forum.move_thread_to_category(confirmed, actor, category_id, thread_id, new_category_id)
}

/// Casts a vote in a thread's poll at the present time, for the account if
/// the forum user id is its own.
pub fn vote_on_poll<T: Trait>(
    forum: &mut Module,
    env: &T,
    account_id: &T::AccountId,
    forum_user_id: ForumUserId,
    category_id: CategoryId,
    thread_id: ThreadId,
    index: u32,
) -> (res: Result<Event, Error>)
    requires
        old(forum).wf(),
        forall|now: Moment|
            #[trigger] vote_guard(old(forum)@, true, category_id, thread_id, index, now)
                is None ==> old(forum)@.votes_for(category_id, thread_id, index) < u32::MAX,
    ensures
        final(forum).wf(),
        final(forum).config() == old(forum).config(),
        exists|is_member: bool, now: Moment|
            #![trigger
                member_answer(env, account_id, forum_user_id, is_member),
                clock_answer(env, now)
            ]
            {
                &&& member_answer(env, account_id, forum_user_id, is_member)
                &&& clock_answer(env, now)
                &&& answers(
                    res,
                    vote_guard(old(forum)@, is_member, category_id, thread_id, index, now),
                    EventView::VoteOnPoll(thread_id, index),
                )
                &&& final(forum)@ == vote_next(
                    old(forum)@,
                    is_member,
                    category_id,
                    thread_id,
                    index,
                    now,
                )
            },
{
    let is_member = ensure_is_forum_user(env, account_id, &forum_user_id).is_ok();
    let now = env.now();
    proof {
        assert(clock_answer(env, now));
    }
    forum.vote_on_poll(is_member, category_id, thread_id, index, now)
}

/// Removes a thread by moderation, for the account if it carries the
/// actor's role.
pub fn moderate_thread<T: Trait>(
    forum: &mut Module,
    env: &T,
    account_id: &T::AccountId,
    actor: &PrivilegedActor,
    category_id: CategoryId,
    thread_id: ThreadId,
    rationale: Vec<u8>,
) -> (res: Result<Event, Error>)
    requires
        old(forum).wf(),
    ensures
        final(forum).wf(),
        final(forum).config() == old(forum).config(),
        exists|confirmed: bool|
            #![trigger role_answer(env, account_id, *actor, confirmed)]
            {
                &&& role_answer(env, account_id, *actor, confirmed)
                &&& answers(
                    res,
                    moderate_thread_guard(old(forum)@, confirmed, *actor, category_id, thread_id),
                    EventView::ThreadModerated(thread_id, rationale@),
                )
                &&& final(forum)@ == moderate_thread_next(
                    old(forum)@,
                    confirmed,
                    *actor,
                    category_id,
                    thread_id,
                )
            },
{
    let confirmed = ensure_actor_role(env, account_id, actor).is_ok();
    forum.moderate_thread(confirmed, actor, category_id, thread_id, rationale)
}

/// Adds a post with the given text, for the account if the forum user id is
/// its own.
pub fn add_post<T: Trait>(
    forum: &mut Module,
    env: &T,
    account_id: &T::AccountId,
    forum_user_id: ForumUserId,
    category_id: CategoryId,
    thread_id: ThreadId,
    text: &[u8],
) -> (res: Result<Event, Error>)
    requires
        old(forum).wf(),
        add_post_guard(old(forum)@, old(forum).config(), true, category_id, thread_id)
            is None ==> old(forum)@.next_post_id < u64::MAX,
    ensures
        final(forum).wf(),
        final(forum).config() == old(forum).config(),
        exists|is_member: bool, text_hash: ContentHash|
            #![trigger
                member_answer(env, account_id, forum_user_id, is_member),
                hash_answer(env, text, text_hash)
            ]
            {
                &&& member_answer(env, account_id, forum_user_id, is_member)
                &&& hash_answer(env, text, text_hash)
                &&& answers(
                    res,
                    add_post_guard(
                        old(forum)@,
                        old(forum).config(),
                        is_member,
                        category_id,
                        thread_id,
                    ),
                    EventView::PostAdded(old(forum)@.next_post_id),
                )
                &&& final(forum)@ == add_post_next(
                    old(forum)@,
                    old(forum).config(),
                    is_member,
                    category_id,
                    thread_id,
                    text_hash,
                    forum_user_id,
                )
            },
{
    let is_member = ensure_is_forum_user(env, account_id, &forum_user_id).is_ok();
    let text_hash = env.calculate_hash(text);
    proof {
        assert(hash_answer(env, text, text_hash));
    }
    forum.add_post(is_member, forum_user_id, category_id, thread_id, text_hash)
}

/// Passes on a reaction to a post, for the account if the forum user id is
/// its own.
pub fn react_post<T: Trait>(
    forum: &Module,
    env: &T,
    account_id: &T::AccountId,
    forum_user_id: ForumUserId,
    category_id: CategoryId,
    thread_id: ThreadId,
    post_id: PostId,
    react: PostReactionId,
) -> (res: Result<Event, Error>)
    requires
        forum.wf(),
    ensures
        exists|is_member: bool|
            #![trigger member_answer(env, account_id, forum_user_id, is_member)]
            {
                &&& member_answer(env, account_id, forum_user_id, is_member)
                &&& answers(
                    res,
                    react_guard(forum@, is_member, category_id, thread_id, post_id),
                    EventView::PostReacted(forum_user_id, post_id, react),
                )
            },
{
    let is_member = ensure_is_forum_user(env, account_id, &forum_user_id).is_ok();
    forum.react_post(is_member, forum_user_id, category_id, thread_id, post_id, react)
}

/// Changes a post's text, for the account if the forum user id is its own.
pub fn edit_post_text<T: Trait>(
    forum: &mut Module,
    env: &T,
    account_id: &T::AccountId,
    forum_user_id: ForumUserId,
    category_id: CategoryId,
    thread_id: ThreadId,
    post_id: PostId,
    new_text: &[u8],
) -> (res: Result<Event, Error>)
    requires
        old(forum).wf(),
    ensures
        final(forum).wf(),
        final(forum).config() == old(forum).config(),
        exists|is_member: bool, text_hash: ContentHash|
            #![trigger
                member_answer(env, account_id, forum_user_id, is_member),
                hash_answer(env, new_text, text_hash)
            ]
            {
                &&& member_answer(env, account_id, forum_user_id, is_member)
                &&& hash_answer(env, new_text, text_hash)
                &&& answers(
                    res,
                    edit_post_guard(
                        old(forum)@,
                        is_member,
                        forum_user_id,
                        category_id,
                        thread_id,
                        post_id,
                    ),
                    EventView::PostTextUpdated(post_id),
                )
                &&& final(forum)@ == edit_post_next(
                    old(forum)@,
                    is_member,
                    forum_user_id,
                    category_id,
                    thread_id,
                    post_id,
                    text_hash,
                )
            },
{
    let is_member = ensure_is_forum_user(env, account_id, &forum_user_id).is_ok();
    let text_hash = env.calculate_hash(new_text);
    proof {
        assert(hash_answer(env, new_text, text_hash));
    }
    forum.edit_post_text(is_member, forum_user_id, category_id, thread_id, post_id, text_hash)
}

/// Removes a post by moderation, for the account if it carries the actor's
/// role.
pub fn moderate_post<T: Trait>(
    forum: &mut Module,
    env: &T,
    account_id: &T::AccountId,
    actor: &PrivilegedActor,
    category_id: CategoryId,
    thread_id: ThreadId,
    post_id: PostId,
    rationale: Vec<u8>,
) -> (res: Result<Event, Error>)
    requires
        old(forum).wf(),
    ensures
        final(forum).wf(),
        final(forum).config() == old(forum).config(),
        exists|confirmed: bool|
            #![trigger role_answer(env, account_id, *actor, confirmed)]
            {
                &&& role_answer(env, account_id, *actor, confirmed)
                &&& answers(
                    res,
                    moderate_post_guard(
                        old(forum)@,
                        confirmed,
                        *actor,
                        category_id,
                        thread_id,
                        post_id,
                    ),
                    EventView::PostModerated(post_id, rationale@),
                )
                &&& final(forum)@ == moderate_post_next(
                    old(forum)@,
                    confirmed,
                    *actor,
                    category_id,
                    thread_id,
                    post_id,
                )
            },
{
    let confirmed = ensure_actor_role(env, account_id, actor).is_ok();
    forum.moderate_post(confirmed, actor, category_id, thread_id, post_id, rationale)
}

/// Sets the sticky threads of a category, for the account if it carries the
/// actor's role.
pub fn set_stickied_threads<T: Trait>(
    forum: &mut Module,
    env: &T,
    account_id: &T::AccountId,
    actor: &PrivilegedActor,
    category_id: CategoryId,
    stickied_ids: Vec<ThreadId>,
) -> (res: Result<Event, Error>)
    requires
        old(forum).wf(),
    ensures
        final(forum).wf(),
        final(forum).config() == old(forum).config(),
        exists|confirmed: bool|
            #![trigger role_answer(env, account_id, *actor, confirmed)]
            {
                &&& role_answer(env, account_id, *actor, confirmed)
                &&& answers(
                    res,
                    stickied_guard(old(forum)@, confirmed, *actor, category_id, stickied_ids@),
                    EventView::CategoryStickyThreadUpdate(category_id, stickied_ids@),
                )
                &&& final(forum)@ == stickied_next(
                    old(forum)@,
                    confirmed,
                    *actor,
                    category_id,
                    stickied_ids@,
                )
            },
{
    let confirmed = ensure_actor_role(env, account_id, actor).is_ok();
    forum.set_stickied_threads(confirmed, actor, category_id, stickied_ids)
}

} // verus!
