//! Operations on threads and on the polls they carry.

use crate::categories::ensure_map_limits;
use crate::events::{answers, Event, EventView};
use crate::module::Module;
use crate::permission::ensure_actor_role;
use crate::preserve::{
    lemma_edit_title_wf, lemma_move_thread_wf, lemma_new_thread_wf, lemma_thread_archival_wf,
    lemma_vote_wf, lemma_without_thread_wf,
};
use crate::rules::{
    create_thread_guard, create_thread_next, edit_title_guard, edit_title_next,
    moderate_thread_guard, moderate_thread_next, move_thread_guard, move_thread_next,
    new_thread_guard, new_thread_next, poll_guard, poll_with_vote, thread_archival_guard,
    thread_archival_next, thread_moderation_guard, thread_room_guard, vote_guard, vote_next,
    without_thread,
};
use crate::types::{
    Category, CategoryId, ContentHash, Error, ForumUserId, InputValidationLengthConstraint, Moment,
    Poll, PollAlternative, PollView, Post, PrivilegedActor, Thread, ThreadId,
};
use vstd::prelude::*;

verus! {

/// The view of a poll that may be absent.
pub open spec fn poll_view(poll: Option<Poll>) -> Option<PollView> {
    match poll {
        Some(p) => Some(p@),
        None => None,
    }
}

/// Tells whether a poll may have the given number of alternatives.
pub fn ensure_poll_alternatives_length_is_valid(
    constraint: &InputValidationLengthConstraint,
    len: usize,
) -> (res: Result<(), Error>)
    ensures
        res == constraint.verdict(
            len,
            Error::PollAlternativesTooShort,
            Error::PollAlternativesTooLong,
        ),
{
    constraint.ensure_valid(len, Error::PollAlternativesTooShort, Error::PollAlternativesTooLong)
}

/// Tells whether the alternatives are as many as a poll may have.
pub fn ensure_poll_alternatives_valid(
    constraint: &InputValidationLengthConstraint,
    alternatives: &Vec<PollAlternative>,
) -> (res: Result<(), Error>)
    ensures
        res == constraint.verdict(
            alternatives@.len() as usize,
            Error::PollAlternativesTooShort,
            Error::PollAlternativesTooLong,
        ),
{
    let len: usize = alternatives.len();
    ensure_poll_alternatives_length_is_valid(constraint, len)
}

/// Tells whether the poll ends no earlier than the moment `now`.
pub fn ensure_poll_is_valid(poll: &Poll, now: Moment) -> (res: Result<(), Error>)
    ensures
        res == if poll.end_time < now {
            Err::<(), Error>(Error::PollTimeSetting)
        } else {
            Ok(())
        },
{
    if poll.end_time < now {
        return Err(Error::PollTimeSetting);
    }
    Ok(())
}

/// Tells whether a vote for alternative `index` of the thread's poll counts
/// at the moment `now`: the thread has to carry a poll that has not ended,
/// and the poll has to have that alternative.
pub fn ensure_vote_is_valid(thread: &Thread, index: u32, now: Moment) -> (res: Result<
    &Poll,
    Error,
>)
    ensures
        match res {
            Ok(poll) => thread.poll == Some(*poll) && poll.end_time >= now && index
                < poll.poll_alternatives@.len(),
            Err(e) => e == match thread.poll {
                None => Error::PollNotExist,
                Some(p) => if p.end_time < now {
                    Error::PollCommitExpired
                } else {
                    Error::PollData
                },
            } && match thread.poll {
                None => true,
                Some(p) => p.end_time < now || index >= p.poll_alternatives@.len(),
            },
        },
{
    let poll = match &thread.poll {
        Some(poll) => poll,
        None => {
            return Err(Error::PollNotExist);
        },
    };
    if poll.end_time < now {
        Err(Error::PollCommitExpired)
    } else {
        let alternative_length: usize = poll.poll_alternatives.len();
        if index as usize >= alternative_length {
            Err(Error::PollData)
        } else {
            Ok(poll)
        }
    }
}

impl Module {
    /// Tells whether the poll, if there is one, may be attached to a new
    /// thread at the moment `now`.
    pub fn ensure_poll_fits(&self, poll: &Option<Poll>, now: Moment) -> (res: Result<(), Error>)
        ensures
            res == match poll_guard(self.config(), poll_view(*poll), now) {
                Some(e) => Err::<(), Error>(e),
                None => Ok(()),
            },
    {
        if let Some(data) = poll {
            let constraint = self.configuration().poll_items_constraint;
            if let Err(e) = ensure_poll_alternatives_valid(&constraint, &data.poll_alternatives) {
                return Err(e);
            }
            return ensure_poll_is_valid(data, now);
        }
        Ok(())
    }

    /// Adds a thread to the category, with its first post, and answers with
    /// the thread's id and the thread. The category has to exist with
    /// nothing archived on the way up and with room for one more thread; a
    /// poll has to have an accepted number of alternatives and may not end
    /// before `now`. Who the author is, is not looked at.
    pub fn add_new_thread(
        &mut self,
        category_id: CategoryId,
        author_id: ForumUserId,
        title_hash: ContentHash,
        text_hash: ContentHash,
        poll: &Option<Poll>,
        now: Moment,
    ) -> (res: Result<(ThreadId, Thread), Error>)
        requires
            old(self).wf(),
            new_thread_guard(
                old(self)@,
                old(self).config(),
                category_id,
                poll_view(*poll),
                now,
            ) is None ==> old(self)@.next_thread_id < u64::MAX && old(self)@.next_post_id
                < u64::MAX,
        ensures
            final(self).wf(),
            final(self).config() == old(self).config(),
            match res {
                Ok((id, thread)) => {
                    &&& new_thread_guard(
                        old(self)@,
                        old(self).config(),
                        category_id,
                        poll_view(*poll),
                        now,
                    ) is None
                    &&& id == old(self)@.next_thread_id
                    &&& thread@ == final(self)@.threads[(category_id, id)]
                },
                Err(e) => new_thread_guard(
                    old(self)@,
                    old(self).config(),
                    category_id,
                    poll_view(*poll),
                    now,
                ) == Some(e),
            },
            final(self)@ == new_thread_next(
                old(self)@,
                old(self).config(),
                category_id,
                author_id,
                title_hash,
                text_hash,
                poll_view(*poll),
                now,
            ),
    {
        let mut category = match self.ensure_category_is_mutable(category_id) {
            Ok(category) => category,
            Err(e) => {
                return Err(e);
            },
        };
        let limits = self.configuration().limits;
        if let Err(e) = ensure_map_limits(
            category.num_direct_threads as u64,
            limits.max_threads_in_category,
        ) {
            return Err(e);
        }
        if let Err(e) = self.ensure_poll_fits(poll, now) {
            return Err(e);
        }
        if let Err(e) = ensure_map_limits(0, limits.max_posts_in_thread) {
            return Err(e);
        }
        proof {
            lemma_new_thread_wf(
                self@,
                self.config(),
                category_id,
                author_id,
                title_hash,
                text_hash,
                poll_view(*poll),
                now,
            );
        }
        let new_thread_id: ThreadId = self.take_thread_id();
        let new_post_id: u64 = self.take_post_id();
        let new_thread = Thread {
            title_hash,
            category_id,
            author_id,
            archived: false,
            poll: match poll {
                Some(p) => Some(p.clone()),
                None => None,
            },
            num_direct_posts: 1,
        };
        self.put_thread(category_id, new_thread_id, new_thread.clone());
        self.put_post(
            new_thread_id,
            new_post_id,
            Post { thread_id: new_thread_id, text_hash, author_id },
        );
        category.num_direct_threads = category.num_direct_threads + 1;
        self.put_category(category_id, category);
        Ok((new_thread_id, new_thread))
    }

    /// Tells whether a member may open a thread in the category, and answers
    /// with the category.
    pub fn ensure_can_create_thread(&self, is_member: bool, category_id: CategoryId) -> (res:
        Result<Category, Error>)
        requires
            self.wf(),
        ensures
            match res {
                Ok(category) => {
                    &&& is_member
                    &&& thread_room_guard(self@, self.config(), category_id) is None
                    &&& category@ == self@.categories[category_id]
                },
                Err(e) => Some(e) == if !is_member {
                    Some(Error::ForumUserIdNotMatchAccount)
                } else {
                    thread_room_guard(self@, self.config(), category_id)
                },
            },
    {
        if !is_member {
            return Err(Error::ForumUserIdNotMatchAccount);
        }
        let category = match self.ensure_category_is_mutable(category_id) {
            Ok(category) => category,
            Err(e) => {
                return Err(e);
            },
        };
        let limit: u64 = self.configuration().limits.max_threads_in_category;
        if let Err(e) = ensure_map_limits(category.num_direct_threads as u64, limit) {
            return Err(e);
        }
        Ok(category)
    }

    /// Opens a thread in the category for the member, with its first post
    /// and, if given, a poll, and answers with the thread's id.
    pub fn create_thread(
        &mut self,
        is_member: bool,
        forum_user_id: ForumUserId,
        category_id: CategoryId,
        title_hash: ContentHash,
        text_hash: ContentHash,
        poll: Option<Poll>,
        now: Moment,
    ) -> (res: Result<Event, Error>)
        requires
            old(self).wf(),
            create_thread_guard(
                old(self)@,
                old(self).config(),
                is_member,
                category_id,
                poll_view(poll),
                now,
            ) is None ==> old(self)@.next_thread_id < u64::MAX && old(self)@.next_post_id
                < u64::MAX,
        ensures
            final(self).wf(),
            final(self).config() == old(self).config(),
            answers(res, create_thread_guard(
                old(self)@,
                old(self).config(),
                is_member,
                category_id,
                poll_view(poll),
                now,
            ), EventView::ThreadCreated(old(self)@.next_thread_id)),
            final(self)@ == create_thread_next(
                old(self)@,
                old(self).config(),
                is_member,
                category_id,
                forum_user_id,
                title_hash,
                text_hash,
                poll_view(poll),
                now,
            ),
    {
        if let Err(e) = self.ensure_can_create_thread(is_member, category_id) {
            return Err(e);
        }
        match self.add_new_thread(category_id, forum_user_id, title_hash, text_hash, &poll, now) {
            Ok((thread_id, _)) => Ok(Event::ThreadCreated(thread_id)),
            Err(e) => Err(e),
        }
    }

    /// Finds the thread, tells whether it may be changed and whether the
    /// user is its author.
    pub fn ensure_is_thread_author(
        &self,
        category_id: CategoryId,
        thread_id: ThreadId,
        forum_user_id: ForumUserId,
    ) -> (res: Result<&Thread, Error>)
        requires
            self.wf(),
        ensures
            match res {
                Ok(thread) => edit_title_guard(self@, true, forum_user_id, category_id, thread_id)
                    is None && thread@ == self@.threads[(category_id, thread_id)],
                Err(e) => edit_title_guard(self@, true, forum_user_id, category_id, thread_id)
                    == Some(e),
            },
    {
        let (_, thread) = match self.ensure_thread_is_mutable(category_id, thread_id) {
            Ok(found) => found,
            Err(e) => {
                return Err(e);
            },
        };
        if thread.author_id != forum_user_id {
            return Err(Error::AccountDoesNotMatchThreadAuthor);
        }
        Ok(thread)
    }

    /// Tells whether the member may change the thread's title.
    pub fn ensure_can_edit_thread_title(
        &self,
        is_member: bool,
        category_id: CategoryId,
        thread_id: ThreadId,
        forum_user_id: ForumUserId,
    ) -> (res: Result<&Thread, Error>)
        requires
            self.wf(),
        ensures
            match res {
                Ok(thread) => edit_title_guard(
                    self@,
                    is_member,
                    forum_user_id,
                    category_id,
                    thread_id,
                ) is None && thread@ == self@.threads[(category_id, thread_id)],
                Err(e) => edit_title_guard(self@, is_member, forum_user_id, category_id, thread_id)
                    == Some(e),
            },
    {
        if !is_member {
            return Err(Error::ForumUserIdNotMatchAccount);
        }
        self.ensure_is_thread_author(category_id, thread_id, forum_user_id)
    }

    /// Changes the title of a thread. Only its author may, and only while
    /// neither the thread nor a category above it is archived.
    pub fn edit_thread_title(
        &mut self,
        is_member: bool,
        forum_user_id: ForumUserId,
        category_id: CategoryId,
        thread_id: ThreadId,
        new_title_hash: ContentHash,
    ) -> (res: Result<Event, Error>)
        requires
            old(self).wf(),
        ensures
            final(self).wf(),
            final(self).config() == old(self).config(),
            answers(res, edit_title_guard(
                old(self)@,
                is_member,
                forum_user_id,
                category_id,
                thread_id,
            ), EventView::ThreadTitleUpdated(thread_id)),
            final(self)@ == edit_title_next(
                old(self)@,
                is_member,
                forum_user_id,
                category_id,
                thread_id,
                new_title_hash,
            ),
    {
        let mut thread = match self.ensure_can_edit_thread_title(
            is_member,
            category_id,
            thread_id,
            forum_user_id,
        ) {
            Ok(thread) => thread.clone(),
            Err(e) => {
                return Err(e);
            },
        };
        proof {
            lemma_edit_title_wf(
                self@,
                self.config(),
                is_member,
                forum_user_id,
                category_id,
                thread_id,
                new_title_hash,
            );
        }
        thread.title_hash = new_title_hash;
        self.put_thread(category_id, thread_id, thread);
        Ok(Event::ThreadTitleUpdated(thread_id))
    }

    /// Tells whether the actor may set the archival status of the thread,
    /// and answers with the thread's category and the thread.
    pub fn ensure_can_update_thread_archival_status(
        &self,
        role_confirmed: bool,
        actor: &PrivilegedActor,
        category_id: CategoryId,
        thread_id: ThreadId,
    ) -> (res: Result<(Category, &Thread), Error>)
        requires
            self.wf(),
        ensures
            match res {
                Ok((category, thread)) => {
                    &&& thread_moderation_guard(
                        self@,
                        role_confirmed,
                        *actor,
                        category_id,
                        thread_id,
                    ) is None
                    &&& category@ == self@.categories[category_id]
                    &&& thread@ == self@.threads[(category_id, thread_id)]
                },
                Err(e) => thread_moderation_guard(
                    self@,
                    role_confirmed,
                    *actor,
                    category_id,
                    thread_id,
                ) == Some(e),
            },
    {
        if let Err(e) = ensure_actor_role(role_confirmed, actor) {
            return Err(e);
        }
        let (category, thread) = match self.ensure_thread_is_mutable(category_id, thread_id) {
            Ok(found) => found,
            Err(e) => {
                return Err(e);
            },
        };
        match self.ensure_can_moderate_category_path(actor, category_id) {
            Ok(_) => Ok((category, thread)),
            Err(e) => Err(e),
        }
    }

    /// Archives the thread. The lead may, and a moderator assigned to the
    /// thread's category or above it. An archived thread cannot be changed
    /// any more, its archival status included; asking to leave an unarchived
    /// thread unarchived is an error too.
    pub fn update_thread_archival_status(
        &mut self,
        role_confirmed: bool,
        actor: &PrivilegedActor,
        category_id: CategoryId,
        thread_id: ThreadId,
        new_archival_status: bool,
    ) -> (res: Result<Event, Error>)
        requires
            old(self).wf(),
        ensures
            final(self).wf(),
            final(self).config() == old(self).config(),
            answers(
                res,
                thread_archival_guard(
                    old(self)@,
                    role_confirmed,
                    *actor,
                    category_id,
                    thread_id,
                    new_archival_status,
                ),
                EventView::ThreadUpdated(thread_id, new_archival_status),
            ),
            final(self)@ == thread_archival_next(
                old(self)@,
                role_confirmed,
                *actor,
                category_id,
                thread_id,
                new_archival_status,
            ),
    {
        let mut thread = match self.ensure_can_update_thread_archival_status(
            role_confirmed,
            actor,
            category_id,
            thread_id,
        ) {
            Ok((_, thread)) => thread.clone(),
            Err(e) => {
                return Err(e);
            },
        };
        if new_archival_status == thread.archived {
            return Err(Error::ThreadNotBeingUpdated);
        }
        proof {
            lemma_thread_archival_wf(
                self@,
                self.config(),
                role_confirmed,
                *actor,
                category_id,
                thread_id,
                new_archival_status,
            );
        }
        thread.archived = new_archival_status;
        self.put_thread(category_id, thread_id, thread);
        Ok(Event::ThreadUpdated(thread_id, new_archival_status))
    }

    /// Tells whether the actor may remove or move the thread: the actor has
    /// to be allowed to moderate in the category, and neither the thread nor
    /// a category above it may be archived.
    pub fn ensure_can_moderate_thread(
        &self,
        role_confirmed: bool,
        actor: &PrivilegedActor,
        category_id: CategoryId,
        thread_id: ThreadId,
    ) -> (res: Result<&Thread, Error>)
        requires
            self.wf(),
        ensures
            match res {
                Ok(thread) => moderate_thread_guard(
                    self@,
                    role_confirmed,
                    *actor,
                    category_id,
                    thread_id,
                ) is None && thread@ == self@.threads[(category_id, thread_id)],
                Err(e) => moderate_thread_guard(
                    self@,
                    role_confirmed,
                    *actor,
                    category_id,
                    thread_id,
                ) == Some(e),
            },
    {
        if let Err(e) = self.ensure_can_moderate_category(role_confirmed, actor, category_id) {
            return Err(e);
        }
        match self.ensure_thread_is_mutable(category_id, thread_id) {
            Ok((_, thread)) => Ok(thread),
            Err(e) => Err(e),
        }
    }

    /// Removes the thread and every post of it, and lowers the category's
    /// count of threads.
    pub(crate) fn delete_thread_inner(&mut self, category_id: CategoryId, thread_id: ThreadId)
        requires
            old(self).wf(),
            old(self)@.threads.contains_key((category_id, thread_id)),
        ensures
            final(self).wf(),
            final(self).config() == old(self).config(),
            final(self)@ == without_thread(old(self)@, category_id, thread_id),
    {
        proof {
            lemma_without_thread_wf(self@, self.config(), category_id, thread_id);
        }
        let mut category = match self.category_by_id(category_id) {
            Some(category) => category.clone(),
            None => {
                return ;
            },
        };
        self.remove_thread(category_id, thread_id);
        self.remove_posts_of(thread_id);
        category.num_direct_threads = category.num_direct_threads - 1;
        self.put_category(category_id, category);
    }

    /// Deletes the thread with all its posts. The lead may, and a moderator
    /// assigned to the thread's category or above it, while neither the
    /// thread nor a category above it is archived.
    pub fn delete_thread(
        &mut self,
        role_confirmed: bool,
        actor: &PrivilegedActor,
        category_id: CategoryId,
        thread_id: ThreadId,
    ) -> (res: Result<Event, Error>)
        requires
            old(self).wf(),
        ensures
            final(self).wf(),
            final(self).config() == old(self).config(),
            answers(res, moderate_thread_guard(
                old(self)@,
                role_confirmed,
                *actor,
                category_id,
                thread_id,
            ), EventView::ThreadDeleted(thread_id)),
            final(self)@ == moderate_thread_next(
                old(self)@,
                role_confirmed,
                *actor,
                category_id,
                thread_id,
            ),
    {
        if let Err(e) = self.ensure_can_moderate_thread(
            role_confirmed,
            actor,
            category_id,
            thread_id,
        ) {
            return Err(e);
        }
        self.delete_thread_inner(category_id, thread_id);
        Ok(Event::ThreadDeleted(thread_id))
    }

    /// Removes the thread with all its posts as an act of moderation. What
    /// it takes and what it does are those of `delete_thread`.
    pub fn moderate_thread(
        &mut self,
        role_confirmed: bool,
        actor: &PrivilegedActor,
        category_id: CategoryId,
        thread_id: ThreadId,
        rationale: Vec<u8>,
    ) -> (res: Result<Event, Error>)
        requires
            old(self).wf(),
        ensures
            final(self).wf(),
            final(self).config() == old(self).config(),
            answers(res, moderate_thread_guard(
                old(self)@,
                role_confirmed,
                *actor,
                category_id,
                thread_id,
            ), EventView::ThreadModerated(thread_id, rationale@)),
            final(self)@ == moderate_thread_next(
                old(self)@,
                role_confirmed,
                *actor,
                category_id,
                thread_id,
            ),
    {
        if let Err(e) = self.ensure_can_moderate_thread(
            role_confirmed,
            actor,
            category_id,
            thread_id,
        ) {
            return Err(e);
        }
        self.delete_thread_inner(category_id, thread_id);
        Ok(Event::ThreadModerated(thread_id, rationale))
    }

    /// Tells whether the actor may move the thread to the other category.
    pub fn ensure_can_move_thread(
        &self,
        role_confirmed: bool,
        actor: &PrivilegedActor,
        category_id: CategoryId,
        thread_id: ThreadId,
        new_category_id: CategoryId,
    ) -> (res: Result<&Thread, Error>)
        requires
            self.wf(),
        ensures
            match res {
                Ok(thread) => move_thread_guard(
                    self@,
                    self.config(),
                    role_confirmed,
                    *actor,
                    category_id,
                    thread_id,
                    new_category_id,
                ) is None && thread@ == self@.threads[(category_id, thread_id)],
                Err(e) => move_thread_guard(
                    self@,
                    self.config(),
                    role_confirmed,
                    *actor,
                    category_id,
                    thread_id,
                    new_category_id,
                ) == Some(e),
            },
    {
        if category_id == new_category_id {
            return Err(Error::ThreadMoveInvalid);
        }
        if let Err(e) = self.ensure_can_moderate_category(role_confirmed, actor, category_id) {
            return match e {
                Error::CategoryDoesNotExist => Err(e),
                _ => Err(Error::ModeratorModerateOriginCategory),
            };
        }
        let thread = match self.ensure_thread_is_mutable(category_id, thread_id) {
            Ok((_, thread)) => thread,
            Err(e) => {
                return Err(e);
            },
        };
        let destination = match self.ensure_can_moderate_category_path(actor, new_category_id) {
            Ok(category) => category,
            Err(e) => {
                return match e {
                    Error::CategoryDoesNotExist => Err(e),
                    _ => Err(Error::ModeratorModerateDestinationCategory),
                };
            },
        };
        let limit: u64 = self.configuration().limits.max_threads_in_category;
        if let Err(e) = ensure_map_limits(destination.num_direct_threads as u64, limit) {
            return Err(e);
        }
        Ok(thread)
    }

    /// Moves the thread to another category. The actor has to be allowed to
    /// moderate both, and neither the thread nor a category above it may be
    /// archived; a move to where the thread already is fails whoever asks.
    pub fn move_thread_to_category(
        &mut self,
        role_confirmed: bool,
        actor: &PrivilegedActor,
        category_id: CategoryId,
        thread_id: ThreadId,
        new_category_id: CategoryId,
    ) -> (res: Result<Event, Error>)
        requires
            old(self).wf(),
        ensures
            final(self).wf(),
            final(self).config() == old(self).config(),
            answers(res, move_thread_guard(
                old(self)@,
                old(self).config(),
                role_confirmed,
                *actor,
                category_id,
                thread_id,
                new_category_id,
            ), EventView::ThreadMoved(thread_id, new_category_id)),
            final(self)@ == move_thread_next(
                old(self)@,
                old(self).config(),
                role_confirmed,
                *actor,
                category_id,
                thread_id,
                new_category_id,
            ),
    {
        let mut thread = match self.ensure_can_move_thread(
            role_confirmed,
            actor,
            category_id,
            thread_id,
            new_category_id,
        ) {
            Ok(thread) => thread.clone(),
            Err(e) => {
                return Err(e);
            },
        };
        proof {
            lemma_move_thread_wf(
                self@,
                self.config(),
                role_confirmed,
                *actor,
                category_id,
                thread_id,
                new_category_id,
            );
        }
        let mut origin = match self.category_by_id(category_id) {
            Some(category) => category.clone(),
            None => {
                return Ok(Event::ThreadMoved(thread_id, new_category_id));
            },
        };
        let mut destination = match self.category_by_id(new_category_id) {
            Some(category) => category.clone(),
            None => {
                return Ok(Event::ThreadMoved(thread_id, new_category_id));
            },
        };
        thread.category_id = new_category_id;
        self.remove_thread(category_id, thread_id);
        self.put_thread(new_category_id, thread_id, thread);
        origin.num_direct_threads = origin.num_direct_threads - 1;
        self.put_category(category_id, origin);
        destination.num_direct_threads = destination.num_direct_threads + 1;
        self.put_category(new_category_id, destination);
        Ok(Event::ThreadMoved(thread_id, new_category_id))
    }

    /// Casts a vote for alternative `index` of the thread's poll at the
    /// moment `now`. Votes are not told apart by voter: every accepted vote
    /// adds one to the alternative's count and leaves the others alone.
    pub fn vote_on_poll(
        &mut self,
        is_member: bool,
        category_id: CategoryId,
        thread_id: ThreadId,
        index: u32,
        now: Moment,
    ) -> (res: Result<Event, Error>)
        requires
            old(self).wf(),
            vote_guard(old(self)@, is_member, category_id, thread_id, index, now) is None ==> old(
                self,
            )@.votes_for(category_id, thread_id, index) < u32::MAX,
        ensures
            final(self).wf(),
            final(self).config() == old(self).config(),
            answers(
                res,
                vote_guard(old(self)@, is_member, category_id, thread_id, index, now),
                EventView::VoteOnPoll(thread_id, index),
            ),
            final(self)@ == vote_next(old(self)@, is_member, category_id, thread_id, index, now),
    {
        if !is_member {
            return Err(Error::ForumUserIdNotMatchAccount);
        }
        let (_, thread) = match self.ensure_thread_is_mutable(category_id, thread_id) {
            Ok(found) => found,
            Err(e) => {
                return Err(e);
            },
        };
        let poll = match ensure_vote_is_valid(thread, index, now) {
            Ok(poll) => poll,
            Err(e) => {
                return Err(e);
            },
        };
        proof {
            lemma_vote_wf(self@, self.config(), is_member, category_id, thread_id, index, now);
        }
        let mut new_poll = poll.clone();
        let chosen: PollAlternative = new_poll.poll_alternatives[index as usize];
        new_poll.poll_alternatives.set(
            index as usize,
            PollAlternative {
                alternative_text_hash: chosen.alternative_text_hash,
                vote_count: chosen.vote_count + 1,
            },
        );
        let mut new_thread = thread.clone();
        new_thread.poll = Some(new_poll);
        proof {
            assert(new_thread@.poll->0.poll_alternatives =~= poll_with_vote(
                thread@.poll->0,
                index as int,
            ).poll_alternatives);
        }
        self.put_thread(category_id, thread_id, new_thread);
        Ok(Event::VoteOnPoll(thread_id, index))
    }
}

} // verus!
