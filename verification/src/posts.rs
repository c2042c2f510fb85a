//! Operations on posts.

use crate::categories::ensure_map_limits;
use crate::events::{answers, Event, EventView};
use crate::module::Module;
use crate::preserve::{lemma_edit_post_wf, lemma_moderate_post_wf, lemma_new_post_wf};
use crate::rules::{
    add_post_guard, add_post_next, edit_post_guard, edit_post_next, moderate_post_guard,
    moderate_post_next, new_post_guard, new_post_next, react_guard, thread_guard,
};
use crate::state::ForumState;
use crate::types::{
    Category, CategoryId, ContentHash, Error, ForumUserId, Post, PostId, PostReactionId,
    PrivilegedActor, Thread, ThreadId, ThreadView,
};
use vstd::prelude::*;

verus! {

impl Module {
    /// Adds a post to the thread and answers with the post's id and the
    /// post. The thread has to exist, neither it nor a category above it may
    /// be archived, and it has to have room for one more post. Who the author
    /// is, is not looked at.
    pub fn add_new_post(
        &mut self,
        category_id: CategoryId,
        thread_id: ThreadId,
        text_hash: ContentHash,
        author_id: ForumUserId,
    ) -> (res: Result<(PostId, Post), Error>)
        requires
            old(self).wf(),
            new_post_guard(old(self)@, old(self).config(), category_id, thread_id) is None
                ==> old(self)@.next_post_id < u64::MAX,
        ensures
            final(self).wf(),
            final(self).config() == old(self).config(),
            res == match new_post_guard(old(self)@, old(self).config(), category_id, thread_id) {
                Some(e) => Err::<(PostId, Post), Error>(e),
                None => Ok(
                    (
                        old(self)@.next_post_id,
                        Post { thread_id, text_hash, author_id },
                    ),
                ),
            },
            final(self)@ == new_post_next(
                old(self)@,
                old(self).config(),
                category_id,
                thread_id,
                text_hash,
                author_id,
            ),
    {
        let mut thread = match self.ensure_thread_is_mutable(category_id, thread_id) {
            Ok((_, thread)) => thread.clone(),
            Err(e) => {
                return Err(e);
            },
        };
        let limit: u64 = self.configuration().limits.max_posts_in_thread;
        if let Err(e) = ensure_map_limits(thread.num_direct_posts as u64, limit) {
            return Err(e);
        }
        proof {
            lemma_new_post_wf(
                self@,
                self.config(),
                category_id,
                thread_id,
                text_hash,
                author_id,
            );
        }
        let new_post_id: PostId = self.take_post_id();
        let new_post = Post { thread_id, text_hash, author_id };
        self.put_post(thread_id, new_post_id, new_post);
        thread.num_direct_posts = thread.num_direct_posts + 1;
        self.put_thread(category_id, thread_id, thread);
        Ok((new_post_id, new_post))
    }

    /// Tells whether the member may write in the thread, and answers with
    /// the thread's category and the thread.
    pub fn ensure_can_add_post(
        &self,
        is_member: bool,
        category_id: CategoryId,
        thread_id: ThreadId,
    ) -> (res: Result<(Category, &Thread), Error>)
        requires
            self.wf(),
        ensures
            match res {
                Ok((category, thread)) => {
                    &&& is_member
                    &&& thread_guard(self@, category_id, thread_id) is None
                    &&& category@ == self@.categories[category_id]
                    &&& thread@ == self@.threads[(category_id, thread_id)]
                },
                Err(e) => Some(e) == if !is_member {
                    Some(Error::ForumUserIdNotMatchAccount)
                } else {
                    thread_guard(self@, category_id, thread_id)
                },
            },
    {
        if !is_member {
            return Err(Error::ForumUserIdNotMatchAccount);
        }
        self.ensure_thread_is_mutable(category_id, thread_id)
    }

    /// Adds a post by the member to the thread and answers with its id.
    pub fn add_post(
        &mut self,
        is_member: bool,
        forum_user_id: ForumUserId,
        category_id: CategoryId,
        thread_id: ThreadId,
        text_hash: ContentHash,
    ) -> (res: Result<Event, Error>)
        requires
            old(self).wf(),
            add_post_guard(
                old(self)@,
                old(self).config(),
                is_member,
                category_id,
                thread_id,
            ) is None ==> old(self)@.next_post_id < u64::MAX,
        ensures
            final(self).wf(),
            final(self).config() == old(self).config(),
            answers(res, add_post_guard(
                old(self)@,
                old(self).config(),
                is_member,
                category_id,
                thread_id,
            ), EventView::PostAdded(old(self)@.next_post_id)),
            final(self)@ == add_post_next(
                old(self)@,
                old(self).config(),
                is_member,
                category_id,
                thread_id,
                text_hash,
                forum_user_id,
            ),
    {
        if let Err(e) = self.ensure_can_add_post(is_member, category_id, thread_id) {
            return Err(e);
        }
        match self.add_new_post(category_id, thread_id, text_hash, forum_user_id) {
            Ok((post_id, _)) => Ok(Event::PostAdded(post_id)),
            Err(e) => Err(e),
        }
    }

    /// Tells whether the member's reaction to the post is accepted. A
    /// reaction is passed on, not stored: the forum stays as it is.
    pub fn react_post(
        &self,
        is_member: bool,
        forum_user_id: ForumUserId,
        category_id: CategoryId,
        thread_id: ThreadId,
        post_id: PostId,
        react: PostReactionId,
    ) -> (res: Result<Event, Error>)
        requires
            self.wf(),
        ensures
            answers(
                res,
                react_guard(self@, is_member, category_id, thread_id, post_id),
                EventView::PostReacted(forum_user_id, post_id, react),
            ),
    {
        if !is_member {
            return Err(Error::ForumUserIdNotMatchAccount);
        }
        match self.ensure_post_is_mutable(category_id, thread_id, post_id) {
            Ok(_) => Ok(Event::PostReacted(forum_user_id, post_id, react)),
            Err(e) => Err(e),
        }
    }

    /// Changes the text of a post. Only its author may, and only while its
    /// thread may be changed.
    pub fn edit_post_text(
        &mut self,
        is_member: bool,
        forum_user_id: ForumUserId,
        category_id: CategoryId,
        thread_id: ThreadId,
        post_id: PostId,
        new_text_hash: ContentHash,
    ) -> (res: Result<Event, Error>)
        requires
            old(self).wf(),
        ensures
            final(self).wf(),
            final(self).config() == old(self).config(),
            answers(res, edit_post_guard(
                old(self)@,
                is_member,
                forum_user_id,
                category_id,
                thread_id,
                post_id,
            ), EventView::PostTextUpdated(post_id)),
            final(self)@ == edit_post_next(
                old(self)@,
                is_member,
                forum_user_id,
                category_id,
                thread_id,
                post_id,
                new_text_hash,
            ),
    {
        if !is_member {
            return Err(Error::ForumUserIdNotMatchAccount);
        }
        let post = match self.ensure_post_is_mutable(category_id, thread_id, post_id) {
            Ok(post) => post,
            Err(e) => {
                return Err(e);
            },
        };
        if post.author_id != forum_user_id {
            return Err(Error::AccountDoesNotMatchPostAuthor);
        }
        proof {
            lemma_edit_post_wf(
                self@,
                self.config(),
                is_member,
                forum_user_id,
                category_id,
                thread_id,
                post_id,
                new_text_hash,
            );
        }
        self.put_post(
            thread_id,
            post_id,
            Post { thread_id: post.thread_id, text_hash: new_text_hash, author_id: post.author_id },
        );
        Ok(Event::PostTextUpdated(post_id))
    }

    /// Tells whether the actor may remove the post.
    pub fn ensure_can_moderate_post(
        &self,
        role_confirmed: bool,
        actor: &PrivilegedActor,
        category_id: CategoryId,
        thread_id: ThreadId,
        post_id: PostId,
    ) -> (res: Result<Post, Error>)
        requires
            self.wf(),
        ensures
            match res {
                Ok(post) => moderate_post_guard(
                    self@,
                    role_confirmed,
                    *actor,
                    category_id,
                    thread_id,
                    post_id,
                ) is None && post == self@.posts[(thread_id, post_id)],
                Err(e) => moderate_post_guard(
                    self@,
                    role_confirmed,
                    *actor,
                    category_id,
                    thread_id,
                    post_id,
                ) == Some(e),
            },
    {
        if let Err(e) = self.ensure_can_moderate_category(role_confirmed, actor, category_id) {
            return Err(e);
        }
        self.ensure_post_is_mutable(category_id, thread_id, post_id)
    }

    /// Removes the post as an act of moderation. The lead may, and a
    /// moderator assigned to the category or above it, while the post's
    /// thread may be changed. The thread's count of posts goes down by one;
    /// the category is not touched.
    pub fn moderate_post(
        &mut self,
        role_confirmed: bool,
        actor: &PrivilegedActor,
        category_id: CategoryId,
        thread_id: ThreadId,
        post_id: PostId,
        rationale: Vec<u8>,
    ) -> (res: Result<Event, Error>)
        requires
            old(self).wf(),
        ensures
            final(self).wf(),
            final(self).config() == old(self).config(),
            answers(res, moderate_post_guard(
                old(self)@,
                role_confirmed,
                *actor,
                category_id,
                thread_id,
                post_id,
            ), EventView::PostModerated(post_id, rationale@)),
            final(self)@ == moderate_post_next(
                old(self)@,
                role_confirmed,
                *actor,
                category_id,
                thread_id,
                post_id,
            ),
    {
        if let Err(e) = self.ensure_can_moderate_post(
            role_confirmed,
            actor,
            category_id,
            thread_id,
            post_id,
        ) {
            return Err(e);
        }
        proof {
            lemma_moderate_post_wf(
                self@,
                self.config(),
                role_confirmed,
                *actor,
                category_id,
                thread_id,
                post_id,
            );
        }
        self.delete_post_inner(category_id, thread_id, post_id);
        Ok(Event::PostModerated(post_id, rationale))
    }

    /// Removes the post and lowers its thread's count of posts.
    pub(crate) fn delete_post_inner(
        &mut self,
        category_id: CategoryId,
        thread_id: ThreadId,
        post_id: PostId,
    )
        requires
            old(self)@.threads.contains_key((category_id, thread_id)),
            old(self)@.threads[(category_id, thread_id)].num_direct_posts > 0,
        ensures
            final(self).config() == old(self).config(),
            final(self)@ == (ForumState {
                posts: old(self)@.posts.remove((thread_id, post_id)),
                threads: old(self)@.threads.insert(
                    (category_id, thread_id),
                    ThreadView {
                        num_direct_posts: (old(self)@.threads[(
                            category_id,
                            thread_id,
                        )].num_direct_posts - 1) as u32,
                        ..old(self)@.threads[(category_id, thread_id)]
                    },
                ),
                ..old(self)@
            }),
    {
        let mut thread = match self.thread_by_id(category_id, thread_id) {
            Some(thread) => thread.clone(),
            None => {
                return ;
            },
        };
        self.remove_post(thread_id, post_id);
        thread.num_direct_posts = thread.num_direct_posts - 1;
        self.put_thread(category_id, thread_id, thread);
    }
}

} // verus!
