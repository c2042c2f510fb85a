//! The records the forum stores, their mathematical views, and the errors its
//! operations report.

use vstd::prelude::*;

verus! {

/// Identifier of a category.
pub type CategoryId = u64;

/// Identifier of a thread.
pub type ThreadId = u64;

/// Identifier of a post.
pub type PostId = u64;

/// Identifier of a forum member.
pub type ForumUserId = u64;

/// Identifier of a moderator.
pub type ModeratorId = u64;

/// Identifier of a kind of reaction to a post.
pub type PostReactionId = u64;

/// A point on the external clock.
pub type Moment = u64;

/// Digest of a piece of text. The forum stores digests only, never the text.
#[derive(Clone, Copy, Debug, PartialEq, Eq)]
pub struct ContentHash(pub [u8; 32]);

/// Everything an operation can be rejected with.
#[derive(Clone, Copy, Debug, PartialEq, Eq, Structural)]
pub enum Error {
    /// The caller is not the forum lead.
    OriginNotForumLead,
    /// The forum user id does not belong to the calling account.
    ForumUserIdNotMatchAccount,
    /// The moderator id does not belong to the calling account.
    ModeratorIdNotMatchAccount,
    /// The thread was not authored by the given user.
    AccountDoesNotMatchThreadAuthor,
    /// The thread does not exist.
    ThreadDoesNotExist,
    /// The actor may not moderate the category the thread is in.
    ModeratorModerateOriginCategory,
    /// The actor may not moderate the category the thread is to move to.
    ModeratorModerateDestinationCategory,
    /// The thread is already in the category it is to move to.
    ThreadMoveInvalid,
    /// The thread already has the requested archival status.
    ThreadNotBeingUpdated,
    /// The thread is archived.
    ThreadImmutable,
    /// The post does not exist.
    PostDoesNotExist,
    /// The post was not authored by the given user.
    AccountDoesNotMatchPostAuthor,
    /// The category already has the requested archival status.
    CategoryNotBeingUpdated,
    /// The category or one of its ancestors is archived.
    AncestorCategoryImmutable,
    /// The new category would lie deeper than the tree may grow.
    MaxValidCategoryDepthExceeded,
    /// The category does not exist.
    CategoryDoesNotExist,
    /// The category still holds threads.
    CategoryNotEmptyThreads,
    /// The category still holds subcategories.
    CategoryNotEmptyCategories,
    /// The moderator may not delete the category.
    ModeratorCantDeleteCategory,
    /// The moderator may not act on the category.
    ModeratorCantUpdateCategory,
    /// The poll has too few alternatives.
    PollAlternativesTooShort,
    /// The poll has too many alternatives.
    PollAlternativesTooLong,
    /// The thread has no poll.
    PollNotExist,
    /// The poll would end before it starts.
    PollTimeSetting,
    /// The vote names an alternative the poll does not have.
    PollData,
    /// The poll has ended.
    PollCommitExpired,
    /// A bounded collection is at its ceiling.
    MapSizeLimit,
    /// The stored category tree is broken: a category names a parent that
    /// does not exist, or a way up is longer than the tree may be deep.
    CategoryTreeInconsistent,
}

/// Bounds on a length, kept as a minimum and the room above it so that a
/// maximum below the minimum cannot be written down.
#[derive(Clone, Copy, Debug, Default, PartialEq, Eq)]
pub struct InputValidationLengthConstraint {
    /// Least length accepted.
    pub min: u16,
    /// How far the greatest length accepted lies above `min`.
    pub max_min_diff: u16,
}

impl InputValidationLengthConstraint {
    /// The greatest length accepted.
    pub open spec fn max_spec(&self) -> int {
        self.min + self.max_min_diff
    }

    /// The greatest length accepted.
    pub fn max(&self) -> (m: u16)
        requires
            self.max_spec() <= u16::MAX,
        ensures
            m == self.max_spec(),
    {
        self.min + self.max_min_diff
    }

    /// Which of the two errors, if any, a length earns: the length itself
    /// has to lie between the least and the greatest length accepted.
    pub open spec fn verdict<E>(&self, len: usize, too_short: E, too_long: E) -> Result<(), E> {
        if len < self.min {
            Err(too_short)
        } else if len > self.max_spec() {
            Err(too_long)
        } else {
            Ok(())
        }
    }

    /// Checks a length against the bounds, answering with the caller's own
    /// error for each side.
    pub fn ensure_valid<ErrorType>(
        &self,
        len: usize,
        too_short_msg: ErrorType,
        too_long_msg: ErrorType,
    ) -> (res: Result<(), ErrorType>)
        ensures
            res == self.verdict(len, too_short_msg, too_long_msg),
    {
        let least: u32 = self.min as u32;
        let greatest: u32 = least + self.max_min_diff as u32;
        if len < least as usize {
            Err(too_short_msg)
        } else if len > greatest as usize {
            Err(too_long_msg)
        } else {
            Ok(())
        }
    }
}

/// One choice of a poll and the votes it has drawn.
#[derive(Clone, Copy, Debug, PartialEq, Eq)]
pub struct PollAlternative {
    /// Digest of the alternative's description.
    pub alternative_text_hash: ContentHash,
    /// Votes cast for the alternative.
    pub vote_count: u32,
}

/// A poll embedded in a thread.
#[derive(Debug, PartialEq, Eq)]
pub struct Poll {
    /// Digest of the poll's description.
    pub description_hash: ContentHash,
    /// Moment after which the poll takes no more votes.
    pub end_time: Moment,
    /// The choices, in the order they were given.
    pub poll_alternatives: Vec<PollAlternative>,
}

/// A poll as a mathematical value.
pub struct PollView {
    pub description_hash: ContentHash,
    pub end_time: Moment,
    pub poll_alternatives: Seq<PollAlternative>,
}

impl View for Poll {
    type V = PollView;

    open spec fn view(&self) -> PollView {
        PollView {
            description_hash: self.description_hash,
            end_time: self.end_time,
            poll_alternatives: self.poll_alternatives@,
        }
    }
}

/// A message in a thread.
#[derive(Clone, Copy, Debug, PartialEq, Eq)]
pub struct Post {
    /// The thread the post belongs to.
    pub thread_id: ThreadId,
    /// Digest of the current text.
    pub text_hash: ContentHash,
    /// Who wrote the post.
    pub author_id: ForumUserId,
}

/// A discussion in a category.
#[derive(Debug, PartialEq, Eq)]
pub struct Thread {
    /// Digest of the title.
    pub title_hash: ContentHash,
    /// The category the thread lives in.
    pub category_id: CategoryId,
    /// Who opened the thread.
    pub author_id: ForumUserId,
    /// Whether the thread is archived.
    pub archived: bool,
    /// The poll attached to the thread, if any.
    pub poll: Option<Poll>,
    /// How many posts the thread holds.
    pub num_direct_posts: u32,
}

/// A thread as a mathematical value.
pub struct ThreadView {
    pub title_hash: ContentHash,
    pub category_id: CategoryId,
    pub author_id: ForumUserId,
    pub archived: bool,
    pub poll: Option<PollView>,
    pub num_direct_posts: u32,
}

impl View for Thread {
    type V = ThreadView;

    open spec fn view(&self) -> ThreadView {
        ThreadView {
            title_hash: self.title_hash,
            category_id: self.category_id,
            author_id: self.author_id,
            archived: self.archived,
            poll: match self.poll {
                Some(p) => Some(p@),
                None => None,
            },
            num_direct_posts: self.num_direct_posts,
        }
    }
}

/// A node of the category tree.
#[derive(Debug, PartialEq, Eq)]
pub struct Category {
    /// Digest of the title.
    pub title_hash: ContentHash,
    /// Digest of the description.
    pub description_hash: ContentHash,
    /// Whether the category is archived.
    pub archived: bool,
    /// How many categories have this one as their parent.
    pub num_direct_subcategories: u32,
    /// How many threads live directly in the category.
    pub num_direct_threads: u32,
    /// How many moderators are assigned directly to the category.
    pub num_direct_moderators: u32,
    /// The parent category; `None` for a root.
    pub parent_category_id: Option<CategoryId>,
    /// Threads shown first, in display order.
    pub sticky_thread_ids: Vec<ThreadId>,
}

/// A category as a mathematical value.
pub struct CategoryView {
    pub title_hash: ContentHash,
    pub description_hash: ContentHash,
    pub archived: bool,
    pub num_direct_subcategories: u32,
    pub num_direct_threads: u32,
    pub num_direct_moderators: u32,
    pub parent_category_id: Option<CategoryId>,
    pub sticky_thread_ids: Seq<ThreadId>,
}

impl View for Category {
    type V = CategoryView;

    open spec fn view(&self) -> CategoryView {
        CategoryView {
            title_hash: self.title_hash,
            description_hash: self.description_hash,
            archived: self.archived,
            num_direct_subcategories: self.num_direct_subcategories,
            num_direct_threads: self.num_direct_threads,
            num_direct_moderators: self.num_direct_moderators,
            parent_category_id: self.parent_category_id,
            sticky_thread_ids: self.sticky_thread_ids@,
        }
    }
}

impl Clone for Poll {
    fn clone(&self) -> (copy: Self)
        ensures
            copy@ == self@,
    {
        let mut alternatives: Vec<PollAlternative> = Vec::new();
        let mut i: usize = 0;
        while i < self.poll_alternatives.len()
            invariant
                i <= self.poll_alternatives.len(),
                alternatives@ == self.poll_alternatives@.subrange(0, i as int),
            decreases self.poll_alternatives.len() - i,
        {
            alternatives.push(self.poll_alternatives[i]);
            assert(alternatives@ =~= self.poll_alternatives@.subrange(0, i + 1));
            i += 1;
        }
        assert(alternatives@ =~= self.poll_alternatives@);
        Poll {
            description_hash: self.description_hash,
            end_time: self.end_time,
            poll_alternatives: alternatives,
        }
    }
}

impl Clone for Thread {
    fn clone(&self) -> (copy: Self)
        ensures
            copy@ == self@,
    {
        Thread {
            title_hash: self.title_hash,
            category_id: self.category_id,
            author_id: self.author_id,
            archived: self.archived,
            poll: match &self.poll {
                Some(p) => Some(p.clone()),
                None => None,
            },
            num_direct_posts: self.num_direct_posts,
        }
    }
}

impl Clone for Category {
    fn clone(&self) -> (copy: Self)
        ensures
            copy@ == self@,
    {
        let mut sticky: Vec<ThreadId> = Vec::new();
        let mut i: usize = 0;
        while i < self.sticky_thread_ids.len()
            invariant
                i <= self.sticky_thread_ids.len(),
                sticky@ == self.sticky_thread_ids@.subrange(0, i as int),
            decreases self.sticky_thread_ids.len() - i,
        {
            sticky.push(self.sticky_thread_ids[i]);
            assert(sticky@ =~= self.sticky_thread_ids@.subrange(0, i + 1));
            i += 1;
        }
        assert(sticky@ =~= self.sticky_thread_ids@);
        Category {
            title_hash: self.title_hash,
            description_hash: self.description_hash,
            archived: self.archived,
            num_direct_subcategories: self.num_direct_subcategories,
            num_direct_threads: self.num_direct_threads,
            num_direct_moderators: self.num_direct_moderators,
            parent_category_id: self.parent_category_id,
            sticky_thread_ids: sticky,
        }
    }
}

/// Who is acting with elevated rights: the one lead, or a moderator.
#[derive(Clone, Copy, Debug, PartialEq, Eq)]
pub enum PrivilegedActor {
    Lead,
    Moderator(ModeratorId),
}

} // verus!
