//! The forum as a mathematical value: what is stored, what it means for the
//! stored counters and links to be consistent, and the questions the
//! operations ask of it.

use crate::types::{
    CategoryId, CategoryView, InputValidationLengthConstraint, ModeratorId, Post, PostId,
    PrivilegedActor, ThreadId, ThreadView,
};
use vstd::prelude::*;

verus! {

/// Ceilings on the bounded collections. Each is checked before an insert, so
/// that a later full scan of the collection has a known cost.
#[derive(Clone, Copy, Debug, PartialEq, Eq)]
pub struct StorageLimits {
    /// Most direct subcategories a category may have.
    pub max_subcategories: u64,
    /// Most threads a category may hold directly.
    pub max_threads_in_category: u64,
    /// Most posts a thread may hold.
    pub max_posts_in_thread: u64,
    /// Most moderators that may be assigned to one category.
    pub max_moderators_for_category: u64,
    /// Most categories that may exist at once.
    pub max_categories: u64,
}

/// What is fixed when a forum is set up.
#[derive(Clone, Copy, Debug, PartialEq, Eq)]
pub struct Config {
    /// Most categories on a path from a category to its root.
    pub max_category_depth: u64,
    /// Ceilings on the bounded collections.
    pub limits: StorageLimits,
    /// How many alternatives a poll may have.
    pub poll_items_constraint: InputValidationLengthConstraint,
}

impl Config {
    /// The per-category and per-thread counters are 32 bits wide, so a
    /// ceiling on what they count has to fit that width.
    pub open spec fn valid(&self) -> bool {
        &&& self.limits.max_subcategories <= u32::MAX
        &&& self.limits.max_threads_in_category <= u32::MAX
        &&& self.limits.max_posts_in_thread <= u32::MAX
        &&& self.limits.max_moderators_for_category <= u32::MAX
    }

    /// Tells whether the configuration is one a forum can be set up with.
    pub fn is_valid(&self) -> (ok: bool)
        ensures
            ok == self.valid(),
    {
        self.limits.max_subcategories <= 0xffff_ffff
            && self.limits.max_threads_in_category <= 0xffff_ffff
            && self.limits.max_posts_in_thread <= 0xffff_ffff
            && self.limits.max_moderators_for_category <= 0xffff_ffff
    }

    /// The most categories a way up may pass through: what the tree may be
    /// deep, and one at least, since a root is its own way up.
    pub open spec fn path_cap(&self) -> u64 {
        if self.max_category_depth == 0 {
            1
        } else {
            self.max_category_depth
        }
    }
}

/// Everything a forum stores.
pub struct ForumState {
    /// Category id to category.
    pub categories: Map<CategoryId, CategoryView>,
    /// (Category id, thread id) to thread.
    pub threads: Map<(CategoryId, ThreadId), ThreadView>,
    /// (Thread id, post id) to post.
    pub posts: Map<(ThreadId, PostId), Post>,
    /// The pairs (category id, moderator id) of the assignments in force.
    pub moderators: Set<(CategoryId, ModeratorId)>,
    /// Id the next category will get.
    pub next_category_id: CategoryId,
    /// How many categories exist.
    pub category_counter: u64,
    /// Id the next thread will get.
    pub next_thread_id: ThreadId,
    /// Id the next post will get.
    pub next_post_id: PostId,
}

impl ForumState {
    /// The forum before anything was created.
    pub open spec fn empty() -> ForumState {
        ForumState {
            categories: Map::empty(),
            threads: Map::empty(),
            posts: Map::empty(),
            moderators: Set::empty(),
            next_category_id: 0,
            category_counter: 0,
            next_thread_id: 0,
            next_post_id: 0,
        }
    }

    /// The categories whose parent is `c`.
    pub open spec fn subcategories_of(&self, c: CategoryId) -> Set<CategoryId> {
        self.categories.dom().filter(
            |k: CategoryId| self.categories[k].parent_category_id == Some(c),
        )
    }

    /// The keys of the threads that live in `c`.
    pub open spec fn threads_of(&self, c: CategoryId) -> Set<(CategoryId, ThreadId)> {
        self.threads.dom().filter(|k: (CategoryId, ThreadId)| k.0 == c)
    }

    /// The assignments of moderators to `c`.
    pub open spec fn moderators_of(&self, c: CategoryId) -> Set<(CategoryId, ModeratorId)> {
        self.moderators.filter(|k: (CategoryId, ModeratorId)| k.0 == c)
    }

    /// The keys of the posts that belong to thread `t`.
    pub open spec fn posts_of(&self, t: ThreadId) -> Set<(ThreadId, PostId)> {
        self.posts.dom().filter(|k: (ThreadId, PostId)| k.0 == t)
    }

    /// The parent of `c`, where `c` exists and has one.
    pub open spec fn parent_of(&self, c: CategoryId) -> Option<CategoryId> {
        if self.categories.contains_key(c) {
            match self.categories[c].parent_category_id {
                Some(p) => if p < c {
                    Some(p)
                } else {
                    None
                },
                None => None,
            }
        } else {
            None
        }
    }

    /// The path from `c` up to its root: `c` first, the root last.
    pub open spec fn path(&self, c: CategoryId) -> Seq<CategoryId>
        decreases c,
    {
        match self.parent_of(c) {
            Some(p) => seq![c] + self.path(p),
            None => seq![c],
        }
    }

    /// The way up from `c` as far as it can be followed through at most
    /// `fuel` categories: `c` first, its root last. There is none where a
    /// category on the way does not exist or the way is longer than that.
    pub open spec fn walk(&self, c: CategoryId, fuel: nat) -> Option<Seq<CategoryId>>
        decreases fuel,
    {
        if fuel == 0 || !self.categories.contains_key(c) {
            None
        } else {
            match self.categories[c].parent_category_id {
                None => Some(seq![c]),
                Some(p) => match self.walk(p, (fuel - 1) as nat) {
                    Some(rest) => Some(seq![c] + rest),
                    None => None,
                },
            }
        }
    }

    /// Whether `c` exists and is archived.
    pub open spec fn archived_at(&self, c: CategoryId) -> bool {
        self.categories.contains_key(c) && self.categories[c].archived
    }

    /// Whether `c` or one of its ancestors is archived.
    pub open spec fn chain_archived(&self, c: CategoryId) -> bool {
        exists|i: int| 0 <= i < self.path(c).len() && self.archived_at(#[trigger] self.path(c)[i])
    }

    /// Whether moderator `m` is assigned to `c` or to one of its ancestors.
    pub open spec fn chain_moderated_by(&self, c: CategoryId, m: ModeratorId) -> bool {
        exists|i: int|
            0 <= i < self.path(c).len() && self.moderators.contains(
                (#[trigger] self.path(c)[i], m),
            )
    }

    /// Whether the actor may act on `c`: the lead always, a moderator where
    /// assigned to `c` or above it.
    pub open spec fn may_moderate(&self, actor: PrivilegedActor, c: CategoryId) -> bool {
        match actor {
            PrivilegedActor::Lead => true,
            PrivilegedActor::Moderator(m) => self.chain_moderated_by(c, m),
        }
    }

    /// Links of the category tree: ids are below the next id, every parent
    /// exists and was created before its child.
    pub open spec fn tree_linked(&self) -> bool {
        &&& self.categories.dom().finite()
        &&& self.category_counter == self.categories.dom().len()
        &&& forall|c: CategoryId| #[trigger]
            self.categories.contains_key(c) ==> c < self.next_category_id
        &&& forall|c: CategoryId| #[trigger]
            self.categories.contains_key(c) ==> match self.categories[c].parent_category_id {
                Some(p) => p < c && self.categories.contains_key(p),
                None => true,
            }
    }

    /// No path is longer than the tree may be deep (a lone root is always
    /// allowed).
    pub open spec fn depth_bounded(&self, max_depth: u64) -> bool {
        forall|c: CategoryId| #[trigger]
            self.categories.contains_key(c) ==> self.path(c).len() <= max_depth
                || self.path(c).len() == 1
    }

    /// Each category's counters equal what they count, and moderators are
    /// assigned only to categories that exist or once did.
    pub open spec fn counters_exact(&self) -> bool {
        &&& self.threads.dom().finite()
        &&& self.moderators.finite()
        &&& forall|k: (CategoryId, ModeratorId)| #[trigger]
            self.moderators.contains(k) ==> k.0 < self.next_category_id
        &&& forall|c: CategoryId| #[trigger]
            self.categories.contains_key(c) ==> {
                &&& self.categories[c].num_direct_subcategories == self.subcategories_of(c).len()
                &&& self.categories[c].num_direct_threads == self.threads_of(c).len()
                &&& self.categories[c].num_direct_moderators == self.moderators_of(c).len()
            }
    }

    /// Threads live in existing categories, record the category they are
    /// stored under, have ids below the next id and used once only, and count
    /// their posts exactly.
    pub open spec fn threads_consistent(&self) -> bool {
        &&& self.posts.dom().finite()
        &&& forall|k: (CategoryId, ThreadId)| #[trigger]
            self.threads.contains_key(k) ==> {
                &&& self.categories.contains_key(k.0)
                &&& k.1 < self.next_thread_id
                &&& self.threads[k].category_id == k.0
                &&& self.threads[k].num_direct_posts == self.posts_of(k.1).len()
            }
        &&& forall|k1: (CategoryId, ThreadId), k2: (CategoryId, ThreadId)|
            #![trigger self.threads.contains_key(k1), self.threads.contains_key(k2)]
            self.threads.contains_key(k1) && self.threads.contains_key(k2) && k1.1 == k2.1 ==> k1
                == k2
    }

    /// Posts record the thread they are stored under and have ids below the
    /// next id.
    pub open spec fn posts_consistent(&self) -> bool {
        forall|k: (ThreadId, PostId)| #[trigger]
            self.posts.contains_key(k) ==> {
                &&& k.0 < self.next_thread_id
                &&& k.1 < self.next_post_id
                &&& self.posts[k].thread_id == k.0
            }
    }

    /// The state is one that the operations can have produced.
    pub open spec fn wf(&self, cfg: Config) -> bool {
        &&& cfg.valid()
        &&& self.tree_linked()
        &&& self.depth_bounded(cfg.max_category_depth)
        &&& self.counters_exact()
        &&& self.threads_consistent()
        &&& self.posts_consistent()
    }

    /// The votes that alternative `index` of the poll of the thread under the
    /// key has.
    pub open spec fn votes_for(&self, c: CategoryId, t: ThreadId, index: u32) -> u32 {
        self.threads[(c, t)].poll->0.poll_alternatives[index as int].vote_count
    }

    /// Whether a thread is stored under the key and may be changed: neither
    /// it nor any category above it is archived.
    pub open spec fn thread_mutable(&self, c: CategoryId, t: ThreadId) -> bool {
        &&& self.threads.contains_key((c, t))
        &&& !self.threads[(c, t)].archived
        &&& !self.chain_archived(c)
    }
}

} // verus!
