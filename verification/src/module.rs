//! The forum itself: the stored state and the operations on it.

use crate::state::{Config, ForumState};
use crate::types::{Category, CategoryId, ModeratorId, Post, PostId, Thread, ThreadId};
use std::collections::{BTreeMap, BTreeSet};
use vstd::prelude::*;
use vstd::std_specs::iter::IteratorSpec;

verus! {

/// A forum: its configuration and everything it stores.
pub struct Module {
    config: Config,
    categories: BTreeMap<CategoryId, Category>,
    threads: BTreeMap<(CategoryId, ThreadId), Thread>,
    posts: BTreeMap<(ThreadId, PostId), Post>,
    moderators: BTreeSet<(CategoryId, ModeratorId)>,
    next_category_id: CategoryId,
    category_counter: u64,
    next_thread_id: ThreadId,
    next_post_id: PostId,
}

impl View for Module {
    type V = ForumState;

    closed spec fn view(&self) -> ForumState {
        ForumState {
            categories: self.categories@.map_values(|c: Category| c@),
            threads: self.threads@.map_values(|t: Thread| t@),
            posts: self.posts@,
            moderators: self.moderators@,
            next_category_id: self.next_category_id,
            category_counter: self.category_counter,
            next_thread_id: self.next_thread_id,
            next_post_id: self.next_post_id,
        }
    }
}

impl Module {
    /// The configuration the forum was set up with.
    pub closed spec fn config(&self) -> Config {
        self.config
    }

    /// The forum's state is consistent. Every forum made by `new` and changed
    /// only through the operations is.
    pub open spec fn wf(&self) -> bool {
        self@.wf(self.config())
    }

    /// An empty forum with the given configuration.
    pub fn new(config: Config) -> (forum: Module)
        requires
            config.valid(),
        ensures
            forum@ == ForumState::empty(),
            forum.config() == config,
            forum.wf(),
    {
        let forum = Module::blank(config);
        proof {
            assert(forum@.depth_bounded(config.max_category_depth));
        }
        forum
    }

    /// The configuration the forum was set up with.
    pub fn configuration(&self) -> (cfg: Config)
        ensures
            cfg == self.config(),
    {
        self.config
    }

    /// Id the next category will get.
    pub fn next_category_id(&self) -> (id: CategoryId)
        ensures
            id == self@.next_category_id,
    {
        self.next_category_id
    }

    /// How many categories exist.
    pub fn category_counter(&self) -> (n: u64)
        ensures
            n == self@.category_counter,
    {
        self.category_counter
    }

    /// Id the next thread will get.
    pub fn next_thread_id(&self) -> (id: ThreadId)
        ensures
            id == self@.next_thread_id,
    {
        self.next_thread_id
    }

    /// Id the next post will get.
    pub fn next_post_id(&self) -> (id: PostId)
        ensures
            id == self@.next_post_id,
    {
        self.next_post_id
    }

    /// The category with the given id, if there is one.
    pub fn category_by_id(&self, category_id: CategoryId) -> (found: Option<&Category>)
        ensures
            found is Some == self@.categories.contains_key(category_id),
            found matches Some(c) ==> c@ == self@.categories[category_id],
    {
        self.categories.get(&category_id)
    }

    /// The thread stored under the given category and id, if there is one.
    pub fn thread_by_id(&self, category_id: CategoryId, thread_id: ThreadId) -> (found: Option<
        &Thread,
    >)
        ensures
            found is Some == self@.threads.contains_key((category_id, thread_id)),
            found matches Some(t) ==> t@ == self@.threads[(category_id, thread_id)],
    {
        self.threads.get(&(category_id, thread_id))
    }

    /// The post stored under the given thread and id, if there is one.
    pub fn post_by_id(&self, thread_id: ThreadId, post_id: PostId) -> (found: Option<&Post>)
        ensures
            found is Some == self@.posts.contains_key((thread_id, post_id)),
            found matches Some(p) ==> *p == self@.posts[(thread_id, post_id)],
    {
        self.posts.get(&(thread_id, post_id))
    }

    /// Whether the moderator is assigned to the category itself.
    pub fn category_by_moderator(
        &self,
        category_id: CategoryId,
        moderator_id: ModeratorId,
    ) -> (assigned: bool)
        ensures
            assigned == self@.moderators.contains((category_id, moderator_id)),
    {
        self.moderators.contains(&(category_id, moderator_id))
    }
}

// The single steps by which the operations change what is stored.
impl Module {
    pub(crate) fn put_category(&mut self, category_id: CategoryId, category: Category)
        ensures
            final(self)@ == (ForumState {
                categories: old(self)@.categories.insert(category_id, category@),
                ..old(self)@
            }),
            final(self).config() == old(self).config(),
    {
        self.categories.insert(category_id, category);
        proof {
            assert(self@.categories =~= old(self)@.categories.insert(category_id, category@));
        }
    }

    pub(crate) fn remove_category(&mut self, category_id: CategoryId)
        ensures
            final(self)@ == (ForumState {
                categories: old(self)@.categories.remove(category_id),
                ..old(self)@
            }),
            final(self).config() == old(self).config(),
    {
        self.categories.remove(&category_id);
        proof {
            assert(self@.categories =~= old(self)@.categories.remove(category_id));
        }
    }

    pub(crate) fn put_thread(
        &mut self,
        category_id: CategoryId,
        thread_id: ThreadId,
        thread: Thread,
    )
        ensures
            final(self)@ == (ForumState {
                threads: old(self)@.threads.insert((category_id, thread_id), thread@),
                ..old(self)@
            }),
            final(self).config() == old(self).config(),
    {
        self.threads.insert((category_id, thread_id), thread);
        proof {
            assert(self@.threads =~= old(self)@.threads.insert(
                (category_id, thread_id),
                thread@,
            ));
        }
    }

    pub(crate) fn remove_thread(&mut self, category_id: CategoryId, thread_id: ThreadId)
        ensures
            final(self)@ == (ForumState {
                threads: old(self)@.threads.remove((category_id, thread_id)),
                ..old(self)@
            }),
            final(self).config() == old(self).config(),
    {
        self.threads.remove(&(category_id, thread_id));
        proof {
            assert(self@.threads =~= old(self)@.threads.remove((category_id, thread_id)));
        }
    }

    pub(crate) fn put_post(&mut self, thread_id: ThreadId, post_id: PostId, post: Post)
        ensures
            final(self)@ == (ForumState {
                posts: old(self)@.posts.insert((thread_id, post_id), post),
                ..old(self)@
            }),
            final(self).config() == old(self).config(),
    {
        self.posts.insert((thread_id, post_id), post);
    }

    pub(crate) fn remove_post(&mut self, thread_id: ThreadId, post_id: PostId)
        ensures
            final(self)@ == (ForumState {
                posts: old(self)@.posts.remove((thread_id, post_id)),
                ..old(self)@
            }),
            final(self).config() == old(self).config(),
    {
        self.posts.remove(&(thread_id, post_id));
    }

    /// Removes every post stored under the thread id.
    pub(crate) fn remove_posts_of(&mut self, thread_id: ThreadId)
        ensures
            final(self)@ == (ForumState {
                posts: old(self)@.posts.remove_keys(old(self)@.posts_of(thread_id)),
                ..old(self)@
            }),
            final(self).config() == old(self).config(),
    {
        let mut doomed: Vec<(ThreadId, PostId)> = Vec::new();
        let ghost all = self.posts.keys().remaining().unref();
        for k in it: self.posts.keys()
            invariant
                all == it.seq().unref(),
                all.to_set() == self.posts@.dom(),
                forall|i: int|
                    0 <= i < doomed.len() ==> (#[trigger] doomed[i]).0 == thread_id
                        && self.posts@.contains_key(doomed[i]),
                forall|j: int|
                    0 <= j < it.index() && (#[trigger] all[j]).0 == thread_id ==> doomed@.contains(
                        all[j],
                    ),
        {
            let ghost before = doomed@;
            assert(*k == all[it.index() as int]);
            assert(all.to_set().contains(*k));
            if k.0 == thread_id {
                doomed.push(*k);
                assert(doomed@[doomed.len() - 1] == *k);
            }
            proof {
                assert forall|j: int|
                    0 <= j < it.index() + 1 && (#[trigger] all[j]).0
                        == thread_id implies doomed@.contains(all[j]) by {
                    if j < it.index() {
                        assert(before.contains(all[j]));
                        let w = choose|w: int| 0 <= w < before.len() && before[w] == all[j];
                        assert(doomed@[w] == all[j]);
                    } else {
                        assert(doomed@[doomed.len() - 1] == all[j]);
                    }
                }
            }
        }
        let mut i: usize = 0;
        while i < doomed.len()
            invariant
                i <= doomed.len(),
                self.posts@ == old(self).posts@.remove_keys(
                    doomed@.subrange(0, i as int).to_set(),
                ),
                self.config == old(self).config,
                self.categories == old(self).categories,
                self.threads == old(self).threads,
                self.moderators == old(self).moderators,
                self.next_category_id == old(self).next_category_id,
                self.category_counter == old(self).category_counter,
                self.next_thread_id == old(self).next_thread_id,
                self.next_post_id == old(self).next_post_id,
            decreases doomed.len() - i,
        {
            let k = doomed[i];
            self.posts.remove(&k);
            proof {
                let a = doomed@.subrange(0, i as int);
                let b = doomed@.subrange(0, i + 1);
                assert(b =~= a.push(k));
                assert forall|x| b.to_set().contains(x) <==> a.to_set().insert(k).contains(x) by {
                    if a.contains(x) {
                        let j = choose|j: int| 0 <= j < a.len() && a[j] == x;
                        assert(b[j] == x);
                    }
                    if x == k {
                        assert(b[i as int] == x);
                    }
                }
                assert(b.to_set() =~= a.to_set().insert(k));
                assert(self.posts@ =~= old(self).posts@.remove_keys(b.to_set()));
            }
            i += 1;
        }
        proof {
            assert(doomed@.subrange(0, doomed.len() as int) =~= doomed@);
            assert forall|x: (ThreadId, PostId)|
                x.0 == thread_id && old(self).posts@.contains_key(
                    x,
                ) implies doomed@.to_set().contains(x) by {
                assert(all.to_set().contains(x));
                let j = choose|j: int| 0 <= j < all.len() && all[j] == x;
                assert(doomed@.contains(all[j]));
            }
            assert(self.posts@ =~= old(self).posts@.remove_keys(old(self)@.posts_of(thread_id)));
        }
    }

    pub(crate) fn assign(&mut self, category_id: CategoryId, moderator_id: ModeratorId)
        ensures
            final(self)@ == (ForumState {
                moderators: old(self)@.moderators.insert((category_id, moderator_id)),
                ..old(self)@
            }),
            final(self).config() == old(self).config(),
    {
        self.moderators.insert((category_id, moderator_id));
    }

    pub(crate) fn unassign(&mut self, category_id: CategoryId, moderator_id: ModeratorId)
        ensures
            final(self)@ == (ForumState {
                moderators: old(self)@.moderators.remove((category_id, moderator_id)),
                ..old(self)@
            }),
            final(self).config() == old(self).config(),
    {
        self.moderators.remove(&(category_id, moderator_id));
    }

    pub(crate) fn set_counters(
        &mut self,
        next_category_id: CategoryId,
        category_counter: u64,
        next_thread_id: ThreadId,
        next_post_id: PostId,
    )
        ensures
            final(self)@ == (ForumState {
                next_category_id,
                category_counter,
                next_thread_id,
                next_post_id,
                ..old(self)@
            }),
            final(self).config() == old(self).config(),
    {
        self.next_category_id = next_category_id;
        self.category_counter = category_counter;
        self.next_thread_id = next_thread_id;
        self.next_post_id = next_post_id;
    }

    /// An empty forum with the given configuration, valid or not.
    pub(crate) fn blank(config: Config) -> (forum: Module)
        ensures
            forum@ == ForumState::empty(),
            forum.config() == config,
    {
        let forum = Module {
            config,
            categories: BTreeMap::new(),
            threads: BTreeMap::new(),
            posts: BTreeMap::new(),
            moderators: BTreeSet::new(),
            next_category_id: 0,
            category_counter: 0,
            next_thread_id: 0,
            next_post_id: 0,
        };
        proof {
            assert(forum@.categories =~= Map::empty());
            assert(forum@.threads =~= Map::empty());
        }
        forum
    }

    pub(crate) fn take_category_id(&mut self) -> (id: CategoryId)
        requires
            old(self)@.next_category_id < u64::MAX,
            old(self)@.category_counter < u64::MAX,
        ensures
            id == old(self)@.next_category_id,
            final(self)@ == (ForumState {
                next_category_id: (id + 1) as u64,
                category_counter: (old(self)@.category_counter + 1) as u64,
                ..old(self)@
            }),
            final(self).config() == old(self).config(),
    {
        let id: CategoryId = self.next_category_id;
        self.next_category_id = id + 1;
        self.category_counter = self.category_counter + 1;
        id
    }

    pub(crate) fn drop_category_count(&mut self)
        requires
            old(self)@.category_counter > 0,
        ensures
            final(self)@ == (ForumState {
                category_counter: (old(self)@.category_counter - 1) as u64,
                ..old(self)@
            }),
            final(self).config() == old(self).config(),
    {
        self.category_counter = self.category_counter - 1;
    }

    pub(crate) fn take_thread_id(&mut self) -> (id: ThreadId)
        requires
            old(self)@.next_thread_id < u64::MAX,
        ensures
            id == old(self)@.next_thread_id,
            final(self)@ == (ForumState { next_thread_id: (id + 1) as u64, ..old(self)@ }),
            final(self).config() == old(self).config(),
    {
        let id: ThreadId = self.next_thread_id;
        self.next_thread_id = id + 1;
        id
    }

    pub(crate) fn take_post_id(&mut self) -> (id: PostId)
        requires
            old(self)@.next_post_id < u64::MAX,
        ensures
            id == old(self)@.next_post_id,
            final(self)@ == (ForumState { next_post_id: (id + 1) as u64, ..old(self)@ }),
            final(self).config() == old(self).config(),
    {
        let id: PostId = self.next_post_id;
        self.next_post_id = id + 1;
        id
    }
}

// Listing what is stored.
impl Module {
    /// The ids of all categories, each once.
    pub fn category_ids(&self) -> (ids: Vec<CategoryId>)
        ensures
            ids@.no_duplicates(),
            ids@.to_set() == self@.categories.dom(),
    {
        let mut ids: Vec<CategoryId> = Vec::new();
        let ghost all = self.categories.keys().remaining().unref();
        for k in it: self.categories.keys()
            invariant
                all == it.seq().unref(),
                it.seq().no_duplicates(),
                all.to_set() == self.categories@.dom(),
                ids@ == all.subrange(0, it.index() as int),
        {
            ids.push(*k);
            assert(ids@ =~= all.subrange(0, it.index() + 1));
        }
        proof {
            assert(ids@ =~= all);
            assert(self@.categories.dom() =~= self.categories@.dom());
        }
        ids
    }

    /// The keys (category id, thread id) of all threads, each once.
    pub fn thread_keys(&self) -> (keys: Vec<(CategoryId, ThreadId)>)
        ensures
            keys@.no_duplicates(),
            keys@.to_set() == self@.threads.dom(),
    {
        let mut keys: Vec<(CategoryId, ThreadId)> = Vec::new();
        let ghost all = self.threads.keys().remaining().unref();
        for k in it: self.threads.keys()
            invariant
                all == it.seq().unref(),
                it.seq().no_duplicates(),
                all.to_set() == self.threads@.dom(),
                keys@ == all.subrange(0, it.index() as int),
        {
            keys.push(*k);
            assert(keys@ =~= all.subrange(0, it.index() + 1));
        }
        proof {
            assert(keys@ =~= all);
            assert(self@.threads.dom() =~= self.threads@.dom());
        }
        keys
    }

    /// The keys (thread id, post id) of all posts, each once.
    pub fn post_keys(&self) -> (keys: Vec<(ThreadId, PostId)>)
        ensures
            keys@.no_duplicates(),
            keys@.to_set() == self@.posts.dom(),
    {
        let mut keys: Vec<(ThreadId, PostId)> = Vec::new();
        let ghost all = self.posts.keys().remaining().unref();
        for k in it: self.posts.keys()
            invariant
                all == it.seq().unref(),
                it.seq().no_duplicates(),
                all.to_set() == self.posts@.dom(),
                keys@ == all.subrange(0, it.index() as int),
        {
            keys.push(*k);
            assert(keys@ =~= all.subrange(0, it.index() + 1));
        }
        proof {
            assert(keys@ =~= all);
        }
        keys
    }

    /// The pairs (category id, moderator id) of all assignments, each once.
    pub fn moderator_keys(&self) -> (keys: Vec<(CategoryId, ModeratorId)>)
        ensures
            keys@.no_duplicates(),
            keys@.to_set() == self@.moderators,
    {
        let mut keys: Vec<(CategoryId, ModeratorId)> = Vec::new();
        let ghost all = self.moderators.iter().remaining().unref();
        for k in it: self.moderators.iter()
            invariant
                all == it.seq().unref(),
                it.seq().no_duplicates(),
                all.to_set() == self.moderators@,
                keys@ == all.subrange(0, it.index() as int),
        {
            keys.push(*k);
            assert(keys@ =~= all.subrange(0, it.index() + 1));
        }
        proof {
            assert(keys@ =~= all);
        }
        keys
    }
}

} // verus!
