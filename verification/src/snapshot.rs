//! Saving a forum as plain lists and taking it up again from them.

use crate::module::Module;
use crate::state::{Config, ForumState};
use crate::types::{
    Category, CategoryId, CategoryView, ModeratorId, Post, PostId, Thread, ThreadId, ThreadView,
};
use vstd::prelude::*;

verus! {

/// Everything a forum stores, as lists of entries. Where a list holds a key
/// twice, the later entry counts; a snapshot taken of a forum holds each key
/// once.
#[derive(Debug, PartialEq, Eq)]
pub struct Snapshot {
    /// The categories with their ids.
    pub categories: Vec<(CategoryId, Category)>,
    /// The threads with their keys (category id, thread id).
    pub threads: Vec<((CategoryId, ThreadId), Thread)>,
    /// The posts with their keys (thread id, post id).
    pub posts: Vec<((ThreadId, PostId), Post)>,
    /// The assignments (category id, moderator id).
    pub moderators: Vec<(CategoryId, ModeratorId)>,
    /// Id the next category will get.
    pub next_category_id: CategoryId,
    /// How many categories exist.
    pub category_counter: u64,
    /// Id the next thread will get.
    pub next_thread_id: ThreadId,
    /// Id the next post will get.
    pub next_post_id: PostId,
}

/// The categories that a list of entries stands for.
pub open spec fn category_map(entries: Seq<(CategoryId, Category)>) -> Map<
    CategoryId,
    CategoryView,
>
    decreases entries.len(),
{
    if entries.len() == 0 {
        Map::empty()
    } else {
        category_map(entries.drop_last()).insert(entries.last().0, entries.last().1@)
    }
}

/// The threads that a list of entries stands for.
pub open spec fn thread_map(entries: Seq<((CategoryId, ThreadId), Thread)>) -> Map<
    (CategoryId, ThreadId),
    ThreadView,
>
    decreases entries.len(),
{
    if entries.len() == 0 {
        Map::empty()
    } else {
        thread_map(entries.drop_last()).insert(entries.last().0, entries.last().1@)
    }
}

/// The posts that a list of entries stands for.
pub open spec fn post_map(entries: Seq<((ThreadId, PostId), Post)>) -> Map<(ThreadId, PostId), Post>
    decreases entries.len(),
{
    if entries.len() == 0 {
        Map::empty()
    } else {
        post_map(entries.drop_last()).insert(entries.last().0, entries.last().1)
    }
}

impl Snapshot {
    /// The state the snapshot stands for.
    pub open spec fn state(&self) -> ForumState {
        ForumState {
            categories: category_map(self.categories@),
            threads: thread_map(self.threads@),
            posts: post_map(self.posts@),
            moderators: self.moderators@.to_set(),
            next_category_id: self.next_category_id,
            category_counter: self.category_counter,
            next_thread_id: self.next_thread_id,
            next_post_id: self.next_post_id,
        }
    }
}

impl Module {
    /// Everything the forum stores, as lists.
    pub fn snapshot(&self) -> (saved: Snapshot)
        ensures
            saved.state() == self@,
            saved.categories@.len() == self@.categories.dom().len(),
            saved.threads@.len() == self@.threads.dom().len(),
            saved.posts@.len() == self@.posts.dom().len(),
            saved.moderators@.len() == self@.moderators.len(),
    {
        let ids = self.category_ids();
        proof {
            ids@.unique_seq_to_set();
        }
        let mut categories: Vec<(CategoryId, Category)> = Vec::new();
        let mut i: usize = 0;
        while i < ids.len()
            invariant
                i <= ids.len(),
                categories@.len() == i,
                ids@.to_set() == self@.categories.dom(),
                category_map(categories@) == self@.categories.restrict(
                    ids@.subrange(0, i as int).to_set(),
                ),
            decreases ids.len() - i,
        {
            proof {
                assert(ids@.to_set().contains(ids@[i as int]));
                assert(self@.categories.contains_key(ids@[i as int]));
            }
            if let Some(category) = self.category_by_id(ids[i]) {
                let ghost before = categories@;
                categories.push((ids[i], category.clone()));
                proof {
                    assert(categories@.drop_last() =~= before);
                    assert(ids@.subrange(0, i + 1).to_set() =~= ids@.subrange(
                        0,
                        i as int,
                    ).to_set().insert(ids@[i as int])) by {
                        lemma_prefix_set(ids@, i as int);
                    }
                    assert(category_map(categories@) =~= self@.categories.restrict(
                        ids@.subrange(0, i + 1).to_set(),
                    ));
                }
            }
            i += 1;
        }
        let thread_keys = self.thread_keys();
        proof {
            thread_keys@.unique_seq_to_set();
        }
        let mut threads: Vec<((CategoryId, ThreadId), Thread)> = Vec::new();
        let mut j: usize = 0;
        while j < thread_keys.len()
            invariant
                j <= thread_keys.len(),
                threads@.len() == j,
                thread_keys@.to_set() == self@.threads.dom(),
                thread_map(threads@) == self@.threads.restrict(
                    thread_keys@.subrange(0, j as int).to_set(),
                ),
            decreases thread_keys.len() - j,
        {
            proof {
                assert(thread_keys@.to_set().contains(thread_keys@[j as int]));
                assert(self@.threads.contains_key(thread_keys@[j as int]));
            }
            let key: (CategoryId, ThreadId) = thread_keys[j];
            if let Some(thread) = self.thread_by_id(key.0, key.1) {
                let ghost before = threads@;
                threads.push((key, thread.clone()));
                proof {
                    assert(threads@.drop_last() =~= before);
                    lemma_prefix_set(thread_keys@, j as int);
                    assert(thread_map(threads@) =~= self@.threads.restrict(
                        thread_keys@.subrange(0, j + 1).to_set(),
                    ));
                }
            }
            j += 1;
        }
        let post_keys = self.post_keys();
        proof {
            post_keys@.unique_seq_to_set();
        }
        let mut posts: Vec<((ThreadId, PostId), Post)> = Vec::new();
        let mut k: usize = 0;
        while k < post_keys.len()
            invariant
                k <= post_keys.len(),
                posts@.len() == k,
                post_keys@.to_set() == self@.posts.dom(),
                post_map(posts@) == self@.posts.restrict(post_keys@.subrange(0, k as int).to_set()),
            decreases post_keys.len() - k,
        {
            proof {
                assert(post_keys@.to_set().contains(post_keys@[k as int]));
                assert(self@.posts.contains_key(post_keys@[k as int]));
            }
            let key: (ThreadId, PostId) = post_keys[k];
            if let Some(post) = self.post_by_id(key.0, key.1) {
                let ghost before = posts@;
                posts.push((key, *post));
                proof {
                    assert(posts@.drop_last() =~= before);
                    lemma_prefix_set(post_keys@, k as int);
                    assert(post_map(posts@) =~= self@.posts.restrict(
                        post_keys@.subrange(0, k + 1).to_set(),
                    ));
                }
            }
            k += 1;
        }
        let moderators = self.moderator_keys();
        proof {
            moderators@.unique_seq_to_set();
            assert(ids@.subrange(0, ids.len() as int) =~= ids@);
            assert(thread_keys@.subrange(0, thread_keys.len() as int) =~= thread_keys@);
            assert(post_keys@.subrange(0, post_keys.len() as int) =~= post_keys@);
            assert(category_map(categories@) =~= self@.categories);
            assert(thread_map(threads@) =~= self@.threads);
            assert(post_map(posts@) =~= self@.posts);
        }
        Snapshot {
            categories,
            threads,
            posts,
            moderators,
            next_category_id: self.next_category_id(),
            category_counter: self.category_counter(),
            next_thread_id: self.next_thread_id(),
            next_post_id: self.next_post_id(),
        }
    }

    /// Takes a forum up again from a snapshot. There is a forum to take up
    /// exactly where the configuration is valid and the state that the
    /// snapshot stands for is consistent; the forum then holds that state.
    pub fn restore(config: Config, saved: &Snapshot) -> (res: Option<Module>)
        ensures
            res is Some == (config.valid() && saved.state().wf(config)),
            res matches Some(forum) ==> forum.wf() && forum.config() == config && forum@
                == saved.state(),
    {
        let mut forum = Module::blank(config);
        let mut i: usize = 0;
        while i < saved.categories.len()
            invariant
                i <= saved.categories.len(),
                forum.config() == config,
                forum@ == (ForumState {
                    categories: category_map(saved.categories@.subrange(0, i as int)),
                    ..ForumState::empty()
                }),
            decreases saved.categories.len() - i,
        {
            let id: CategoryId = saved.categories[i].0;
            forum.put_category(id, saved.categories[i].1.clone());
            proof {
                assert(saved.categories@.subrange(0, i + 1).drop_last()
                    =~= saved.categories@.subrange(0, i as int));
            }
            i += 1;
        }
        let mut j: usize = 0;
        while j < saved.threads.len()
            invariant
                j <= saved.threads.len(),
                forum.config() == config,
                forum@ == (ForumState {
                    categories: category_map(
                        saved.categories@.subrange(0, saved.categories.len() as int),
                    ),
                    threads: thread_map(saved.threads@.subrange(0, j as int)),
                    ..ForumState::empty()
                }),
            decreases saved.threads.len() - j,
        {
            let key: (CategoryId, ThreadId) = saved.threads[j].0;
            forum.put_thread(key.0, key.1, saved.threads[j].1.clone());
            proof {
                assert(saved.threads@.subrange(0, j + 1).drop_last() =~= saved.threads@.subrange(
                    0,
                    j as int,
                ));
            }
            j += 1;
        }
        let mut k: usize = 0;
        while k < saved.posts.len()
            invariant
                k <= saved.posts.len(),
                forum.config() == config,
                forum@ == (ForumState {
                    categories: category_map(
                        saved.categories@.subrange(0, saved.categories.len() as int),
                    ),
                    threads: thread_map(saved.threads@.subrange(0, saved.threads.len() as int)),
                    posts: post_map(saved.posts@.subrange(0, k as int)),
                    ..ForumState::empty()
                }),
            decreases saved.posts.len() - k,
        {
            let key: (ThreadId, PostId) = saved.posts[k].0;
            forum.put_post(key.0, key.1, saved.posts[k].1);
            proof {
                assert(saved.posts@.subrange(0, k + 1).drop_last() =~= saved.posts@.subrange(
                    0,
                    k as int,
                ));
            }
            k += 1;
        }
        proof {
            assert(saved.moderators@.subrange(0, 0).to_set() =~= Set::empty());
        }
        let mut m: usize = 0;
        while m < saved.moderators.len()
            invariant
                m <= saved.moderators.len(),
                forum.config() == config,
                forum@ == (ForumState {
                    categories: category_map(
                        saved.categories@.subrange(0, saved.categories.len() as int),
                    ),
                    threads: thread_map(saved.threads@.subrange(0, saved.threads.len() as int)),
                    posts: post_map(saved.posts@.subrange(0, saved.posts.len() as int)),
                    moderators: saved.moderators@.subrange(0, m as int).to_set(),
                    ..ForumState::empty()
                }),
            decreases saved.moderators.len() - m,
        {
            let pair: (CategoryId, ModeratorId) = saved.moderators[m];
            forum.assign(pair.0, pair.1);
            proof {
                lemma_prefix_set(saved.moderators@, m as int);
                assert(forum@.moderators =~= saved.moderators@.subrange(0, m + 1).to_set());
            }
            m += 1;
        }
        forum.set_counters(
            saved.next_category_id,
            saved.category_counter,
            saved.next_thread_id,
            saved.next_post_id,
        );
        proof {
            assert(saved.categories@.subrange(0, saved.categories.len() as int)
                =~= saved.categories@);
            assert(saved.threads@.subrange(0, saved.threads.len() as int) =~= saved.threads@);
            assert(saved.posts@.subrange(0, saved.posts.len() as int) =~= saved.posts@);
            assert(saved.moderators@.subrange(0, saved.moderators.len() as int)
                =~= saved.moderators@);
            assert(forum@ == saved.state());
        }
        if forum.is_consistent() {
            Some(forum)
        } else {
            None
        }
    }
}

/// The items up to and including the one at `i` are those before it and
/// that one.
pub proof fn lemma_prefix_set<K>(s: Seq<K>, i: int)
    requires
        0 <= i < s.len(),
    ensures
        s.subrange(0, i + 1).to_set() == s.subrange(0, i).to_set().insert(s[i]),
{
    let a = s.subrange(0, i);
    let b = s.subrange(0, i + 1);
    assert forall|x: K| b.to_set().contains(x) <==> a.to_set().insert(s[i]).contains(x) by {
        if b.contains(x) {
            let j = choose|j: int| 0 <= j < b.len() && b[j] == x;
            if j < i {
                assert(a[j] == x);
            }
        }
        if a.contains(x) {
            let j = choose|j: int| 0 <= j < a.len() && a[j] == x;
            assert(b[j] == x);
        }
        if x == s[i] {
            assert(b[i] == x);
        }
    }
    assert(b.to_set() =~= a.to_set().insert(s[i]));
}

} // verus!
