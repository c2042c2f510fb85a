//! Checking at run time that stored state is consistent, so that a forum can
//! be taken up again from what was saved of it.

use crate::module::Module;
use crate::preserve::lemma_filter_insert;
use crate::tree::lemma_path_head;
use crate::types::{CategoryId, ModeratorId, PostId, ThreadId};
use vstd::prelude::*;

verus! {

/// How many of the items satisfy the test.
pub open spec fn count_where<K>(s: Seq<K>, f: spec_fn(K) -> bool) -> nat
    decreases s.len(),
{
    if s.len() == 0 {
        0
    } else {
        count_where(s.drop_last(), f) + if f(s.last()) {
            1nat
        } else {
            0nat
        }
    }
}

/// Of items that are all different, as many satisfy a test as the set of
/// them has members that do.
pub proof fn lemma_count_where<K>(s: Seq<K>, f: spec_fn(K) -> bool)
    requires
        s.no_duplicates(),
    ensures
        s.to_set().finite(),
        s.to_set().len() == s.len(),
        s.to_set().filter(f).len() == count_where(s, f),
        count_where(s, f) <= s.len(),
    decreases s.len(),
{
    s.unique_seq_to_set();
    if s.len() == 0 {
        assert(s.to_set() =~= Set::<K>::empty());
        assert(s.to_set().filter(f) =~= Set::<K>::empty());
    } else {
        let rest = s.drop_last();
        let x = s.last();
        lemma_count_where(rest, f);
        assert(s.to_set() =~= rest.to_set().insert(x)) by {
            assert forall|k: K| s.to_set().contains(k) <==> rest.to_set().insert(x).contains(
                k,
            ) by {
                if s.contains(k) {
                    let i = choose|i: int| 0 <= i < s.len() && s[i] == k;
                    if i < s.len() - 1 {
                        assert(rest[i] == k);
                    }
                }
                if rest.contains(k) {
                    let i = choose|i: int| 0 <= i < rest.len() && rest[i] == k;
                    assert(s[i] == k);
                }
                if k == x {
                    assert(s[s.len() - 1] == k);
                }
            }
        }
        assert(!rest.to_set().contains(x)) by {
            if rest.contains(x) {
                let i = choose|i: int| 0 <= i < rest.len() && rest[i] == x;
                assert(s[i] == s[s.len() - 1]);
            }
        }
        lemma_filter_insert(rest.to_set(), f, x);
    }
}

/// Counting over one item more.
pub proof fn lemma_count_step<K>(s: Seq<K>, i: int, f: spec_fn(K) -> bool)
    requires
        0 <= i < s.len(),
    ensures
        count_where(s.subrange(0, i + 1), f) == count_where(s.subrange(0, i), f) + if f(s[i]) {
            1nat
        } else {
            0nat
        },
{
    assert(s.subrange(0, i + 1).drop_last() =~= s.subrange(0, i));
}

/// The test whether a key has the given first part.
pub open spec fn has_first(first: u64) -> spec_fn((u64, u64)) -> bool {
    |k: (u64, u64)| k.0 == first
}

/// Counts the keys whose first part is `first`.
pub fn count_with_first(keys: &Vec<(u64, u64)>, first: u64) -> (n: usize)
    requires
        keys@.no_duplicates(),
    ensures
        n == keys@.to_set().filter(has_first(first)).len(),
{
    let mut n: usize = 0;
    let mut i: usize = 0;
    while i < keys.len()
        invariant
            i <= keys.len(),
            n <= i,
            n == count_where(keys@.subrange(0, i as int), has_first(first)),
        decreases keys.len() - i,
    {
        proof {
            lemma_count_step(keys@, i as int, has_first(first));
        }
        if keys[i].0 == first {
            n += 1;
        }
        i += 1;
    }
    proof {
        assert(keys@.subrange(0, keys.len() as int) =~= keys@);
        lemma_count_where(keys@, has_first(first));
    }
    n
}

impl Module {
    /// The test whether a category has `c` as its parent.
    pub open spec fn child_of(&self, c: CategoryId) -> spec_fn(CategoryId) -> bool {
        |k: CategoryId| self@.categories[k].parent_category_id == Some(c)
    }

    /// Counts the categories whose parent is `c`.
    pub fn count_subcategories(&self, ids: &Vec<CategoryId>, c: CategoryId) -> (n: usize)
        requires
            ids@.no_duplicates(),
            ids@.to_set() == self@.categories.dom(),
        ensures
            n == self@.subcategories_of(c).len(),
    {
        let mut n: usize = 0;
        let mut i: usize = 0;
        while i < ids.len()
            invariant
                i <= ids.len(),
                n <= i,
                n == count_where(ids@.subrange(0, i as int), self.child_of(c)),
                ids@.to_set() == self@.categories.dom(),
            decreases ids.len() - i,
        {
            proof {
                lemma_count_step(ids@, i as int, self.child_of(c));
                assert(ids@.to_set().contains(ids@[i as int]));
                assert(self@.categories.contains_key(ids@[i as int]));
            }
            if let Some(category) = self.category_by_id(ids[i]) {
                if category.parent_category_id == Some(c) {
                    n += 1;
                }
            }
            i += 1;
        }
        proof {
            assert(ids@.subrange(0, ids.len() as int) =~= ids@);
            lemma_count_where(ids@, self.child_of(c));
            assert(ids@.to_set().filter(self.child_of(c)) =~= self@.subcategories_of(c));
        }
        n
    }

    /// Tells whether the links of the category tree are in order.
    pub fn check_tree(&self, ids: &Vec<CategoryId>) -> (ok: bool)
        requires
            ids@.no_duplicates(),
            ids@.to_set() == self@.categories.dom(),
        ensures
            ok == self@.tree_linked(),
    {
        proof {
            lemma_count_where(ids@, |k: CategoryId| true);
        }
        if ids.len() as u64 != self.category_counter() {
            return false;
        }
        let mut i: usize = 0;
        while i < ids.len()
            invariant
                i <= ids.len(),
                ids@.to_set() == self@.categories.dom(),
                forall|j: int|
                    0 <= j < i ==> {
                        &&& (#[trigger] ids@[j]) < self@.next_category_id
                        &&& match self@.categories[ids@[j]].parent_category_id {
                            Some(p) => p < ids@[j] && self@.categories.contains_key(p),
                            None => true,
                        }
                    },
            decreases ids.len() - i,
        {
            let c: CategoryId = ids[i];
            proof {
                assert(ids@.to_set().contains(ids@[i as int]));
                assert(self@.categories.contains_key(c));
            }
            if c >= self.next_category_id() {
                return false;
            }
            if let Some(category) = self.category_by_id(c) {
                if let Some(p) = category.parent_category_id {
                    if p >= c || self.category_by_id(p).is_none() {
                        return false;
                    }
                }
            }
            i += 1;
        }
        proof {
            assert forall|c: CategoryId| #[trigger] self@.categories.contains_key(c) implies c
                < self@.next_category_id && match self@.categories[c].parent_category_id {
                Some(p) => p < c && self@.categories.contains_key(p),
                None => true,
            } by {
                assert(ids@.to_set().contains(c));
                let j = choose|j: int| 0 <= j < ids@.len() && ids@[j] == c;
                assert(ids@[j] == c);
            }
        }
        true
    }

    /// Tells whether no path is longer than the tree may be deep.
    pub fn check_depth(&self, ids: &Vec<CategoryId>) -> (ok: bool)
        requires
            self@.tree_linked(),
            ids@.no_duplicates(),
            ids@.to_set() == self@.categories.dom(),
        ensures
            ok == self@.depth_bounded(self.config().max_category_depth),
    {
        let max_depth: u64 = self.configuration().max_category_depth;
        let mut i: usize = 0;
        while i < ids.len()
            invariant
                i <= ids.len(),
                self@.tree_linked(),
                max_depth == self.config().max_category_depth,
                ids@.to_set() == self@.categories.dom(),
                forall|j: int|
                    0 <= j < i ==> self@.path(#[trigger] ids@[j]).len() <= max_depth || self@.path(
                        ids@[j],
                    ).len() == 1,
            decreases ids.len() - i,
        {
            proof {
                assert(ids@.to_set().contains(ids@[i as int]));
            }
            proof {
                lemma_path_head(self@, ids@[i as int]);
            }
            if self.build_category_tree_path(ids[i]).is_err() {
                return false;
            }
            i += 1;
        }
        proof {
            assert forall|c: CategoryId| #[trigger]
                self@.categories.contains_key(c) implies self@.path(c).len() <= max_depth
                || self@.path(c).len() == 1 by {
                assert(ids@.to_set().contains(c));
                let j = choose|j: int| 0 <= j < ids@.len() && ids@[j] == c;
                assert(ids@[j] == c);
            }
        }
        true
    }

    /// Tells whether every category's counters equal what they count and
    /// every assignment is to a category id that was given out.
    pub fn check_counters(
        &self,
        ids: &Vec<CategoryId>,
        thread_keys: &Vec<(CategoryId, ThreadId)>,
        moderator_keys: &Vec<(CategoryId, ModeratorId)>,
    ) -> (ok: bool)
        requires
            ids@.no_duplicates(),
            ids@.to_set() == self@.categories.dom(),
            thread_keys@.no_duplicates(),
            thread_keys@.to_set() == self@.threads.dom(),
            moderator_keys@.no_duplicates(),
            moderator_keys@.to_set() == self@.moderators,
        ensures
            ok == self@.counters_exact(),
    {
        proof {
            lemma_count_where(thread_keys@, |k: (u64, u64)| true);
            lemma_count_where(moderator_keys@, |k: (u64, u64)| true);
        }
        let mut m: usize = 0;
        while m < moderator_keys.len()
            invariant
                m <= moderator_keys.len(),
                moderator_keys@.to_set() == self@.moderators,
                forall|j: int|
                    0 <= j < m ==> (#[trigger] moderator_keys@[j]).0 < self@.next_category_id,
            decreases moderator_keys.len() - m,
        {
            proof {
                assert(moderator_keys@.to_set().contains(moderator_keys@[m as int]));
            }
            if moderator_keys[m].0 >= self.next_category_id() {
                return false;
            }
            m += 1;
        }
        proof {
            assert forall|k: (CategoryId, ModeratorId)| #[trigger]
                self@.moderators.contains(k) implies k.0 < self@.next_category_id by {
                assert(moderator_keys@.to_set().contains(k));
                let j = choose|j: int| 0 <= j < moderator_keys@.len() && moderator_keys@[j] == k;
                assert(moderator_keys@[j] == k);
            }
        }
        let mut i: usize = 0;
        while i < ids.len()
            invariant
                i <= ids.len(),
                ids@.no_duplicates(),
                ids@.to_set() == self@.categories.dom(),
                thread_keys@.no_duplicates(),
                thread_keys@.to_set() == self@.threads.dom(),
                moderator_keys@.no_duplicates(),
                moderator_keys@.to_set() == self@.moderators,
                forall|j: int|
                    0 <= j < i ==> {
                        &&& self@.categories[#[trigger] ids@[j]].num_direct_subcategories
                            == self@.subcategories_of(ids@[j]).len()
                        &&& self@.categories[ids@[j]].num_direct_threads == self@.threads_of(
                            ids@[j],
                        ).len()
                        &&& self@.categories[ids@[j]].num_direct_moderators
                            == self@.moderators_of(ids@[j]).len()
                    },
            decreases ids.len() - i,
        {
            let c: CategoryId = ids[i];
            proof {
                assert(ids@.to_set().contains(ids@[i as int]));
                assert(self@.categories.contains_key(c));
            }
            let subcategories: usize = self.count_subcategories(ids, c);
            let threads: usize = count_with_first(thread_keys, c);
            let moderators: usize = count_with_first(moderator_keys, c);
            proof {
                assert(self@.threads_of(c) =~= thread_keys@.to_set().filter(has_first(c)));
                assert(self@.moderators_of(c) =~= moderator_keys@.to_set().filter(has_first(c)));
                assert(self@.categories.contains_key(c));
            }
            if let Some(category) = self.category_by_id(c) {
                if category.num_direct_subcategories as usize != subcategories
                    || category.num_direct_threads as usize != threads
                    || category.num_direct_moderators as usize != moderators {
                    return false;
                }
            }
            i += 1;
        }
        proof {
            assert forall|c: CategoryId| #[trigger] self@.categories.contains_key(c) implies {
                &&& self@.categories[c].num_direct_subcategories == self@.subcategories_of(c).len()
                &&& self@.categories[c].num_direct_threads == self@.threads_of(c).len()
                &&& self@.categories[c].num_direct_moderators == self@.moderators_of(c).len()
            } by {
                assert(ids@.to_set().contains(c));
                let j = choose|j: int| 0 <= j < ids@.len() && ids@[j] == c;
                assert(ids@[j] == c);
            }
        }
        true
    }

    /// Tells whether every thread lives in an existing category, records the
    /// category it is stored under, has an id that was given out and is used
    /// once only, and counts its posts exactly.
    pub fn check_threads(
        &self,
        thread_keys: &Vec<(CategoryId, ThreadId)>,
        post_keys: &Vec<(ThreadId, PostId)>,
    ) -> (ok: bool)
        requires
            thread_keys@.no_duplicates(),
            thread_keys@.to_set() == self@.threads.dom(),
            post_keys@.no_duplicates(),
            post_keys@.to_set() == self@.posts.dom(),
        ensures
            ok == self@.threads_consistent(),
    {
        proof {
            lemma_count_where(post_keys@, |k: (u64, u64)| true);
        }
        let mut i: usize = 0;
        while i < thread_keys.len()
            invariant
                i <= thread_keys.len(),
                thread_keys@.no_duplicates(),
                thread_keys@.to_set() == self@.threads.dom(),
                post_keys@.no_duplicates(),
                post_keys@.to_set() == self@.posts.dom(),
                forall|j: int|
                    0 <= j < i ==> {
                        &&& self@.categories.contains_key((#[trigger] thread_keys@[j]).0)
                        &&& thread_keys@[j].1 < self@.next_thread_id
                        &&& self@.threads[thread_keys@[j]].category_id == thread_keys@[j].0
                        &&& self@.threads[thread_keys@[j]].num_direct_posts == self@.posts_of(
                            thread_keys@[j].1,
                        ).len()
                    },
                forall|j: int, l: int|
                    0 <= j < i && 0 <= l < thread_keys@.len() && (#[trigger] thread_keys@[j]).1 == (
                    #[trigger] thread_keys@[l]).1 ==> j == l,
            decreases thread_keys.len() - i,
        {
            let key: (CategoryId, ThreadId) = thread_keys[i];
            proof {
                assert(thread_keys@.to_set().contains(thread_keys@[i as int]));
                assert(self@.threads.contains_key(key));
            }
            if self.category_by_id(key.0).is_none() || key.1 >= self.next_thread_id() {
                return false;
            }
            let posts: usize = count_with_first(post_keys, key.1);
            proof {
                assert(self@.posts_of(key.1) =~= post_keys@.to_set().filter(has_first(key.1)));
            }
            if let Some(thread) = self.thread_by_id(key.0, key.1) {
                if thread.category_id != key.0 || thread.num_direct_posts as usize != posts {
                    return false;
                }
            }
            let mut l: usize = 0;
            while l < thread_keys.len()
                invariant
                    l <= thread_keys.len(),
                    i < thread_keys.len(),
                    key == thread_keys@[i as int],
                    thread_keys@.no_duplicates(),
                    thread_keys@.to_set() == self@.threads.dom(),
                    forall|x: int|
                        0 <= x < l && (#[trigger] thread_keys@[x]).1 == key.1 ==> x == i,
                decreases thread_keys.len() - l,
            {
                if l != i && thread_keys[l].1 == key.1 {
                    proof {
                        assert(thread_keys@.to_set().contains(thread_keys@[l as int]));
                        assert(thread_keys@.to_set().contains(thread_keys@[i as int]));
                        assert(thread_keys@[l as int] != thread_keys@[i as int]);
                        assert(self@.threads.contains_key(thread_keys@[l as int]));
                        assert(self@.threads.contains_key(thread_keys@[i as int]));
                    }
                    return false;
                }
                l += 1;
            }
            i += 1;
        }
        proof {
            assert forall|k: (CategoryId, ThreadId)| #[trigger]
                self@.threads.contains_key(k) implies {
                &&& self@.categories.contains_key(k.0)
                &&& k.1 < self@.next_thread_id
                &&& self@.threads[k].category_id == k.0
                &&& self@.threads[k].num_direct_posts == self@.posts_of(k.1).len()
            } by {
                assert(thread_keys@.to_set().contains(k));
                let j = choose|j: int| 0 <= j < thread_keys@.len() && thread_keys@[j] == k;
                assert(thread_keys@[j] == k);
            }
            assert forall|k1: (CategoryId, ThreadId), k2: (CategoryId, ThreadId)|
                #![trigger self@.threads.contains_key(k1), self@.threads.contains_key(k2)]
                self@.threads.contains_key(k1) && self@.threads.contains_key(k2) && k1.1
                    == k2.1 implies k1 == k2 by {
                assert(thread_keys@.to_set().contains(k1));
                assert(thread_keys@.to_set().contains(k2));
                let j = choose|j: int| 0 <= j < thread_keys@.len() && thread_keys@[j] == k1;
                let l = choose|l: int| 0 <= l < thread_keys@.len() && thread_keys@[l] == k2;
                assert(thread_keys@[j].1 == thread_keys@[l].1);
            }
        }
        true
    }

    /// Tells whether every post records the thread it is stored under and
    /// has ids that were given out.
    pub fn check_posts(&self, post_keys: &Vec<(ThreadId, PostId)>) -> (ok: bool)
        requires
            post_keys@.no_duplicates(),
            post_keys@.to_set() == self@.posts.dom(),
        ensures
            ok == self@.posts_consistent(),
    {
        let mut i: usize = 0;
        while i < post_keys.len()
            invariant
                i <= post_keys.len(),
                post_keys@.to_set() == self@.posts.dom(),
                forall|j: int|
                    0 <= j < i ==> {
                        &&& (#[trigger] post_keys@[j]).0 < self@.next_thread_id
                        &&& post_keys@[j].1 < self@.next_post_id
                        &&& self@.posts[post_keys@[j]].thread_id == post_keys@[j].0
                    },
            decreases post_keys.len() - i,
        {
            let key: (ThreadId, PostId) = post_keys[i];
            proof {
                assert(post_keys@.to_set().contains(post_keys@[i as int]));
                assert(self@.posts.contains_key(key));
            }
            if key.0 >= self.next_thread_id() || key.1 >= self.next_post_id() {
                return false;
            }
            if let Some(post) = self.post_by_id(key.0, key.1) {
                if post.thread_id != key.0 {
                    return false;
                }
            }
            i += 1;
        }
        proof {
            assert forall|k: (ThreadId, PostId)| #[trigger] self@.posts.contains_key(k) implies {
                &&& k.0 < self@.next_thread_id
                &&& k.1 < self@.next_post_id
                &&& self@.posts[k].thread_id == k.0
            } by {
                assert(post_keys@.to_set().contains(k));
                let j = choose|j: int| 0 <= j < post_keys@.len() && post_keys@[j] == k;
                assert(post_keys@[j] == k);
            }
        }
        true
    }

    /// Tells whether the forum's state is consistent.
    pub fn is_consistent(&self) -> (ok: bool)
        ensures
            ok == self.wf(),
    {
        if !self.configuration().is_valid() {
            return false;
        }
        let ids = self.category_ids();
        let thread_keys = self.thread_keys();
        let post_keys = self.post_keys();
        let moderator_keys = self.moderator_keys();
        self.check_tree(&ids) && self.check_depth(&ids) && self.check_counters(
            &ids,
            &thread_keys,
            &moderator_keys,
        ) && self.check_threads(&thread_keys, &post_keys) && self.check_posts(&post_keys)
    }
}

} // verus!
