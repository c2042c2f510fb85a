//! Walking the category tree, and the checks every operation starts with:
//! who may act where, and what may still be changed.

use crate::module::Module;
use crate::rules::{
    authorize_guard, category_guard, moderation_guard, post_guard, role_error, thread_guard,
};
use crate::tree::{lemma_path_head, lemma_walk_is_path};
use crate::types::{
    Category, CategoryId, Error, ModeratorId, Post, PostId, PrivilegedActor, Thread, ThreadId,
};
use vstd::prelude::*;

verus! {

/// A path through the tree with the category found at each step: the
/// category asked for first, its root last.
pub type CategoryTreePath = Vec<(CategoryId, Category)>;

/// Whether one of the categories of the path is archived.
pub open spec fn any_archived(path: Seq<(CategoryId, Category)>) -> bool {
    exists|i: int| 0 <= i < path.len() && (#[trigger] path[i]).1.archived
}

/// Tells whether the path allows changes below it: it does unless one of its
/// categories is archived.
pub fn ensure_can_mutate_in_path_leaf(category_tree_path: &CategoryTreePath) -> (res: Result<
    (),
    Error,
>)
    ensures
        res == if any_archived(category_tree_path@) {
            Err::<(), Error>(Error::AncestorCategoryImmutable)
        } else {
            Ok(())
        },
{
    let mut i: usize = 0;
    while i < category_tree_path.len()
        invariant
            i <= category_tree_path.len(),
            forall|j: int| 0 <= j < i ==> !(#[trigger] category_tree_path@[j]).1.archived,
        decreases category_tree_path.len() - i,
    {
        if category_tree_path[i].1.archived {
            return Err(Error::AncestorCategoryImmutable);
        }
        i += 1;
    }
    Ok(())
}

/// Tells whether the account was found to carry the role the actor claims.
pub fn ensure_actor_role(role_confirmed: bool, actor: &PrivilegedActor) -> (res: Result<(), Error>)
    ensures
        res == if role_confirmed {
            Ok::<(), Error>(())
        } else {
            Err(role_error(*actor))
        },
{
    if role_confirmed {
        Ok(())
    } else {
        match actor {
            PrivilegedActor::Lead => Err(Error::OriginNotForumLead),
            PrivilegedActor::Moderator(_) => Err(Error::ModeratorIdNotMatchAccount),
        }
    }
}

/// The ids of the categories of a path, in order.
pub open spec fn ids_of(path: Seq<(CategoryId, Category)>) -> Seq<CategoryId> {
    path.map_values(|entry: (CategoryId, Category)| entry.0)
}

impl Module {
    /// Whether the path passes through the categories named, in order, each
    /// step with the category stored under that id.
    pub open spec fn holds(&self, path: Seq<(CategoryId, Category)>, ids: Seq<CategoryId>) -> bool {
        &&& ids_of(path) == ids
        &&& forall|i: int|
            0 <= i < path.len() ==> {
                &&& self@.categories.contains_key((#[trigger] path[i]).0)
                &&& path[i].1@ == self@.categories[path[i].0]
            }
    }

    /// Whether the path is the path of `c` in this forum, each step with the
    /// category stored there.
    pub open spec fn is_path_of(&self, path: Seq<(CategoryId, Category)>, c: CategoryId) -> bool {
        self.holds(path, self@.path(c))
    }

    /// The way up from a category to its root, the category first. The walk
    /// goes through no more categories than the tree may be deep (one at
    /// least). Where the category does not exist there is no way up; where a
    /// category on the way names a parent that does not exist, or the way is
    /// longer than allowed, the stored tree is broken and the walk says so.
    /// In a consistent forum neither of the two happens to a category that
    /// exists.
    pub fn build_category_tree_path(&self, category_id: CategoryId) -> (res: Result<
        CategoryTreePath,
        Error,
    >)
        ensures
            match res {
                Ok(path) => {
                    &&& self@.walk(category_id, self.config().path_cap() as nat) is Some
                    &&& self.holds(
                        path@,
                        self@.walk(category_id, self.config().path_cap() as nat)->0,
                    )
                },
                Err(e) => {
                    &&& self@.walk(category_id, self.config().path_cap() as nat) is None
                    &&& e == if self@.categories.contains_key(category_id) {
                        Error::CategoryTreeInconsistent
                    } else {
                        Error::CategoryDoesNotExist
                    }
                },
            },
            self@.tree_linked() && self@.categories.contains_key(category_id) ==> {
                &&& res is Ok <==> self@.path(category_id).len() <= self.config().path_cap()
                &&& res matches Ok(path) ==> self.is_path_of(path@, category_id) && path@.len()
                    >= 1
            },
    {
        let max_depth: u64 = self.configuration().max_category_depth;
        let cap: u64 = if max_depth == 0 {
            1
        } else {
            max_depth
        };
        let mut path: CategoryTreePath = Vec::new();
        let mut current: CategoryId = category_id;
        let ghost whole = self@.walk(category_id, cap as nat);
        proof {
            assert(ids_of(path@) =~= Seq::<CategoryId>::empty());
            if self@.walk(current, cap as nat) is Some {
                assert(Seq::<CategoryId>::empty() + self@.walk(current, cap as nat)->0
                    =~= self@.walk(current, cap as nat)->0);
            }
            if self@.tree_linked() && self@.categories.contains_key(category_id) {
                lemma_walk_is_path(self@, category_id, cap as nat);
                lemma_path_head(self@, category_id);
            }
        }
        loop
            invariant
                cap == self.config().path_cap(),
                cap >= 1,
                path@.len() <= cap,
                whole == self@.walk(category_id, cap as nat),
                path@.len() > 0 ==> self@.categories.contains_key(category_id),
                path@.len() == 0 ==> current == category_id,
                match self@.walk(current, (cap - path@.len()) as nat) {
                    Some(rest) => whole == Some(ids_of(path@) + rest),
                    None => whole is None,
                },
                forall|i: int|
                    0 <= i < path@.len() ==> {
                        &&& self@.categories.contains_key((#[trigger] path@[i]).0)
                        &&& path@[i].1@ == self@.categories[path@[i].0]
                    },
                self@.tree_linked() && self@.categories.contains_key(category_id) ==> {
                    &&& whole is Some <==> self@.path(category_id).len() <= cap
                    &&& whole is Some ==> whole->0 == self@.path(category_id)
                    &&& self@.path(category_id).len() >= 1
                },
            decreases cap - path@.len(),
        {
            let taken: usize = path.len();
            if taken as u64 >= cap {
                return Err(Error::CategoryTreeInconsistent);
            }
            let category = match self.category_by_id(current) {
                Some(category) => category,
                None => {
                    if taken == 0 {
                        return Err(Error::CategoryDoesNotExist);
                    }
                    return Err(Error::CategoryTreeInconsistent);
                },
            };
            let ghost before = path@;
            path.push((current, category.clone()));
            proof {
                assert(ids_of(path@) =~= ids_of(before) + seq![current]);
            }
            match category.parent_category_id {
                Some(parent_category_id) => {
                    proof {
                        let rest = self@.walk(parent_category_id, (cap - path@.len()) as nat);
                        if rest is Some {
                            assert(ids_of(before) + (seq![current] + rest->0) =~= ids_of(path@)
                                + rest->0);
                        }
                    }
                    current = parent_category_id;
                },
                None => {
                    return Ok(path);
                },
            }
        }
    }

    /// Whether the moderator is assigned to one of the categories of the
    /// path.
    pub open spec fn assigned_on(&self, path: Seq<(CategoryId, Category)>, m: ModeratorId) -> bool {
        exists|i: int| 0 <= i < path.len() && self@.moderators.contains(((#[trigger] path[i]).0, m))
    }

    /// Tells whether the moderator is assigned somewhere on the path.
    pub fn check_moderator(
        &self,
        category_tree_path: &CategoryTreePath,
        moderator_id: ModeratorId,
    ) -> (res: Result<(), Error>)
        ensures
            res == if self.assigned_on(category_tree_path@, moderator_id) {
                Ok::<(), Error>(())
            } else {
                Err(Error::ModeratorCantUpdateCategory)
            },
    {
        let mut i: usize = 0;
        while i < category_tree_path.len()
            invariant
                i <= category_tree_path.len(),
                forall|j: int|
                    0 <= j < i ==> !self@.moderators.contains(
                        ((#[trigger] category_tree_path@[j]).0, moderator_id),
                    ),
            decreases category_tree_path.len() - i,
        {
            if self.category_by_moderator(category_tree_path[i].0, moderator_id) {
                return Ok(());
            }
            i += 1;
        }
        Err(Error::ModeratorCantUpdateCategory)
    }

    /// A path of this forum has an archived category exactly where the
    /// category it starts from, or one above it, is archived.
    pub proof fn lemma_path_archived(&self, path: Seq<(CategoryId, Category)>, c: CategoryId)
        requires
            self.is_path_of(path, c),
        ensures
            any_archived(path) == self@.chain_archived(c),
    {
        if any_archived(path) {
            let i = choose|i: int| 0 <= i < path.len() && (#[trigger] path[i]).1.archived;
            assert(self@.archived_at(self@.path(c)[i]));
        }
        if self@.chain_archived(c) {
            let i = choose|i: int|
                0 <= i < self@.path(c).len() && self@.archived_at(#[trigger] self@.path(c)[i]);
            assert(path[i].1.archived);
        }
    }

    /// A moderator is assigned on a path of this forum exactly where they are
    /// assigned to the category it starts from or to one above it.
    pub proof fn lemma_path_assigned(
        &self,
        path: Seq<(CategoryId, Category)>,
        c: CategoryId,
        m: ModeratorId,
    )
        requires
            self.is_path_of(path, c),
        ensures
            self.assigned_on(path, m) == self@.chain_moderated_by(c, m),
    {
        if self.assigned_on(path, m) {
            let i = choose|i: int|
                0 <= i < path.len() && self@.moderators.contains(((#[trigger] path[i]).0, m));
            assert(self@.moderators.contains((self@.path(c)[i], m)));
        }
        if self@.chain_moderated_by(c, m) {
            let i = choose|i: int|
                0 <= i < self@.path(c).len() && self@.moderators.contains(
                    (#[trigger] self@.path(c)[i], m),
                );
            assert(self@.moderators.contains((path[i].0, m)));
        }
    }

    /// Tells whether the category exists and neither it nor any category
    /// above it is archived; answers with the category.
    pub fn ensure_category_is_mutable(&self, category_id: CategoryId) -> (res: Result<
        Category,
        Error,
    >)
        requires
            self.wf(),
        ensures
            match res {
                Ok(category) => category_guard(self@, category_id) is None && category@
                    == self@.categories[category_id],
                Err(e) => category_guard(self@, category_id) == Some(e),
            },
    {
        let mut category_tree_path = match self.build_category_tree_path(category_id) {
            Ok(path) => path,
            Err(e) => {
                return Err(e);
            },
        };
        proof {
            self.lemma_path_archived(category_tree_path@, category_id);
            lemma_path_head(self@, category_id);
        }
        match ensure_can_mutate_in_path_leaf(&category_tree_path) {
            Err(e) => Err(e),
            Ok(_) => {
                let first = category_tree_path.swap_remove(0);
                Ok(first.1)
            },
        }
    }

    /// Tells whether the actor may act on the category, and answers with the
    /// category: it has to exist; the lead may act on every category, a
    /// moderator where assigned to the category or to one above it.
    pub fn ensure_can_moderate_category_path(
        &self,
        actor: &PrivilegedActor,
        category_id: CategoryId,
    ) -> (res: Result<Category, Error>)
        requires
            self.wf(),
        ensures
            match res {
                Ok(category) => authorize_guard(self@, *actor, category_id) is None && category@
                    == self@.categories[category_id],
                Err(e) => authorize_guard(self@, *actor, category_id) == Some(e),
            },
    {
        let mut category_tree_path = match self.build_category_tree_path(category_id) {
            Ok(path) => path,
            Err(e) => {
                return Err(e);
            },
        };
        proof {
            lemma_path_head(self@, category_id);
        }
        match actor {
            PrivilegedActor::Lead => {},
            PrivilegedActor::Moderator(moderator_id) => {
                proof {
                    self.lemma_path_assigned(category_tree_path@, category_id, *moderator_id);
                }
                if let Err(e) = self.check_moderator(&category_tree_path, *moderator_id) {
                    return Err(e);
                }
            },
        }
        let first = category_tree_path.swap_remove(0);
        Ok(first.1)
    }

    /// Tells whether the actor, with the role confirmed or not, may moderate
    /// in the category, and answers with the category.
    pub fn ensure_can_moderate_category(
        &self,
        role_confirmed: bool,
        actor: &PrivilegedActor,
        category_id: CategoryId,
    ) -> (res: Result<Category, Error>)
        requires
            self.wf(),
        ensures
            match res {
                Ok(category) => moderation_guard(self@, role_confirmed, *actor, category_id)
                    is None && category@ == self@.categories[category_id],
                Err(e) => moderation_guard(self@, role_confirmed, *actor, category_id) == Some(e),
            },
    {
        match ensure_actor_role(role_confirmed, actor) {
            Err(e) => Err(e),
            Ok(_) => self.ensure_can_moderate_category_path(actor, category_id),
        }
    }

    /// Finds the thread stored under the category and id.
    pub fn ensure_thread_exists(&self, category_id: CategoryId, thread_id: ThreadId) -> (res:
        Result<&Thread, Error>)
        ensures
            match res {
                Ok(thread) => self@.threads.contains_key((category_id, thread_id)) && thread@
                    == self@.threads[(category_id, thread_id)],
                Err(e) => e == Error::ThreadDoesNotExist && !self@.threads.contains_key(
                    (category_id, thread_id),
                ),
            },
    {
        match self.thread_by_id(category_id, thread_id) {
            Some(thread) => Ok(thread),
            None => Err(Error::ThreadDoesNotExist),
        }
    }

    /// Finds the thread and tells whether it may be changed: it may unless it
    /// or a category above it is archived. Answers with the thread's category
    /// and the thread.
    pub fn ensure_thread_is_mutable(&self, category_id: CategoryId, thread_id: ThreadId) -> (res:
        Result<(Category, &Thread), Error>)
        requires
            self.wf(),
        ensures
            match res {
                Ok((category, thread)) => {
                    &&& thread_guard(self@, category_id, thread_id) is None
                    &&& self@.categories.contains_key(category_id)
                    &&& category@ == self@.categories[category_id]
                    &&& thread@ == self@.threads[(category_id, thread_id)]
                },
                Err(e) => thread_guard(self@, category_id, thread_id) == Some(e),
            },
    {
        let thread = match self.ensure_thread_exists(category_id, thread_id) {
            Ok(thread) => thread,
            Err(e) => {
                return Err(e);
            },
        };
        if thread.archived {
            return Err(Error::ThreadImmutable);
        }
        match self.ensure_category_is_mutable(category_id) {
            Ok(category) => Ok((category, thread)),
            Err(e) => Err(e),
        }
    }

    /// Finds the post stored under the thread and id.
    pub fn ensure_post_exists(&self, thread_id: ThreadId, post_id: PostId) -> (res: Result<
        Post,
        Error,
    >)
        ensures
            match res {
                Ok(post) => self@.posts.contains_key((thread_id, post_id)) && post
                    == self@.posts[(thread_id, post_id)],
                Err(e) => e == Error::PostDoesNotExist && !self@.posts.contains_key(
                    (thread_id, post_id),
                ),
            },
    {
        match self.post_by_id(thread_id, post_id) {
            Some(post) => Ok(*post),
            None => Err(Error::PostDoesNotExist),
        }
    }

    /// Finds the post and tells whether it may be changed: it may where its
    /// thread may.
    pub fn ensure_post_is_mutable(
        &self,
        category_id: CategoryId,
        thread_id: ThreadId,
        post_id: PostId,
    ) -> (res: Result<Post, Error>)
        requires
            self.wf(),
        ensures
            match res {
                Ok(post) => post_guard(self@, category_id, thread_id, post_id) is None && post
                    == self@.posts[(thread_id, post_id)],
                Err(e) => post_guard(self@, category_id, thread_id, post_id) == Some(e),
            },
    {
        let post = match self.ensure_post_exists(thread_id, post_id) {
            Ok(post) => post,
            Err(e) => {
                return Err(e);
            },
        };
        match self.ensure_thread_is_mutable(category_id, thread_id) {
            Ok(_) => Ok(post),
            Err(e) => Err(e),
        }
    }
}

} // verus!
