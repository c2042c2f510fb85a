//! Operations on categories and on who moderates them.

use crate::events::{answers, Event, EventView};
use crate::module::Module;
use crate::permission::{CategoryTreePath, ensure_actor_role, ensure_can_mutate_in_path_leaf};
use crate::preserve::{
    lemma_category_archival_wf, lemma_create_category_wf, lemma_delete_category_wf,
    lemma_membership_wf, lemma_stickied_wf,
};
use crate::rules::{
    category_archival_guard, category_archival_next, create_category_guard, create_category_next,
    delete_category_guard, delete_category_next, membership_guard, membership_next,
    moderation_guard, stickied_guard, stickied_next, subcategory_path_guard,
};
use crate::types::{
    Category, CategoryId, ContentHash, Error, ModeratorId, PrivilegedActor, ThreadId,
};
use vstd::prelude::*;

verus! {

/// Tells whether a bounded collection that holds `current_amount` items may
/// take one more under the given ceiling.
pub fn ensure_map_limits(current_amount: u64, limit: u64) -> (res: Result<(), Error>)
    ensures
        res == if current_amount >= limit {
            Err::<(), Error>(Error::MapSizeLimit)
        } else {
            Ok(())
        },
{
    if current_amount >= limit {
        return Err(Error::MapSizeLimit);
    }
    Ok(())
}

impl Module {
    /// Finds the category and builds the path from it to its root.
    pub fn ensure_valid_category_and_build_category_tree_path(
        &self,
        category_id: CategoryId,
    ) -> (res: Result<CategoryTreePath, Error>)
        requires
            self.wf(),
        ensures
            match res {
                Ok(path) => self@.categories.contains_key(category_id) && self.is_path_of(
                    path@,
                    category_id,
                ),
                Err(e) => e == Error::CategoryDoesNotExist && !self@.categories.contains_key(
                    category_id,
                ),
            },
    {
        self.build_category_tree_path(category_id)
    }

    /// Tells whether the tree may grow below the given category: the
    /// category has to exist, the tree may not get deeper than configured,
    /// and nothing on the way up may be archived.
    pub fn ensure_can_add_subcategory_path_leaf(&self, parent_category_id: CategoryId) -> (res:
        Result<(), Error>)
        requires
            self.wf(),
        ensures
            res == match subcategory_path_guard(
                self@,
                self.config().max_category_depth,
                parent_category_id,
            ) {
                Some(e) => Err::<(), Error>(e),
                None => Ok(()),
            },
    {
        let category_tree_path = match self.ensure_valid_category_and_build_category_tree_path(
            parent_category_id,
        ) {
            Ok(path) => path,
            Err(e) => {
                return Err(e);
            },
        };
        let max_category_depth: u64 = self.configuration().max_category_depth;
        let length: usize = category_tree_path.len();
        if length as u64 >= max_category_depth {
            return Err(Error::MaxValidCategoryDepthExceeded);
        }
        proof {
            self.lemma_path_archived(category_tree_path@, parent_category_id);
        }
        ensure_can_mutate_in_path_leaf(&category_tree_path)
    }

    /// Tells whether a category may be created by the caller under the given
    /// parent, and answers with the parent where there is one.
    pub fn ensure_can_create_category(
        &self,
        is_lead: bool,
        parent_category_id: Option<CategoryId>,
    ) -> (res: Result<Option<Category>, Error>)
        requires
            self.wf(),
        ensures
            match res {
                Ok(parent) => {
                    &&& create_category_guard(
                        self@,
                        self.config(),
                        is_lead,
                        parent_category_id,
                    ) is None
                    &&& parent is Some == parent_category_id is Some
                    &&& parent matches Some(category) ==> category@
                        == self@.categories[parent_category_id->0]
                },
                Err(e) => create_category_guard(
                    self@,
                    self.config(),
                    is_lead,
                    parent_category_id,
                ) == Some(e),
            },
    {
        if !is_lead {
            return Err(Error::OriginNotForumLead);
        }
        let limits = self.configuration().limits;
        if let Err(e) = ensure_map_limits(self.category_counter(), limits.max_categories) {
            return Err(e);
        }
        if let Some(parent) = parent_category_id {
            if let Err(e) = self.ensure_can_add_subcategory_path_leaf(parent) {
                return Err(e);
            }
            let parent_category = match self.category_by_id(parent) {
                Some(category) => category,
                None => {
                    return Err(Error::CategoryDoesNotExist);
                },
            };
            if let Err(e) = ensure_map_limits(
                parent_category.num_direct_subcategories as u64,
                limits.max_subcategories,
            ) {
                return Err(e);
            }
            return Ok(Some(parent_category.clone()));
        }
        Ok(None)
    }

    /// Creates a category, a root or a subcategory of `parent_category_id`,
    /// and answers with its id. Only the lead may; the parent has to exist
    /// with nothing archived on the way up, and the ceilings on the depth of
    /// the tree, on all categories and on the parent's subcategories have to
    /// leave room.
    pub fn create_category(
        &mut self,
        is_lead: bool,
        parent_category_id: Option<CategoryId>,
        title_hash: ContentHash,
        description_hash: ContentHash,
    ) -> (res: Result<Event, Error>)
        requires
            old(self).wf(),
            create_category_guard(old(self)@, old(self).config(), is_lead, parent_category_id)
                is None ==> old(self)@.next_category_id < u64::MAX,
        ensures
            final(self).wf(),
            final(self).config() == old(self).config(),
            answers(
                res,
                create_category_guard(
                    old(self)@,
                    old(self).config(),
                    is_lead,
                    parent_category_id,
                ),
                EventView::CategoryCreated(old(self)@.next_category_id),
            ),
            final(self)@ == create_category_next(
                old(self)@,
                old(self).config(),
                is_lead,
                parent_category_id,
                title_hash,
                description_hash,
            ),
    {
        let parent = match self.ensure_can_create_category(is_lead, parent_category_id) {
            Ok(parent) => parent,
            Err(e) => {
                return Err(e);
            },
        };
        proof {
            lemma_create_category_wf(
                self@,
                self.config(),
                is_lead,
                parent_category_id,
                title_hash,
                description_hash,
            );
        }
        let new_category_id: CategoryId = self.take_category_id();
        self.put_category(
            new_category_id,
            Category {
                title_hash,
                description_hash,
                archived: false,
                num_direct_subcategories: 0,
                num_direct_threads: 0,
                num_direct_moderators: 0,
                parent_category_id,
                sticky_thread_ids: Vec::new(),
            },
        );
        if let Some(parent_id) = parent_category_id {
            if let Some(mut category) = parent {
                category.num_direct_subcategories = category.num_direct_subcategories + 1;
                self.put_category(parent_id, category);
            }
        }
        proof {
            assert(self@.categories =~= create_category_next(
                old(self)@,
                old(self).config(),
                is_lead,
                parent_category_id,
                title_hash,
                description_hash,
            ).categories);
        }
        Ok(Event::CategoryCreated(new_category_id))
    }

    /// Tells whether the actor may set the archival status of the category,
    /// and answers with the category.
    pub fn ensure_can_update_category_archival_status(
        &self,
        role_confirmed: bool,
        actor: &PrivilegedActor,
        category_id: CategoryId,
    ) -> (res: Result<Category, Error>)
        requires
            self.wf(),
        ensures
            match res {
                Ok(category) => moderation_guard(self@, role_confirmed, *actor, category_id)
                    is None && category@ == self@.categories[category_id],
                Err(e) => moderation_guard(self@, role_confirmed, *actor, category_id) == Some(e),
            },
    {
        self.ensure_can_moderate_category(role_confirmed, actor, category_id)
    }

    /// Archives the category or takes it out of the archive. The lead may,
    /// and a moderator assigned to the category or above it. Asking for the
    /// status the category already has is an error.
    pub fn update_category_archival_status(
        &mut self,
        role_confirmed: bool,
        actor: &PrivilegedActor,
        category_id: CategoryId,
        new_archival_status: bool,
    ) -> (res: Result<Event, Error>)
        requires
            old(self).wf(),
        ensures
            final(self).wf(),
            final(self).config() == old(self).config(),
            answers(res, category_archival_guard(
                old(self)@,
                role_confirmed,
                *actor,
                category_id,
                new_archival_status,
            ), EventView::CategoryUpdated(category_id, new_archival_status)),
            final(self)@ == category_archival_next(
                old(self)@,
                role_confirmed,
                *actor,
                category_id,
                new_archival_status,
            ),
    {
        let mut category = match self.ensure_can_update_category_archival_status(
            role_confirmed,
            actor,
            category_id,
        ) {
            Ok(category) => category,
            Err(e) => {
                return Err(e);
            },
        };
        if new_archival_status == category.archived {
            return Err(Error::CategoryNotBeingUpdated);
        }
        proof {
            lemma_category_archival_wf(
                self@,
                self.config(),
                role_confirmed,
                *actor,
                category_id,
                new_archival_status,
            );
        }
        category.archived = new_archival_status;
        self.put_category(category_id, category);
        Ok(Event::CategoryUpdated(category_id, new_archival_status))
    }

    /// Tells whether the actor may delete the category, and answers with the
    /// category.
    pub fn ensure_can_delete_category(
        &self,
        role_confirmed: bool,
        actor: &PrivilegedActor,
        category_id: CategoryId,
    ) -> (res: Result<Category, Error>)
        requires
            self.wf(),
        ensures
            match res {
                Ok(category) => delete_category_guard(self@, role_confirmed, *actor, category_id)
                    is None && category@ == self@.categories[category_id],
                Err(e) => delete_category_guard(self@, role_confirmed, *actor, category_id)
                    == Some(e),
            },
    {
        if let Err(e) = ensure_actor_role(role_confirmed, actor) {
            return Err(e);
        }
        let category = match self.category_by_id(category_id) {
            Some(category) => category,
            None => {
                return Err(Error::CategoryDoesNotExist);
            },
        };
        if category.num_direct_threads != 0 {
            return Err(Error::CategoryNotEmptyThreads);
        }
        if category.num_direct_subcategories != 0 {
            return Err(Error::CategoryNotEmptyCategories);
        }
        if category.parent_category_id.is_some() {
            return match self.ensure_can_moderate_category_path(actor, category_id) {
                Ok(found) => Ok(found),
                Err(_) => Err(Error::ModeratorCantDeleteCategory),
            };
        }
        match actor {
            PrivilegedActor::Lead => Ok(category.clone()),
            PrivilegedActor::Moderator(_) => Err(Error::ModeratorCantDeleteCategory),
        }
    }

    /// Deletes the category. It has to hold neither threads nor
    /// subcategories. A root goes only by the lead's hand; any other category
    /// also by a moderator assigned to it or to a category above it.
    pub fn delete_category(
        &mut self,
        role_confirmed: bool,
        actor: &PrivilegedActor,
        category_id: CategoryId,
    ) -> (res: Result<Event, Error>)
        requires
            old(self).wf(),
        ensures
            final(self).wf(),
            final(self).config() == old(self).config(),
            answers(
                res,
                delete_category_guard(old(self)@, role_confirmed, *actor, category_id),
                EventView::CategoryDeleted(category_id),
            ),
            final(self)@ == delete_category_next(old(self)@, role_confirmed, *actor, category_id),
    {
        let category = match self.ensure_can_delete_category(role_confirmed, actor, category_id) {
            Ok(category) => category,
            Err(e) => {
                return Err(e);
            },
        };
        proof {
            lemma_delete_category_wf(self@, self.config(), role_confirmed, *actor, category_id);
        }
        let parent: Option<Category> = match category.parent_category_id {
            Some(parent_id) => match self.category_by_id(parent_id) {
                Some(parent) => Some(parent.clone()),
                None => None,
            },
            None => None,
        };
        self.remove_category(category_id);
        if let Some(parent_id) = category.parent_category_id {
            if let Some(mut parent_category) = parent {
                parent_category.num_direct_subcategories = parent_category.num_direct_subcategories
                    - 1;
                self.put_category(parent_id, parent_category);
            }
        }
        self.drop_category_count();
        proof {
            assert(self@.categories =~= delete_category_next(
                old(self)@,
                role_confirmed,
                *actor,
                category_id,
            ).categories);
        }
        Ok(Event::CategoryDeleted(category_id))
    }

    /// Tells whether the lead may assign the moderator to the category
    /// (`new_value`) or take them off it, and answers with the category.
    pub fn ensure_can_update_category_membership_of_moderator(
        &self,
        is_lead: bool,
        moderator_id: ModeratorId,
        category_id: CategoryId,
        new_value: bool,
    ) -> (res: Result<Category, Error>)
        requires
            self.wf(),
        ensures
            match res {
                Ok(category) => membership_guard(
                    self@,
                    self.config(),
                    is_lead,
                    moderator_id,
                    category_id,
                    new_value,
                ) is None && category@ == self@.categories[category_id],
                Err(e) => membership_guard(
                    self@,
                    self.config(),
                    is_lead,
                    moderator_id,
                    category_id,
                    new_value,
                ) == Some(e),
            },
    {
        if !is_lead {
            return Err(Error::OriginNotForumLead);
        }
        let category = match self.category_by_id(category_id) {
            Some(category) => category,
            None => {
                return Err(Error::CategoryDoesNotExist);
            },
        };
        if new_value && !self.category_by_moderator(category_id, moderator_id) {
            let limit: u64 = self.configuration().limits.max_moderators_for_category;
            if let Err(e) = ensure_map_limits(category.num_direct_moderators as u64, limit) {
                return Err(e);
            }
        }
        Ok(category.clone())
    }

    /// Assigns the moderator to the category (`new_value`) or takes them off
    /// it. Only the lead may. A moderator is added only while the category
    /// has fewer moderators than the ceiling; taking one off is always in
    /// order. The category's count of moderators moves only when the
    /// assignment changes.
    pub fn update_category_membership_of_moderator(
        &mut self,
        is_lead: bool,
        moderator_id: ModeratorId,
        category_id: CategoryId,
        new_value: bool,
    ) -> (res: Result<Event, Error>)
        requires
            old(self).wf(),
        ensures
            final(self).wf(),
            final(self).config() == old(self).config(),
            answers(
                res,
                membership_guard(
                    old(self)@,
                    old(self).config(),
                    is_lead,
                    moderator_id,
                    category_id,
                    new_value,
                ),
                EventView::CategoryMembershipOfModeratorUpdated(
                    moderator_id,
                    category_id,
                    new_value,
                ),
            ),
            final(self)@ == membership_next(
                old(self)@,
                old(self).config(),
                is_lead,
                moderator_id,
                category_id,
                new_value,
            ),
    {
        let mut category = match self.ensure_can_update_category_membership_of_moderator(
            is_lead,
            moderator_id,
            category_id,
            new_value,
        ) {
            Ok(category) => category,
            Err(e) => {
                return Err(e);
            },
        };
        proof {
            lemma_membership_wf(
                self@,
                self.config(),
                is_lead,
                moderator_id,
                category_id,
                new_value,
            );
        }
        let assigned: bool = self.category_by_moderator(category_id, moderator_id);
        if new_value && !assigned {
            self.assign(category_id, moderator_id);
            category.num_direct_moderators = category.num_direct_moderators + 1;
            self.put_category(category_id, category);
        } else if !new_value && assigned {
            self.unassign(category_id, moderator_id);
            category.num_direct_moderators = category.num_direct_moderators - 1;
            self.put_category(category_id, category);
        }
        Ok(Event::CategoryMembershipOfModeratorUpdated(moderator_id, category_id, new_value))
    }

    /// Tells whether the actor may set the sticky threads of the category to
    /// the given ones, and answers with the category.
    pub fn ensure_can_set_stickied_threads(
        &self,
        role_confirmed: bool,
        actor: &PrivilegedActor,
        category_id: CategoryId,
        stickied_ids: &Vec<ThreadId>,
    ) -> (res: Result<Category, Error>)
        requires
            self.wf(),
        ensures
            match res {
                Ok(category) => stickied_guard(
                    self@,
                    role_confirmed,
                    *actor,
                    category_id,
                    stickied_ids@,
                ) is None && category@ == self@.categories[category_id],
                Err(e) => stickied_guard(self@, role_confirmed, *actor, category_id, stickied_ids@)
                    == Some(e),
            },
    {
        let category = match self.ensure_can_moderate_category(
            role_confirmed,
            actor,
            category_id,
        ) {
            Ok(category) => category,
            Err(e) => {
                return Err(e);
            },
        };
        let mut i: usize = 0;
        while i < stickied_ids.len()
            invariant
                i <= stickied_ids.len(),
                moderation_guard(self@, role_confirmed, *actor, category_id) is None,
                forall|j: int|
                    0 <= j < i ==> self@.threads.contains_key(
                        (category_id, #[trigger] stickied_ids@[j]),
                    ),
            decreases stickied_ids.len() - i,
        {
            if let Err(e) = self.ensure_thread_exists(category_id, stickied_ids[i]) {
                proof {
                    assert(!self@.threads.contains_key((category_id, stickied_ids@[i as int])));
                }
                return Err(e);
            }
            i += 1;
        }
        Ok(category)
    }

    /// Sets the threads shown first in the category, in the order given.
    /// Every one of them has to be a thread of the category.
    pub fn set_stickied_threads(
        &mut self,
        role_confirmed: bool,
        actor: &PrivilegedActor,
        category_id: CategoryId,
        stickied_ids: Vec<ThreadId>,
    ) -> (res: Result<Event, Error>)
        requires
            old(self).wf(),
        ensures
            final(self).wf(),
            final(self).config() == old(self).config(),
            answers(res, stickied_guard(
                old(self)@,
                role_confirmed,
                *actor,
                category_id,
                stickied_ids@,
            ), EventView::CategoryStickyThreadUpdate(category_id, stickied_ids@)),
            final(self)@ == stickied_next(
                old(self)@,
                role_confirmed,
                *actor,
                category_id,
                stickied_ids@,
            ),
    {
        let mut category = match self.ensure_can_set_stickied_threads(
            role_confirmed,
            actor,
            category_id,
            &stickied_ids,
        ) {
            Ok(category) => category,
            Err(e) => {
                return Err(e);
            },
        };
        proof {
            lemma_stickied_wf(
                self@,
                self.config(),
                role_confirmed,
                *actor,
                category_id,
                stickied_ids@,
            );
        }
        let mut copy: Vec<ThreadId> = Vec::new();
        let mut i: usize = 0;
        while i < stickied_ids.len()
            invariant
                i <= stickied_ids.len(),
                copy@ == stickied_ids@.subrange(0, i as int),
            decreases stickied_ids.len() - i,
        {
            copy.push(stickied_ids[i]);
            assert(copy@ =~= stickied_ids@.subrange(0, i + 1));
            i += 1;
        }
        assert(copy@ =~= stickied_ids@);
        category.sticky_thread_ids = copy;
        self.put_category(category_id, category);
        Ok(Event::CategoryStickyThreadUpdate(category_id, stickied_ids))
    }
}

} // verus!
