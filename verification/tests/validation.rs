use forum::events::same_error;
use forum::module::Module;
use forum::state::{Config, StorageLimits};
use forum::types::{
    ContentHash, Error, InputValidationLengthConstraint, Poll, PollAlternative, PrivilegedActor,
};

const LEAD: PrivilegedActor = PrivilegedActor::Lead;
const MODERATOR: PrivilegedActor = PrivilegedActor::Moderator(7);

fn config() -> Config {
    Config {
        max_category_depth: 2,
        limits: StorageLimits {
            max_subcategories: 1,
            max_threads_in_category: 1,
            max_posts_in_thread: 2,
            max_moderators_for_category: 1,
            max_categories: 3,
        },
        poll_items_constraint: InputValidationLengthConstraint { min: 2, max_min_diff: 0 },
    }
}

fn hash(b: u8) -> ContentHash {
    ContentHash([b; 32])
}

fn poll(alternatives: usize, end_time: u64) -> Poll {
    Poll {
        description_hash: hash(9),
        end_time,
        poll_alternatives: (0..alternatives)
            .map(|i| PollAlternative { alternative_text_hash: hash(i as u8), vote_count: 0 })
            .collect(),
    }
}

/// Root 0 with subcategory 1; thread 0 by user 11 in category 1 with post 0;
/// moderator 7 assigned to category 1.
fn forum_in_use() -> Module {
    let mut forum = Module::new(config());
    assert!(forum.create_category(true, None, hash(1), hash(1)).is_ok());
    assert!(forum.create_category(true, Some(0), hash(2), hash(2)).is_ok());
    assert!(forum.create_thread(true, 11, 1, hash(3), hash(4), None, 0).is_ok());
    assert!(forum.update_category_membership_of_moderator(true, 7, 1, true).is_ok());
    forum
}

#[test]
fn category_creation_is_validated() {
    let forum = forum_in_use();
    assert_eq!(forum.ensure_can_create_category(true, None), Ok(None));
    assert_eq!(forum.ensure_can_create_category(false, None), Err(Error::OriginNotForumLead));
    assert_eq!(forum.ensure_can_create_category(true, Some(0)), Err(Error::MapSizeLimit));
    assert_eq!(
        forum.ensure_can_create_category(true, Some(1)),
        Err(Error::MaxValidCategoryDepthExceeded)
    );
    assert_eq!(forum.ensure_can_create_category(true, Some(4)), Err(Error::CategoryDoesNotExist));
    assert_eq!(forum.ensure_can_add_subcategory_path_leaf(0), Ok(()));
    assert_eq!(
        forum.ensure_can_add_subcategory_path_leaf(1),
        Err(Error::MaxValidCategoryDepthExceeded)
    );
    assert_eq!(
        forum.ensure_can_add_subcategory_path_leaf(4),
        Err(Error::CategoryDoesNotExist)
    );
    assert_eq!(forum.category_counter(), 2);
}

#[test]
fn category_creation_answers_with_the_parent() {
    let mut forum = Module::new(config());
    assert!(forum.create_category(true, None, hash(1), hash(2)).is_ok());
    let root = forum.category_by_id(0).unwrap().clone();
    assert_eq!(forum.ensure_can_create_category(true, Some(0)), Ok(Some(root)));
    assert!(forum.update_category_archival_status(true, &LEAD, 0, true).is_ok());
    assert_eq!(
        forum.ensure_can_create_category(true, Some(0)),
        Err(Error::AncestorCategoryImmutable)
    );
}

#[test]
fn category_changes_are_validated() {
    let forum = forum_in_use();
    let root = forum.category_by_id(0).unwrap().clone();
    let sub = forum.category_by_id(1).unwrap().clone();
    assert_eq!(forum.ensure_can_update_category_archival_status(true, &LEAD, 0), Ok(root.clone()));
    assert_eq!(
        forum.ensure_can_update_category_archival_status(true, &MODERATOR, 1),
        Ok(sub.clone())
    );
    assert_eq!(
        forum.ensure_can_update_category_archival_status(true, &MODERATOR, 0),
        Err(Error::ModeratorCantUpdateCategory)
    );
    assert_eq!(
        forum.ensure_can_update_category_archival_status(true, &LEAD, 5),
        Err(Error::CategoryDoesNotExist)
    );
    assert_eq!(
        forum.ensure_can_delete_category(true, &LEAD, 0),
        Err(Error::CategoryNotEmptyCategories)
    );
    assert_eq!(
        forum.ensure_can_delete_category(true, &LEAD, 1),
        Err(Error::CategoryNotEmptyThreads)
    );
    assert_eq!(
        forum.ensure_can_update_category_membership_of_moderator(true, 9, 0, true),
        Ok(root.clone())
    );
    assert_eq!(
        forum.ensure_can_update_category_membership_of_moderator(true, 9, 1, true),
        Err(Error::MapSizeLimit)
    );
    assert_eq!(
        forum.ensure_can_update_category_membership_of_moderator(true, 9, 1, false),
        Ok(sub.clone())
    );
    assert_eq!(
        forum.ensure_can_update_category_membership_of_moderator(true, 7, 1, false),
        Ok(sub.clone())
    );
    assert_eq!(
        forum.ensure_can_update_category_membership_of_moderator(true, 7, 1, true),
        Ok(sub.clone())
    );
    assert_eq!(
        forum.ensure_can_update_category_membership_of_moderator(true, 7, 6, false),
        Err(Error::CategoryDoesNotExist)
    );
    assert_eq!(
        forum.ensure_can_update_category_membership_of_moderator(false, 9, 0, true),
        Err(Error::OriginNotForumLead)
    );
    assert_eq!(forum.ensure_can_set_stickied_threads(true, &MODERATOR, 1, &vec![0, 0]), Ok(sub));
    assert_eq!(
        forum.ensure_can_set_stickied_threads(true, &MODERATOR, 1, &vec![0, 1]),
        Err(Error::ThreadDoesNotExist)
    );
    assert_eq!(
        forum.ensure_can_set_stickied_threads(true, &MODERATOR, 0, &vec![]),
        Err(Error::ModeratorCantUpdateCategory)
    );
    assert_eq!(
        forum.ensure_can_set_stickied_threads(true, &LEAD, 4, &vec![]),
        Err(Error::CategoryDoesNotExist)
    );
}

#[test]
fn empty_category_may_be_deleted_by_whoever_moderates_it() {
    let mut forum = forum_in_use();
    assert!(forum.delete_thread(true, &LEAD, 1, 0).is_ok());
    let sub = forum.category_by_id(1).unwrap().clone();
    assert_eq!(forum.ensure_can_delete_category(true, &LEAD, 1), Ok(sub.clone()));
    assert_eq!(forum.ensure_can_delete_category(true, &MODERATOR, 1), Ok(sub));
    assert_eq!(
        forum.ensure_can_delete_category(true, &PrivilegedActor::Moderator(8), 1),
        Err(Error::ModeratorCantDeleteCategory)
    );
    assert_eq!(
        forum.ensure_can_delete_category(false, &MODERATOR, 1),
        Err(Error::ModeratorIdNotMatchAccount)
    );
    assert!(forum.category_by_id(1).is_some());
    assert_eq!(forum.delete_category(true, &MODERATOR, 1), Ok(forum::events::Event::CategoryDeleted(1)));
    let root = forum.category_by_id(0).unwrap().clone();
    assert_eq!(
        forum.ensure_can_delete_category(true, &MODERATOR, 0),
        Err(Error::ModeratorCantDeleteCategory)
    );
    assert_eq!(forum.ensure_can_delete_category(true, &LEAD, 0), Ok(root));
}

#[test]
fn thread_changes_are_validated() {
    let forum = forum_in_use();
    let thread = forum.thread_by_id(1, 0).unwrap();
    let root = forum.category_by_id(0).unwrap().clone();
    let sub = forum.category_by_id(1).unwrap().clone();
    assert_eq!(forum.ensure_can_create_thread(true, 0), Ok(root));
    assert_eq!(forum.ensure_can_create_thread(true, 1), Err(Error::MapSizeLimit));
    assert_eq!(forum.ensure_can_create_thread(true, 3), Err(Error::CategoryDoesNotExist));
    assert_eq!(
        forum.ensure_can_create_thread(false, 0),
        Err(Error::ForumUserIdNotMatchAccount)
    );
    assert_eq!(forum.ensure_thread_is_mutable(1, 0), Ok((sub.clone(), thread)));
    assert_eq!(forum.ensure_thread_is_mutable(1, 4), Err(Error::ThreadDoesNotExist));
    assert_eq!(forum.ensure_is_thread_author(1, 0, 11), Ok(thread));
    assert_eq!(
        forum.ensure_is_thread_author(1, 0, 12),
        Err(Error::AccountDoesNotMatchThreadAuthor)
    );
    assert_eq!(forum.ensure_can_edit_thread_title(true, 1, 0, 11), Ok(thread));
    assert_eq!(
        forum.ensure_can_edit_thread_title(false, 1, 0, 11),
        Err(Error::ForumUserIdNotMatchAccount)
    );
    assert_eq!(
        forum.ensure_can_update_thread_archival_status(true, &MODERATOR, 1, 0),
        Ok((sub.clone(), thread))
    );
    assert_eq!(
        forum.ensure_can_update_thread_archival_status(true, &PrivilegedActor::Moderator(8), 1, 0),
        Err(Error::ModeratorCantUpdateCategory)
    );
    assert_eq!(forum.ensure_can_moderate_thread(true, &MODERATOR, 1, 0), Ok(thread));
    assert_eq!(
        forum.ensure_can_moderate_thread(true, &MODERATOR, 1, 1),
        Err(Error::ThreadDoesNotExist)
    );
    assert_eq!(
        forum.ensure_can_moderate_thread(true, &LEAD, 6, 1),
        Err(Error::CategoryDoesNotExist)
    );
    assert_eq!(forum.ensure_can_move_thread(true, &LEAD, 1, 0, 0), Ok(thread));
    assert_eq!(
        forum.ensure_can_move_thread(true, &MODERATOR, 1, 0, 0),
        Err(Error::ModeratorModerateDestinationCategory)
    );
    assert_eq!(
        forum.ensure_can_move_thread(true, &PrivilegedActor::Moderator(8), 1, 0, 0),
        Err(Error::ModeratorModerateOriginCategory)
    );
    assert_eq!(
        forum.ensure_can_move_thread(false, &LEAD, 1, 0, 0),
        Err(Error::ModeratorModerateOriginCategory)
    );
    assert_eq!(
        forum.ensure_can_move_thread(true, &LEAD, 1, 0, 1),
        Err(Error::ThreadMoveInvalid)
    );
    assert_eq!(
        forum.ensure_can_move_thread(true, &LEAD, 0, 0, 1),
        Err(Error::ThreadDoesNotExist)
    );
    assert_eq!(
        forum.ensure_can_move_thread(true, &LEAD, 1, 0, 5),
        Err(Error::CategoryDoesNotExist)
    );
    assert_eq!(
        forum.ensure_can_move_thread(true, &LEAD, 5, 0, 1),
        Err(Error::CategoryDoesNotExist)
    );
}

#[test]
fn archived_thread_is_not_moderated() {
    let mut forum = forum_in_use();
    assert!(forum.update_thread_archival_status(true, &LEAD, 1, 0, true).is_ok());
    assert_eq!(
        forum.ensure_can_moderate_thread(true, &LEAD, 1, 0),
        Err(Error::ThreadImmutable)
    );
    assert_eq!(
        forum.ensure_can_move_thread(true, &LEAD, 1, 0, 0),
        Err(Error::ThreadImmutable)
    );
    let mut other = forum_in_use();
    assert!(other.update_category_archival_status(true, &LEAD, 0, true).is_ok());
    assert_eq!(
        other.ensure_can_moderate_thread(true, &LEAD, 1, 0),
        Err(Error::AncestorCategoryImmutable)
    );
    assert_eq!(
        other.ensure_can_move_thread(true, &LEAD, 1, 0, 0),
        Err(Error::AncestorCategoryImmutable)
    );
}

#[test]
fn post_changes_are_validated() {
    let forum = forum_in_use();
    let thread = forum.thread_by_id(1, 0).unwrap();
    let sub = forum.category_by_id(1).unwrap().clone();
    let post = *forum.post_by_id(0, 0).unwrap();
    assert_eq!(forum.ensure_can_add_post(true, 1, 0), Ok((sub, thread)));
    assert_eq!(forum.ensure_can_add_post(false, 1, 0), Err(Error::ForumUserIdNotMatchAccount));
    assert_eq!(forum.ensure_can_add_post(true, 1, 2), Err(Error::ThreadDoesNotExist));
    assert_eq!(forum.ensure_can_moderate_post(true, &MODERATOR, 1, 0, 0), Ok(post));
    assert_eq!(
        forum.ensure_can_moderate_post(true, &MODERATOR, 1, 0, 3),
        Err(Error::PostDoesNotExist)
    );
    assert_eq!(
        forum.ensure_can_moderate_post(false, &LEAD, 1, 0, 0),
        Err(Error::OriginNotForumLead)
    );
}

#[test]
fn poll_is_validated_against_the_forum_configuration() {
    let forum = forum_in_use();
    assert_eq!(forum.ensure_poll_fits(&None, 99), Ok(()));
    assert_eq!(forum.ensure_poll_fits(&Some(poll(2, 5)), 5), Ok(()));
    assert_eq!(
        forum.ensure_poll_fits(&Some(poll(1, 5)), 5),
        Err(Error::PollAlternativesTooShort)
    );
    assert_eq!(
        forum.ensure_poll_fits(&Some(poll(3, 5)), 5),
        Err(Error::PollAlternativesTooLong)
    );
    assert_eq!(forum.ensure_poll_fits(&Some(poll(2, 5)), 6), Err(Error::PollTimeSetting));
}

#[test]
fn errors_compare_by_variant() {
    assert!(same_error(Error::PollData, Error::PollData));
    assert!(!same_error(Error::PollData, Error::PollNotExist));
    assert!(!same_error(Error::ThreadImmutable, Error::AncestorCategoryImmutable));
}
