use forum::events::Event;
use forum::module::Module;
use forum::state::{Config, StorageLimits};
use forum::types::{
    ContentHash, Error, InputValidationLengthConstraint, Poll, PollAlternative, PrivilegedActor,
};

const LEAD: PrivilegedActor = PrivilegedActor::Lead;

fn config() -> Config {
    Config {
        max_category_depth: 3,
        limits: StorageLimits {
            max_subcategories: 3,
            max_threads_in_category: 2,
            max_posts_in_thread: 3,
            max_moderators_for_category: 2,
            max_categories: 6,
        },
        poll_items_constraint: InputValidationLengthConstraint { min: 2, max_min_diff: 1 },
    }
}

fn hash(b: u8) -> ContentHash {
    ContentHash([b; 32])
}

fn poll(alternatives: usize, end_time: u64) -> Poll {
    Poll {
        description_hash: hash(9),
        end_time,
        poll_alternatives: (0..alternatives)
            .map(|i| PollAlternative { alternative_text_hash: hash(i as u8), vote_count: 0 })
            .collect(),
    }
}

/// Root 0 with subcategory 1.
fn forum_with_categories() -> Module {
    let mut forum = Module::new(config());
    assert!(forum.create_category(true, None, hash(1), hash(1)).is_ok());
    assert!(forum.create_category(true, Some(0), hash(2), hash(2)).is_ok());
    forum
}

#[test]
fn thread_comes_with_its_first_post() {
    let mut forum = forum_with_categories();
    assert_eq!(
        forum.create_thread(true, 11, 1, hash(3), hash(4), None, 100),
        Ok(Event::ThreadCreated(0))
    );
    let thread = forum.thread_by_id(1, 0).unwrap();
    assert_eq!(thread.title_hash, hash(3));
    assert_eq!(thread.category_id, 1);
    assert_eq!(thread.author_id, 11);
    assert!(!thread.archived);
    assert_eq!(thread.poll, None);
    assert_eq!(thread.num_direct_posts, 1);
    let post = forum.post_by_id(0, 0).unwrap();
    assert_eq!(post.thread_id, 0);
    assert_eq!(post.text_hash, hash(4));
    assert_eq!(post.author_id, 11);
    assert_eq!(forum.next_thread_id(), 1);
    assert_eq!(forum.next_post_id(), 1);
    assert_eq!(forum.category_by_id(1).unwrap().num_direct_threads, 1);
    assert_eq!(forum.category_by_id(0).unwrap().num_direct_threads, 0);
    assert!(forum.thread_by_id(0, 0).is_none());
}

#[test]
fn add_new_thread_answers_with_id_and_thread() {
    let mut forum = forum_with_categories();
    let (id, thread) = forum.add_new_thread(0, 5, hash(3), hash(4), &Some(poll(2, 50)), 50).unwrap();
    assert_eq!(id, 0);
    assert_eq!(thread.author_id, 5);
    assert_eq!(thread.num_direct_posts, 1);
    assert_eq!(thread.poll, Some(poll(2, 50)));
    assert_eq!(forum.thread_by_id(0, 0), Some(&thread));
    assert!(forum.post_by_id(0, 0).is_some());
}

#[test]
fn create_thread_is_guarded() {
    let mut forum = forum_with_categories();
    assert_eq!(
        forum.create_thread(false, 11, 1, hash(3), hash(4), None, 0),
        Err(Error::ForumUserIdNotMatchAccount)
    );
    assert_eq!(
        forum.create_thread(true, 11, 7, hash(3), hash(4), None, 0),
        Err(Error::CategoryDoesNotExist)
    );
    assert!(forum.update_category_archival_status(true, &LEAD, 0, true).is_ok());
    assert_eq!(
        forum.create_thread(true, 11, 1, hash(3), hash(4), None, 0),
        Err(Error::AncestorCategoryImmutable)
    );
    assert_eq!(
        forum.create_thread(true, 11, 0, hash(3), hash(4), None, 0),
        Err(Error::AncestorCategoryImmutable)
    );
    assert_eq!(forum.next_thread_id(), 0);
    assert_eq!(forum.next_post_id(), 0);
    assert!(forum.category_by_id(7).is_none());
}

#[test]
fn threads_per_category_are_capped() {
    let mut forum = forum_with_categories();
    assert!(forum.create_thread(true, 11, 1, hash(3), hash(4), None, 0).is_ok());
    assert!(forum.create_thread(true, 11, 1, hash(3), hash(4), None, 0).is_ok());
    assert_eq!(
        forum.create_thread(true, 11, 1, hash(3), hash(4), None, 0),
        Err(Error::MapSizeLimit)
    );
    assert_eq!(
        forum.add_new_thread(1, 11, hash(3), hash(4), &None, 0),
        Err(Error::MapSizeLimit)
    );
    assert_eq!(forum.category_by_id(1).unwrap().num_direct_threads, 2);
    assert_eq!(
        forum.create_thread(true, 11, 0, hash(3), hash(4), None, 0),
        Ok(Event::ThreadCreated(2))
    );
}

#[test]
fn forum_without_room_for_posts_takes_no_thread() {
    let mut cfg = config();
    cfg.limits.max_posts_in_thread = 0;
    let mut forum = Module::new(cfg);
    assert!(forum.create_category(true, None, hash(1), hash(1)).is_ok());
    assert_eq!(
        forum.create_thread(true, 11, 0, hash(3), hash(4), None, 0),
        Err(Error::MapSizeLimit)
    );
    assert_eq!(forum.next_thread_id(), 0);
}

#[test]
fn poll_is_checked_when_thread_is_created() {
    let mut forum = forum_with_categories();
    assert_eq!(
        forum.create_thread(true, 11, 1, hash(3), hash(4), Some(poll(1, 10)), 5),
        Err(Error::PollAlternativesTooShort)
    );
    assert_eq!(
        forum.create_thread(true, 11, 1, hash(3), hash(4), Some(poll(0, 10)), 5),
        Err(Error::PollAlternativesTooShort)
    );
    assert_eq!(
        forum.create_thread(true, 11, 1, hash(3), hash(4), Some(poll(4, 10)), 5),
        Err(Error::PollAlternativesTooLong)
    );
    assert_eq!(
        forum.create_thread(true, 11, 1, hash(3), hash(4), Some(poll(2, 4)), 5),
        Err(Error::PollTimeSetting)
    );
    assert_eq!(
        forum.create_thread(true, 11, 1, hash(3), hash(4), Some(poll(4, 4)), 5),
        Err(Error::PollAlternativesTooLong)
    );
    assert_eq!(forum.next_thread_id(), 0);
    assert_eq!(
        forum.create_thread(true, 11, 1, hash(3), hash(4), Some(poll(2, 5)), 5),
        Ok(Event::ThreadCreated(0))
    );
    assert_eq!(
        forum.create_thread(true, 11, 1, hash(3), hash(4), Some(poll(3, 6)), 5),
        Ok(Event::ThreadCreated(1))
    );
    assert_eq!(forum.thread_by_id(1, 1).unwrap().poll, Some(poll(3, 6)));
}

#[test]
fn title_is_edited_by_the_author_only() {
    let mut forum = forum_with_categories();
    assert!(forum.create_thread(true, 11, 1, hash(3), hash(4), None, 0).is_ok());
    assert_eq!(
        forum.edit_thread_title(false, 11, 1, 0, hash(8)),
        Err(Error::ForumUserIdNotMatchAccount)
    );
    assert_eq!(forum.edit_thread_title(true, 11, 1, 1, hash(8)), Err(Error::ThreadDoesNotExist));
    assert_eq!(forum.edit_thread_title(true, 11, 0, 0, hash(8)), Err(Error::ThreadDoesNotExist));
    assert_eq!(
        forum.edit_thread_title(true, 12, 1, 0, hash(8)),
        Err(Error::AccountDoesNotMatchThreadAuthor)
    );
    assert_eq!(forum.thread_by_id(1, 0).unwrap().title_hash, hash(3));
    assert_eq!(forum.edit_thread_title(true, 11, 1, 0, hash(8)), Ok(Event::ThreadTitleUpdated(0)));
    assert_eq!(forum.thread_by_id(1, 0).unwrap().title_hash, hash(8));
    assert_eq!(forum.thread_by_id(1, 0).unwrap().author_id, 11);
}

#[test]
fn archived_thread_cannot_be_changed() {
    let mut forum = forum_with_categories();
    assert!(forum.create_thread(true, 11, 1, hash(3), hash(4), Some(poll(2, 9)), 0).is_ok());
    assert_eq!(
        forum.update_thread_archival_status(true, &LEAD, 1, 0, false),
        Err(Error::ThreadNotBeingUpdated)
    );
    assert_eq!(
        forum.update_thread_archival_status(true, &LEAD, 1, 0, true),
        Ok(Event::ThreadUpdated(0, true))
    );
    assert!(forum.thread_by_id(1, 0).unwrap().archived);
    assert_eq!(forum.edit_thread_title(true, 11, 1, 0, hash(8)), Err(Error::ThreadImmutable));
    assert_eq!(forum.add_post(true, 11, 1, 0, hash(8)), Err(Error::ThreadImmutable));
    assert_eq!(forum.vote_on_poll(true, 1, 0, 0, 1), Err(Error::ThreadImmutable));
    assert_eq!(forum.edit_post_text(true, 11, 1, 0, 0, hash(8)), Err(Error::ThreadImmutable));
    assert_eq!(forum.react_post(true, 11, 1, 0, 0, 1), Err(Error::ThreadImmutable));
    assert_eq!(
        forum.moderate_post(true, &LEAD, 1, 0, 0, vec![1]),
        Err(Error::ThreadImmutable)
    );
    assert_eq!(
        forum.update_thread_archival_status(true, &LEAD, 1, 0, false),
        Err(Error::ThreadImmutable)
    );
    assert_eq!(
        forum.update_thread_archival_status(true, &LEAD, 1, 0, true),
        Err(Error::ThreadImmutable)
    );
    assert_eq!(forum.delete_thread(true, &LEAD, 1, 0), Err(Error::ThreadImmutable));
    assert_eq!(forum.moderate_thread(true, &LEAD, 1, 0, vec![]), Err(Error::ThreadImmutable));
    assert_eq!(
        forum.move_thread_to_category(true, &LEAD, 1, 0, 0),
        Err(Error::ThreadImmutable)
    );
    assert!(forum.thread_by_id(1, 0).is_some());
    assert!(forum.post_by_id(0, 0).is_some());
    assert_eq!(forum.category_by_id(1).unwrap().num_direct_threads, 1);
}

#[test]
fn thread_archival_is_guarded() {
    let mut forum = forum_with_categories();
    assert!(forum.create_thread(true, 11, 1, hash(3), hash(4), None, 0).is_ok());
    let moderator = PrivilegedActor::Moderator(4);
    assert_eq!(
        forum.update_thread_archival_status(false, &LEAD, 1, 0, true),
        Err(Error::OriginNotForumLead)
    );
    assert_eq!(
        forum.update_thread_archival_status(false, &moderator, 1, 0, true),
        Err(Error::ModeratorIdNotMatchAccount)
    );
    assert_eq!(
        forum.update_thread_archival_status(true, &moderator, 1, 3, true),
        Err(Error::ThreadDoesNotExist)
    );
    assert_eq!(
        forum.update_thread_archival_status(true, &moderator, 1, 0, true),
        Err(Error::ModeratorCantUpdateCategory)
    );
    assert!(forum.update_category_membership_of_moderator(true, 4, 0, true).is_ok());
    assert_eq!(
        forum.update_thread_archival_status(true, &moderator, 1, 0, true),
        Ok(Event::ThreadUpdated(0, true))
    );
}

#[test]
fn archived_ancestor_locks_threads_below() {
    let mut forum = forum_with_categories();
    assert!(forum.create_thread(true, 11, 1, hash(3), hash(4), Some(poll(2, 9)), 0).is_ok());
    assert!(forum.update_category_archival_status(true, &LEAD, 0, true).is_ok());
    assert_eq!(
        forum.edit_thread_title(true, 11, 1, 0, hash(8)),
        Err(Error::AncestorCategoryImmutable)
    );
    assert_eq!(forum.add_post(true, 11, 1, 0, hash(8)), Err(Error::AncestorCategoryImmutable));
    assert_eq!(forum.vote_on_poll(true, 1, 0, 0, 1), Err(Error::AncestorCategoryImmutable));
    assert_eq!(
        forum.edit_post_text(true, 11, 1, 0, 0, hash(8)),
        Err(Error::AncestorCategoryImmutable)
    );
    assert_eq!(
        forum.update_thread_archival_status(true, &LEAD, 1, 0, true),
        Err(Error::AncestorCategoryImmutable)
    );
    assert_eq!(
        forum.moderate_post(true, &LEAD, 1, 0, 0, vec![]),
        Err(Error::AncestorCategoryImmutable)
    );
    assert_eq!(
        forum.delete_thread(true, &LEAD, 1, 0),
        Err(Error::AncestorCategoryImmutable)
    );
    assert_eq!(
        forum.moderate_thread(true, &LEAD, 1, 0, vec![]),
        Err(Error::AncestorCategoryImmutable)
    );
    assert!(forum.create_category(true, None, hash(5), hash(5)).is_ok());
    assert_eq!(
        forum.move_thread_to_category(true, &LEAD, 1, 0, 2),
        Err(Error::AncestorCategoryImmutable)
    );
    assert!(forum.thread_by_id(1, 0).is_some());
    assert!(forum.ensure_category_is_mutable(1).is_err());
    assert!(forum.update_category_archival_status(true, &LEAD, 0, false).is_ok());
    assert!(forum.ensure_category_is_mutable(1).is_ok());
    assert_eq!(forum.edit_thread_title(true, 11, 1, 0, hash(8)), Ok(Event::ThreadTitleUpdated(0)));
    assert_eq!(forum.add_post(true, 11, 1, 0, hash(8)), Ok(Event::PostAdded(1)));
    assert_eq!(forum.vote_on_poll(true, 1, 0, 0, 1), Ok(Event::VoteOnPoll(0, 0)));
}

#[test]
fn delete_thread_removes_its_posts() {
    let mut forum = forum_with_categories();
    assert!(forum.create_thread(true, 11, 1, hash(3), hash(4), None, 0).is_ok());
    assert!(forum.create_thread(true, 11, 1, hash(3), hash(4), None, 0).is_ok());
    assert_eq!(forum.add_post(true, 12, 1, 0, hash(5)), Ok(Event::PostAdded(2)));
    assert_eq!(forum.add_post(true, 12, 1, 1, hash(5)), Ok(Event::PostAdded(3)));
    assert_eq!(forum.delete_thread(true, &LEAD, 1, 0), Ok(Event::ThreadDeleted(0)));
    assert!(forum.thread_by_id(1, 0).is_none());
    assert!(forum.post_by_id(0, 0).is_none());
    assert!(forum.post_by_id(0, 2).is_none());
    assert!(forum.post_by_id(1, 1).is_some());
    assert!(forum.post_by_id(1, 3).is_some());
    assert_eq!(forum.thread_by_id(1, 1).unwrap().num_direct_posts, 2);
    assert_eq!(forum.category_by_id(1).unwrap().num_direct_threads, 1);
    assert_eq!(forum.next_thread_id(), 2);
    assert_eq!(forum.delete_thread(true, &LEAD, 1, 0), Err(Error::ThreadDoesNotExist));
}

#[test]
fn moderate_thread_removes_it_and_carries_the_rationale() {
    let mut forum = forum_with_categories();
    assert!(forum.create_thread(true, 11, 1, hash(3), hash(4), None, 0).is_ok());
    let moderator = PrivilegedActor::Moderator(4);
    assert_eq!(
        forum.moderate_thread(true, &moderator, 1, 0, vec![1, 2]),
        Err(Error::ModeratorCantUpdateCategory)
    );
    assert_eq!(
        forum.moderate_thread(false, &moderator, 1, 0, vec![1, 2]),
        Err(Error::ModeratorIdNotMatchAccount)
    );
    assert!(forum.update_category_membership_of_moderator(true, 4, 1, true).is_ok());
    assert_eq!(
        forum.moderate_thread(true, &moderator, 1, 0, vec![1, 2]),
        Ok(Event::ThreadModerated(0, vec![1, 2]))
    );
    assert!(forum.thread_by_id(1, 0).is_none());
    assert!(forum.post_by_id(0, 0).is_none());
    assert_eq!(forum.category_by_id(1).unwrap().num_direct_threads, 0);
}

#[test]
fn move_thread_updates_both_categories() {
    let mut forum = forum_with_categories();
    assert!(forum.create_thread(true, 11, 1, hash(3), hash(4), None, 0).is_ok());
    assert_eq!(forum.add_post(true, 12, 1, 0, hash(5)), Ok(Event::PostAdded(1)));
    assert_eq!(
        forum.move_thread_to_category(true, &LEAD, 1, 0, 0),
        Ok(Event::ThreadMoved(0, 0))
    );
    assert!(forum.thread_by_id(1, 0).is_none());
    let moved = forum.thread_by_id(0, 0).unwrap();
    assert_eq!(moved.category_id, 0);
    assert_eq!(moved.title_hash, hash(3));
    assert_eq!(moved.num_direct_posts, 2);
    assert_eq!(forum.category_by_id(1).unwrap().num_direct_threads, 0);
    assert_eq!(forum.category_by_id(0).unwrap().num_direct_threads, 1);
    assert!(forum.post_by_id(0, 0).is_some());
    assert!(forum.post_by_id(0, 1).is_some());
    assert_eq!(forum.add_post(true, 12, 0, 0, hash(5)), Ok(Event::PostAdded(2)));
    assert_eq!(forum.edit_thread_title(true, 11, 0, 0, hash(7)), Ok(Event::ThreadTitleUpdated(0)));
    assert_eq!(forum.thread_by_id(0, 0).unwrap().title_hash, hash(7));
}

#[test]
fn move_thread_to_same_category_is_invalid_for_everyone() {
    let mut forum = forum_with_categories();
    assert!(forum.create_thread(true, 11, 1, hash(3), hash(4), None, 0).is_ok());
    let moderator = PrivilegedActor::Moderator(4);
    assert_eq!(
        forum.move_thread_to_category(true, &LEAD, 1, 0, 1),
        Err(Error::ThreadMoveInvalid)
    );
    assert_eq!(
        forum.move_thread_to_category(false, &LEAD, 1, 0, 1),
        Err(Error::ThreadMoveInvalid)
    );
    assert_eq!(
        forum.move_thread_to_category(true, &moderator, 1, 0, 1),
        Err(Error::ThreadMoveInvalid)
    );
    assert_eq!(
        forum.move_thread_to_category(false, &moderator, 9, 9, 9),
        Err(Error::ThreadMoveInvalid)
    );
}

#[test]
fn move_thread_names_the_side_that_fails() {
    let mut forum = forum_with_categories();
    assert!(forum.create_category(true, None, hash(1), hash(1)).is_ok());
    assert!(forum.create_thread(true, 11, 1, hash(3), hash(4), None, 0).is_ok());
    let moderator = PrivilegedActor::Moderator(4);
    assert_eq!(
        forum.move_thread_to_category(false, &LEAD, 1, 0, 2),
        Err(Error::ModeratorModerateOriginCategory)
    );
    assert_eq!(
        forum.move_thread_to_category(true, &LEAD, 1, 5, 2),
        Err(Error::ThreadDoesNotExist)
    );
    assert_eq!(
        forum.move_thread_to_category(true, &LEAD, 7, 0, 2),
        Err(Error::CategoryDoesNotExist)
    );
    assert_eq!(
        forum.move_thread_to_category(true, &moderator, 1, 0, 2),
        Err(Error::ModeratorModerateOriginCategory)
    );
    assert!(forum.update_category_membership_of_moderator(true, 4, 0, true).is_ok());
    assert_eq!(
        forum.move_thread_to_category(true, &moderator, 1, 0, 2),
        Err(Error::ModeratorModerateDestinationCategory)
    );
    assert_eq!(
        forum.move_thread_to_category(true, &LEAD, 1, 0, 8),
        Err(Error::CategoryDoesNotExist)
    );
    assert!(forum.thread_by_id(1, 0).is_some());
    assert!(forum.category_by_id(8).is_none());
    assert!(forum.update_category_membership_of_moderator(true, 4, 2, true).is_ok());
    assert_eq!(
        forum.move_thread_to_category(true, &moderator, 1, 0, 2),
        Ok(Event::ThreadMoved(0, 2))
    );
}

#[test]
fn move_thread_respects_the_destination_ceiling() {
    let mut forum = forum_with_categories();
    assert!(forum.create_thread(true, 11, 0, hash(3), hash(4), None, 0).is_ok());
    assert!(forum.create_thread(true, 11, 0, hash(3), hash(4), None, 0).is_ok());
    assert!(forum.create_thread(true, 11, 1, hash(3), hash(4), None, 0).is_ok());
    assert_eq!(
        forum.move_thread_to_category(true, &LEAD, 1, 2, 0),
        Err(Error::MapSizeLimit)
    );
    assert_eq!(forum.category_by_id(0).unwrap().num_direct_threads, 2);
    assert_eq!(forum.category_by_id(1).unwrap().num_direct_threads, 1);
}
