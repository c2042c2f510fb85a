use forum::categories::ensure_map_limits;
use forum::events::{
    assert_event_success, assert_failure, event_failure, event_success, Event,
};
use forum::module::Module;
use forum::permission::{ensure_actor_role, ensure_can_mutate_in_path_leaf};
use forum::state::{Config, StorageLimits};
use forum::types::{ContentHash, Error, InputValidationLengthConstraint, PrivilegedActor};

const LEAD: PrivilegedActor = PrivilegedActor::Lead;

fn config() -> Config {
    Config {
        max_category_depth: 2,
        limits: StorageLimits {
            max_subcategories: 3,
            max_threads_in_category: 4,
            max_posts_in_thread: 5,
            max_moderators_for_category: 2,
            max_categories: 6,
        },
        poll_items_constraint: InputValidationLengthConstraint { min: 2, max_min_diff: 2 },
    }
}

fn hash(b: u8) -> ContentHash {
    ContentHash([b; 32])
}

#[test]
fn thread_with_three_posts_is_deleted_and_its_category_after_it() {
    let mut forum = Module::new(config());
    assert_eq!(forum.create_category(true, None, hash(1), hash(1)), Ok(Event::CategoryCreated(0)));
    assert_eq!(
        forum.create_category(true, Some(0), hash(2), hash(2)),
        Ok(Event::CategoryCreated(1))
    );
    assert_eq!(forum.build_category_tree_path(1).unwrap().len(), 2);
    assert_eq!(
        forum.create_thread(true, 11, 1, hash(3), hash(4), None, 0),
        Ok(Event::ThreadCreated(0))
    );
    assert_eq!(forum.add_post(true, 12, 1, 0, hash(5)), Ok(Event::PostAdded(1)));
    assert_eq!(forum.add_post(true, 13, 1, 0, hash(6)), Ok(Event::PostAdded(2)));
    assert_eq!(forum.thread_by_id(1, 0).unwrap().num_direct_posts, 3);
    assert_eq!(forum.category_by_id(1).unwrap().num_direct_threads, 1);

    assert_eq!(forum.delete_category(true, &LEAD, 1), Err(Error::CategoryNotEmptyThreads));
    assert!(forum.category_by_id(1).is_some());

    assert_eq!(forum.delete_thread(true, &LEAD, 1, 0), Ok(Event::ThreadDeleted(0)));
    assert_eq!(forum.category_by_id(1).unwrap().num_direct_threads, 0);
    assert!(forum.post_by_id(0, 0).is_none());
    assert!(forum.post_by_id(0, 1).is_none());
    assert!(forum.post_by_id(0, 2).is_none());
    assert_eq!(forum.edit_post_text(true, 12, 1, 0, 1, hash(7)), Err(Error::PostDoesNotExist));

    assert_eq!(forum.delete_category(true, &LEAD, 1), Ok(Event::CategoryDeleted(1)));
    assert!(forum.category_by_id(1).is_none());
    assert_eq!(forum.category_by_id(0).unwrap().num_direct_subcategories, 0);
}

#[test]
fn moderator_of_subcategory_acts_below_but_not_above() {
    let mut forum = Module::new(config());
    assert!(forum.create_category(true, None, hash(1), hash(1)).is_ok());
    assert!(forum.create_category(true, Some(0), hash(2), hash(2)).is_ok());
    assert!(forum.create_thread(true, 11, 1, hash(3), hash(4), None, 0).is_ok());
    assert!(forum.update_category_membership_of_moderator(true, 7, 1, true).is_ok());
    let moderator = PrivilegedActor::Moderator(7);

    assert_eq!(
        forum.update_category_archival_status(true, &moderator, 0, true),
        Err(Error::ModeratorCantUpdateCategory)
    );
    assert!(!forum.category_by_id(0).unwrap().archived);
    assert_eq!(
        forum.ensure_can_moderate_category_path(&moderator, 0),
        Err(Error::ModeratorCantUpdateCategory)
    );
    assert_eq!(
        forum.ensure_can_moderate_category_path(&moderator, 1).as_ref(),
        Ok(forum.category_by_id(1).unwrap())
    );
    assert_eq!(
        forum.ensure_can_moderate_category_path(&LEAD, 0).as_ref(),
        Ok(forum.category_by_id(0).unwrap())
    );
    assert_eq!(
        forum.ensure_can_moderate_category_path(&LEAD, 9),
        Err(Error::CategoryDoesNotExist)
    );
    assert_eq!(
        forum.ensure_can_moderate_category_path(&moderator, 9),
        Err(Error::CategoryDoesNotExist)
    );

    assert_eq!(forum.delete_thread(true, &moderator, 1, 0), Ok(Event::ThreadDeleted(0)));
    assert!(forum.thread_by_id(1, 0).is_none());
}

#[test]
fn moderator_of_root_acts_on_the_whole_tree() {
    let mut forum = Module::new(config());
    assert!(forum.create_category(true, None, hash(1), hash(1)).is_ok());
    assert!(forum.create_category(true, Some(0), hash(2), hash(2)).is_ok());
    assert!(forum.update_category_membership_of_moderator(true, 7, 0, true).is_ok());
    let moderator = PrivilegedActor::Moderator(7);
    let other = PrivilegedActor::Moderator(8);
    assert_eq!(
        forum.ensure_can_moderate_category(true, &moderator, 1).as_ref(),
        Ok(forum.category_by_id(1).unwrap())
    );
    assert_eq!(
        forum.ensure_can_moderate_category(true, &moderator, 0).as_ref(),
        Ok(forum.category_by_id(0).unwrap())
    );
    assert_eq!(
        forum.ensure_can_moderate_category(true, &other, 1),
        Err(Error::ModeratorCantUpdateCategory)
    );
    assert_eq!(
        forum.ensure_can_moderate_category(false, &moderator, 1),
        Err(Error::ModeratorIdNotMatchAccount)
    );
    assert!(forum.ensure_can_moderate_category(true, &LEAD, 1).is_ok());
    assert_eq!(
        forum.update_category_archival_status(true, &moderator, 1, true),
        Ok(Event::CategoryUpdated(1, true))
    );
    let path = forum.build_category_tree_path(1).unwrap();
    assert_eq!(forum.check_moderator(&path, 7), Ok(()));
    assert_eq!(forum.check_moderator(&path, 8), Err(Error::ModeratorCantUpdateCategory));
    assert_eq!(ensure_can_mutate_in_path_leaf(&path), Err(Error::AncestorCategoryImmutable));
    assert_eq!(ensure_can_mutate_in_path_leaf(&forum.build_category_tree_path(0).unwrap()), Ok(()));
}

#[test]
fn rejected_operation_leaves_the_forum_as_it_was() {
    let mut forum = Module::new(config());
    assert!(forum.create_category(true, None, hash(1), hash(1)).is_ok());
    assert!(forum.create_thread(true, 11, 0, hash(3), hash(4), None, 0).is_ok());
    let category = forum.category_by_id(0).unwrap().clone();
    let thread = forum.thread_by_id(0, 0).unwrap().clone();
    let post = *forum.post_by_id(0, 0).unwrap();
    let moderator = PrivilegedActor::Moderator(3);
    assert!(forum.create_category(false, Some(0), hash(1), hash(1)).is_err());
    assert!(forum.delete_category(true, &LEAD, 0).is_err());
    assert!(forum.delete_thread(true, &moderator, 0, 0).is_err());
    assert!(forum.moderate_post(true, &moderator, 0, 0, 0, vec![]).is_err());
    assert!(forum.edit_thread_title(true, 12, 0, 0, hash(9)).is_err());
    assert!(forum.edit_post_text(true, 12, 0, 0, 0, hash(9)).is_err());
    assert!(forum.vote_on_poll(true, 0, 0, 0, 0).is_err());
    assert!(forum.move_thread_to_category(true, &LEAD, 0, 0, 5).is_err());
    assert!(forum.set_stickied_threads(true, &LEAD, 0, vec![4]).is_err());
    assert!(forum.update_category_membership_of_moderator(false, 3, 0, true).is_err());
    assert_eq!(forum.category_by_id(0), Some(&category));
    assert_eq!(forum.thread_by_id(0, 0), Some(&thread));
    assert_eq!(forum.post_by_id(0, 0), Some(&post));
    assert_eq!(forum.next_category_id(), 1);
    assert_eq!(forum.next_thread_id(), 1);
    assert_eq!(forum.next_post_id(), 1);
    assert_eq!(forum.category_counter(), 1);
    assert!(!forum.category_by_moderator(0, 3));
}

/// Fails where the log does not show the success; else takes it as given.
fn check_event_success(events: &Vec<Event>, tested_event: &Event, expected: usize) {
    assert!(event_success(events, tested_event, expected));
    assert_event_success(events, tested_event, expected);
}

/// Fails where answer and log do not show the rejection; else takes it as
/// given.
fn check_failure(result: &Result<Event, Error>, error: Error, events: &Vec<Event>, before: usize) {
    assert!(event_failure(result, error, events, before));
    assert_failure(result, error, events, before);
}

#[test]
fn event_log_is_checked_after_success_and_failure() {
    let mut forum = Module::new(config());
    let mut events: Vec<Event> = Vec::new();
    assert!(!event_success(&events, &Event::CategoryCreated(0), 0));
    events.push(forum.create_category(true, None, hash(1), hash(1)).unwrap());
    check_event_success(&events, &Event::CategoryCreated(0), 1);
    assert!(!event_success(&events, &Event::CategoryCreated(1), 1));
    assert!(!event_success(&events, &Event::CategoryDeleted(0), 1));
    assert!(!event_success(&events, &Event::CategoryCreated(0), 2));

    let refused = forum.create_category(false, None, hash(1), hash(1));
    check_failure(&refused, Error::OriginNotForumLead, &events, 1);
    assert!(!event_failure(&refused, Error::MapSizeLimit, &events, 1));
    assert!(!event_failure(&refused, Error::OriginNotForumLead, &events, 0));
    assert!(!event_failure(&Ok(Event::CategoryCreated(0)), Error::MapSizeLimit, &events, 1));

    events.push(forum.create_thread(true, 11, 0, hash(3), hash(4), None, 0).unwrap());
    events.push(forum.moderate_thread(true, &LEAD, 0, 0, vec![1, 2, 3]).unwrap());
    check_event_success(&events, &Event::ThreadModerated(0, vec![1, 2, 3]), 3);
    assert!(!event_success(&events, &Event::ThreadModerated(0, vec![1, 2]), 3));
    assert!(!event_success(&events, &Event::ThreadModerated(0, vec![1, 2, 4]), 3));
    assert!(!event_success(&events, &Event::PostModerated(0, vec![1, 2, 3]), 3));
}

#[test]
fn events_compare_by_what_they_say() {
    assert!(Event::ThreadMoved(1, 2).same_as(&Event::ThreadMoved(1, 2)));
    assert!(!Event::ThreadMoved(1, 2).same_as(&Event::ThreadMoved(2, 1)));
    assert!(!Event::ThreadCreated(1).same_as(&Event::ThreadDeleted(1)));
    assert!(Event::CategoryStickyThreadUpdate(0, vec![3, 4])
        .same_as(&Event::CategoryStickyThreadUpdate(0, vec![3, 4])));
    assert!(!Event::CategoryStickyThreadUpdate(0, vec![3, 4])
        .same_as(&Event::CategoryStickyThreadUpdate(0, vec![4, 3])));
    assert!(!Event::CategoryStickyThreadUpdate(0, vec![3])
        .same_as(&Event::CategoryStickyThreadUpdate(0, vec![3, 4])));
    assert!(Event::PostReacted(1, 2, 3).same_as(&Event::PostReacted(1, 2, 3)));
    assert!(!Event::PostReacted(1, 2, 3).same_as(&Event::PostReacted(1, 2, 4)));
    assert!(Event::VoteOnPoll(1, 2).same_as(&Event::VoteOnPoll(1, 2)));
    assert!(!Event::CategoryUpdated(1, true).same_as(&Event::CategoryUpdated(1, false)));
    assert!(Event::CategoryMembershipOfModeratorUpdated(1, 2, true)
        .same_as(&Event::CategoryMembershipOfModeratorUpdated(1, 2, true)));
}

#[test]
fn limits_reject_at_the_ceiling() {
    assert_eq!(ensure_map_limits(0, 1), Ok(()));
    assert_eq!(ensure_map_limits(4, 5), Ok(()));
    assert_eq!(ensure_map_limits(5, 5), Err(Error::MapSizeLimit));
    assert_eq!(ensure_map_limits(6, 5), Err(Error::MapSizeLimit));
    assert_eq!(ensure_map_limits(0, 0), Err(Error::MapSizeLimit));
    assert_eq!(ensure_map_limits(u64::MAX, u64::MAX), Err(Error::MapSizeLimit));
}

#[test]
fn unconfirmed_role_is_named_by_the_actor() {
    assert_eq!(ensure_actor_role(true, &LEAD), Ok(()));
    assert_eq!(ensure_actor_role(true, &PrivilegedActor::Moderator(1)), Ok(()));
    assert_eq!(ensure_actor_role(false, &LEAD), Err(Error::OriginNotForumLead));
    assert_eq!(
        ensure_actor_role(false, &PrivilegedActor::Moderator(1)),
        Err(Error::ModeratorIdNotMatchAccount)
    );
}
