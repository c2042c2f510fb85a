use forum::events::Event;
use forum::module::Module;
use forum::state::{Config, StorageLimits};
use forum::types::{ContentHash, Error, InputValidationLengthConstraint, Post, PrivilegedActor};

const LEAD: PrivilegedActor = PrivilegedActor::Lead;

fn config() -> Config {
    Config {
        max_category_depth: 3,
        limits: StorageLimits {
            max_subcategories: 3,
            max_threads_in_category: 4,
            max_posts_in_thread: 3,
            max_moderators_for_category: 2,
            max_categories: 6,
        },
        poll_items_constraint: InputValidationLengthConstraint { min: 2, max_min_diff: 2 },
    }
}

fn hash(b: u8) -> ContentHash {
    ContentHash([b; 32])
}

/// Root 0, subcategory 1, thread 0 in category 1 by user 11 with post 0.
fn forum_with_thread() -> Module {
    let mut forum = Module::new(config());
    assert!(forum.create_category(true, None, hash(1), hash(1)).is_ok());
    assert!(forum.create_category(true, Some(0), hash(2), hash(2)).is_ok());
    assert_eq!(
        forum.create_thread(true, 11, 1, hash(3), hash(4), None, 0),
        Ok(Event::ThreadCreated(0))
    );
    forum
}

#[test]
fn post_is_added_and_counted_on_the_thread() {
    let mut forum = forum_with_thread();
    assert_eq!(forum.add_post(true, 12, 1, 0, hash(5)), Ok(Event::PostAdded(1)));
    assert_eq!(
        forum.post_by_id(0, 1),
        Some(&Post { thread_id: 0, text_hash: hash(5), author_id: 12 })
    );
    assert_eq!(forum.thread_by_id(1, 0).unwrap().num_direct_posts, 2);
    assert_eq!(forum.category_by_id(1).unwrap().num_direct_threads, 1);
    assert_eq!(forum.next_post_id(), 2);
}

#[test]
fn add_new_post_answers_with_id_and_post() {
    let mut forum = forum_with_thread();
    assert_eq!(
        forum.add_new_post(1, 0, hash(5), 13),
        Ok((1, Post { thread_id: 0, text_hash: hash(5), author_id: 13 }))
    );
    assert_eq!(forum.add_new_post(1, 4, hash(5), 13), Err(Error::ThreadDoesNotExist));
    assert_eq!(forum.add_new_post(0, 0, hash(5), 13), Err(Error::ThreadDoesNotExist));
}

#[test]
fn add_post_is_guarded() {
    let mut forum = forum_with_thread();
    assert_eq!(
        forum.add_post(false, 12, 1, 0, hash(5)),
        Err(Error::ForumUserIdNotMatchAccount)
    );
    assert_eq!(forum.add_post(true, 12, 1, 3, hash(5)), Err(Error::ThreadDoesNotExist));
    assert_eq!(forum.add_post(true, 12, 0, 0, hash(5)), Err(Error::ThreadDoesNotExist));
    assert_eq!(forum.next_post_id(), 1);
    assert_eq!(forum.thread_by_id(1, 0).unwrap().num_direct_posts, 1);
}

#[test]
fn posts_per_thread_are_capped() {
    let mut forum = forum_with_thread();
    assert_eq!(forum.add_post(true, 12, 1, 0, hash(5)), Ok(Event::PostAdded(1)));
    assert_eq!(forum.add_post(true, 12, 1, 0, hash(5)), Ok(Event::PostAdded(2)));
    assert_eq!(forum.add_post(true, 12, 1, 0, hash(5)), Err(Error::MapSizeLimit));
    assert_eq!(forum.thread_by_id(1, 0).unwrap().num_direct_posts, 3);
    assert!(forum.post_by_id(0, 3).is_none());
    assert!(forum.moderate_post(true, &LEAD, 1, 0, 1, vec![]).is_ok());
    assert_eq!(forum.add_post(true, 12, 1, 0, hash(5)), Ok(Event::PostAdded(3)));
}

#[test]
fn post_text_is_edited_by_the_author_only() {
    let mut forum = forum_with_thread();
    assert_eq!(
        forum.edit_post_text(false, 11, 1, 0, 0, hash(8)),
        Err(Error::ForumUserIdNotMatchAccount)
    );
    assert_eq!(forum.edit_post_text(true, 11, 1, 0, 4, hash(8)), Err(Error::PostDoesNotExist));
    assert_eq!(forum.edit_post_text(true, 11, 1, 2, 0, hash(8)), Err(Error::PostDoesNotExist));
    assert_eq!(forum.edit_post_text(true, 11, 0, 0, 0, hash(8)), Err(Error::ThreadDoesNotExist));
    assert_eq!(
        forum.edit_post_text(true, 12, 1, 0, 0, hash(8)),
        Err(Error::AccountDoesNotMatchPostAuthor)
    );
    assert_eq!(forum.post_by_id(0, 0).unwrap().text_hash, hash(4));
    assert_eq!(forum.edit_post_text(true, 11, 1, 0, 0, hash(8)), Ok(Event::PostTextUpdated(0)));
    assert_eq!(
        forum.post_by_id(0, 0),
        Some(&Post { thread_id: 0, text_hash: hash(8), author_id: 11 })
    );
}

#[test]
fn reaction_is_passed_on_and_changes_nothing() {
    let forum = forum_with_thread();
    assert_eq!(forum.react_post(true, 12, 1, 0, 0, 3), Ok(Event::PostReacted(12, 0, 3)));
    assert_eq!(
        forum.react_post(false, 12, 1, 0, 0, 3),
        Err(Error::ForumUserIdNotMatchAccount)
    );
    assert_eq!(forum.react_post(true, 12, 1, 0, 9, 3), Err(Error::PostDoesNotExist));
    assert_eq!(forum.react_post(true, 12, 0, 0, 0, 3), Err(Error::ThreadDoesNotExist));
    assert_eq!(
        forum.post_by_id(0, 0),
        Some(&Post { thread_id: 0, text_hash: hash(4), author_id: 11 })
    );
}

#[test]
fn moderate_post_removes_it_and_lowers_the_count() {
    let mut forum = forum_with_thread();
    assert_eq!(forum.add_post(true, 12, 1, 0, hash(5)), Ok(Event::PostAdded(1)));
    assert_eq!(
        forum.moderate_post(true, &LEAD, 1, 0, 0, vec![7]),
        Ok(Event::PostModerated(0, vec![7]))
    );
    assert!(forum.post_by_id(0, 0).is_none());
    assert!(forum.post_by_id(0, 1).is_some());
    assert_eq!(forum.thread_by_id(1, 0).unwrap().num_direct_posts, 1);
    assert_eq!(forum.category_by_id(1).unwrap().num_direct_threads, 1);
    assert_eq!(
        forum.moderate_post(true, &LEAD, 1, 0, 0, vec![7]),
        Err(Error::PostDoesNotExist)
    );
    assert_eq!(
        forum.moderate_post(true, &LEAD, 1, 0, 1, vec![]),
        Ok(Event::PostModerated(1, vec![]))
    );
    assert_eq!(forum.thread_by_id(1, 0).unwrap().num_direct_posts, 0);
}

#[test]
fn moderate_post_is_guarded() {
    let mut forum = forum_with_thread();
    let moderator = PrivilegedActor::Moderator(4);
    assert_eq!(
        forum.moderate_post(false, &LEAD, 1, 0, 0, vec![]),
        Err(Error::OriginNotForumLead)
    );
    assert_eq!(
        forum.moderate_post(false, &moderator, 1, 0, 0, vec![]),
        Err(Error::ModeratorIdNotMatchAccount)
    );
    assert_eq!(
        forum.moderate_post(true, &moderator, 1, 0, 0, vec![]),
        Err(Error::ModeratorCantUpdateCategory)
    );
    assert_eq!(
        forum.moderate_post(true, &LEAD, 0, 0, 0, vec![]),
        Err(Error::ThreadDoesNotExist)
    );
    assert!(forum.post_by_id(0, 0).is_some());
    assert!(forum.update_category_membership_of_moderator(true, 4, 0, true).is_ok());
    assert_eq!(
        forum.moderate_post(true, &moderator, 1, 0, 0, vec![]),
        Ok(Event::PostModerated(0, vec![]))
    );
}

#[test]
fn post_lookup_checks_thread_and_post() {
    let forum = forum_with_thread();
    assert!(forum.ensure_post_exists(0, 0).is_ok());
    assert_eq!(forum.ensure_post_exists(0, 1), Err(Error::PostDoesNotExist));
    assert_eq!(forum.ensure_post_exists(1, 0), Err(Error::PostDoesNotExist));
    assert!(forum.ensure_post_is_mutable(1, 0, 0).is_ok());
    assert_eq!(forum.ensure_post_is_mutable(0, 0, 0), Err(Error::ThreadDoesNotExist));
    assert!(forum.ensure_thread_exists(1, 0).is_ok());
    assert!(forum.ensure_thread_is_mutable(1, 0).is_ok());
    assert!(forum.ensure_thread_exists(0, 0).is_err());
}
