use forum::calls::{
    add_post, create_category, create_thread, delete_category, delete_thread, edit_post_text,
    edit_thread_title, ensure_actor_role, ensure_is_forum_lead_account, ensure_is_forum_user,
    ensure_is_moderator_account, moderate_post, moderate_thread, move_thread_to_category,
    react_post, set_stickied_threads, update_category_archival_status,
    update_category_membership_of_moderator, update_thread_archival_status, vote_on_poll, Trait,
};
use forum::events::Event;
use forum::module::Module;
use forum::state::{Config, StorageLimits};
use forum::types::{
    ContentHash, Error, InputValidationLengthConstraint, Poll, PollAlternative, PrivilegedActor,
};
use std::cell::Cell;

const LEAD_ACCOUNT: u64 = 100;
const ALICE: u64 = 1;
const BOB: u64 = 2;
const MOD: u64 = 50;
const LEAD: PrivilegedActor = PrivilegedActor::Lead;

/// Accounts 1..=9 own the forum user id equal to the account; account 50 owns
/// moderator id 7; account 100 is the lead.
struct Surroundings {
    clock: Cell<u64>,
}

impl Trait for Surroundings {
    type AccountId = u64;

    fn is_lead(&self, account_id: &u64) -> bool {
        *account_id == LEAD_ACCOUNT
    }

    fn is_forum_member(&self, account_id: &u64, forum_user_id: &u64) -> bool {
        (1..=9).contains(account_id) && account_id == forum_user_id
    }

    fn is_moderator(&self, account_id: &u64, moderator_id: &u64) -> bool {
        *account_id == MOD && *moderator_id == 7
    }

    fn calculate_hash(&self, text: &[u8]) -> ContentHash {
        let mut digest = [0u8; 32];
        for (i, b) in text.iter().enumerate() {
            digest[i % 32] = digest[i % 32].wrapping_mul(31).wrapping_add(*b);
        }
        digest[31] = digest[31].wrapping_add(text.len() as u8);
        ContentHash(digest)
    }

    fn now(&self) -> u64 {
        self.clock.get()
    }
}

fn env() -> Surroundings {
    Surroundings { clock: Cell::new(10) }
}

fn config() -> Config {
    Config {
        max_category_depth: 3,
        limits: StorageLimits {
            max_subcategories: 3,
            max_threads_in_category: 4,
            max_posts_in_thread: 5,
            max_moderators_for_category: 2,
            max_categories: 6,
        },
        poll_items_constraint: InputValidationLengthConstraint { min: 2, max_min_diff: 2 },
    }
}

fn poll(end_time: u64) -> Poll {
    Poll {
        description_hash: ContentHash([9; 32]),
        end_time,
        poll_alternatives: vec![
            PollAlternative { alternative_text_hash: ContentHash([1; 32]), vote_count: 0 },
            PollAlternative { alternative_text_hash: ContentHash([2; 32]), vote_count: 0 },
        ],
    }
}

/// Root 0 with subcategory 1 and Alice's thread 0 in it.
fn forum_in_use(env: &Surroundings) -> Module {
    let mut forum = Module::new(config());
    assert_eq!(
        create_category(&mut forum, env, &LEAD_ACCOUNT, None, b"root", b"the root"),
        Ok(Event::CategoryCreated(0))
    );
    assert_eq!(
        create_category(&mut forum, env, &LEAD_ACCOUNT, Some(0), b"sub", b"below"),
        Ok(Event::CategoryCreated(1))
    );
    assert_eq!(
        create_thread(&mut forum, env, &ALICE, ALICE, 1, b"title", b"text", Some(poll(20))),
        Ok(Event::ThreadCreated(0))
    );
    forum
}

#[test]
fn roles_are_asked_of_the_surroundings() {
    let env = env();
    assert_eq!(ensure_is_forum_lead_account(&env, &LEAD_ACCOUNT), Ok(()));
    assert_eq!(ensure_is_forum_lead_account(&env, &ALICE), Err(Error::OriginNotForumLead));
    assert_eq!(ensure_is_forum_user(&env, &ALICE, &ALICE), Ok(()));
    assert_eq!(
        ensure_is_forum_user(&env, &ALICE, &BOB),
        Err(Error::ForumUserIdNotMatchAccount)
    );
    assert_eq!(ensure_is_moderator_account(&env, &MOD, &7), Ok(()));
    assert_eq!(
        ensure_is_moderator_account(&env, &MOD, &8),
        Err(Error::ModeratorIdNotMatchAccount)
    );
    assert_eq!(ensure_actor_role(&env, &LEAD_ACCOUNT, &LEAD), Ok(()));
    assert_eq!(ensure_actor_role(&env, &MOD, &LEAD), Err(Error::OriginNotForumLead));
    assert_eq!(ensure_actor_role(&env, &MOD, &PrivilegedActor::Moderator(7)), Ok(()));
    assert_eq!(
        ensure_actor_role(&env, &LEAD_ACCOUNT, &PrivilegedActor::Moderator(7)),
        Err(Error::ModeratorIdNotMatchAccount)
    );
}

#[test]
fn texts_are_stored_as_their_hashes() {
    let env = env();
    let forum = forum_in_use(&env);
    assert_eq!(forum.category_by_id(0).unwrap().title_hash, env.calculate_hash(b"root"));
    assert_eq!(forum.category_by_id(0).unwrap().description_hash, env.calculate_hash(b"the root"));
    assert_eq!(forum.thread_by_id(1, 0).unwrap().title_hash, env.calculate_hash(b"title"));
    assert_eq!(forum.post_by_id(0, 0).unwrap().text_hash, env.calculate_hash(b"text"));
    assert_ne!(env.calculate_hash(b"title"), env.calculate_hash(b"text"));
}

#[test]
fn only_the_lead_account_creates_categories_and_assigns_moderators() {
    let env = env();
    let mut forum = forum_in_use(&env);
    assert_eq!(
        create_category(&mut forum, &env, &ALICE, None, b"x", b"y"),
        Err(Error::OriginNotForumLead)
    );
    assert_eq!(
        update_category_membership_of_moderator(&mut forum, &env, &MOD, 7, 1, true),
        Err(Error::OriginNotForumLead)
    );
    assert_eq!(
        update_category_membership_of_moderator(&mut forum, &env, &LEAD_ACCOUNT, 7, 1, true),
        Ok(Event::CategoryMembershipOfModeratorUpdated(7, 1, true))
    );
    assert!(forum.category_by_moderator(1, 7));
}

#[test]
fn moderator_account_acts_where_its_moderator_is_assigned() {
    let env = env();
    let mut forum = forum_in_use(&env);
    let moderator = PrivilegedActor::Moderator(7);
    assert!(update_category_membership_of_moderator(&mut forum, &env, &LEAD_ACCOUNT, 7, 1, true)
        .is_ok());
    assert_eq!(
        update_category_archival_status(&mut forum, &env, &MOD, &moderator, 0, true),
        Err(Error::ModeratorCantUpdateCategory)
    );
    assert_eq!(
        update_category_archival_status(&mut forum, &env, &ALICE, &moderator, 1, true),
        Err(Error::ModeratorIdNotMatchAccount)
    );
    assert_eq!(
        update_category_archival_status(&mut forum, &env, &MOD, &PrivilegedActor::Moderator(8), 1, true),
        Err(Error::ModeratorIdNotMatchAccount)
    );
    assert_eq!(
        delete_thread(&mut forum, &env, &MOD, &moderator, 1, 0),
        Ok(Event::ThreadDeleted(0))
    );
    assert_eq!(
        delete_category(&mut forum, &env, &ALICE, &moderator, 1),
        Err(Error::ModeratorIdNotMatchAccount)
    );
    assert_eq!(
        delete_category(&mut forum, &env, &MOD, &moderator, 0),
        Err(Error::CategoryNotEmptyCategories)
    );
    assert_eq!(
        delete_category(&mut forum, &env, &MOD, &moderator, 1),
        Ok(Event::CategoryDeleted(1))
    );
    assert_eq!(
        delete_category(&mut forum, &env, &MOD, &moderator, 0),
        Err(Error::ModeratorCantDeleteCategory)
    );
    assert_eq!(
        delete_category(&mut forum, &env, &LEAD_ACCOUNT, &LEAD, 0),
        Ok(Event::CategoryDeleted(0))
    );
}

#[test]
fn members_write_edit_and_react_under_their_own_id() {
    let env = env();
    let mut forum = forum_in_use(&env);
    assert_eq!(
        add_post(&mut forum, &env, &BOB, ALICE, 1, 0, b"reply"),
        Err(Error::ForumUserIdNotMatchAccount)
    );
    assert_eq!(add_post(&mut forum, &env, &BOB, BOB, 1, 0, b"reply"), Ok(Event::PostAdded(1)));
    assert_eq!(forum.post_by_id(0, 1).unwrap().author_id, BOB);
    assert_eq!(
        edit_post_text(&mut forum, &env, &ALICE, ALICE, 1, 0, 1, b"changed"),
        Err(Error::AccountDoesNotMatchPostAuthor)
    );
    assert_eq!(
        edit_post_text(&mut forum, &env, &BOB, BOB, 1, 0, 1, b"changed"),
        Ok(Event::PostTextUpdated(1))
    );
    assert_eq!(forum.post_by_id(0, 1).unwrap().text_hash, env.calculate_hash(b"changed"));
    assert_eq!(
        edit_thread_title(&mut forum, &env, &BOB, BOB, 1, 0, b"new"),
        Err(Error::AccountDoesNotMatchThreadAuthor)
    );
    assert_eq!(
        edit_thread_title(&mut forum, &env, &ALICE, ALICE, 1, 0, b"new"),
        Ok(Event::ThreadTitleUpdated(0))
    );
    assert_eq!(forum.thread_by_id(1, 0).unwrap().title_hash, env.calculate_hash(b"new"));
    assert_eq!(
        react_post(&forum, &env, &BOB, BOB, 1, 0, 0, 2),
        Ok(Event::PostReacted(BOB, 0, 2))
    );
    assert_eq!(
        react_post(&forum, &env, &MOD, BOB, 1, 0, 0, 2),
        Err(Error::ForumUserIdNotMatchAccount)
    );
}

#[test]
fn polls_go_by_the_clock_of_the_surroundings() {
    let env = env();
    let mut forum = forum_in_use(&env);
    assert_eq!(
        create_thread(&mut forum, &env, &ALICE, ALICE, 1, b"t", b"x", Some(poll(9))),
        Err(Error::PollTimeSetting)
    );
    assert_eq!(vote_on_poll(&mut forum, &env, &BOB, BOB, 1, 0, 1), Ok(Event::VoteOnPoll(0, 1)));
    env.clock.set(20);
    assert_eq!(vote_on_poll(&mut forum, &env, &BOB, BOB, 1, 0, 1), Ok(Event::VoteOnPoll(0, 1)));
    env.clock.set(21);
    assert_eq!(
        vote_on_poll(&mut forum, &env, &BOB, BOB, 1, 0, 1),
        Err(Error::PollCommitExpired)
    );
    assert_eq!(
        vote_on_poll(&mut forum, &env, &BOB, ALICE, 1, 0, 1),
        Err(Error::ForumUserIdNotMatchAccount)
    );
    let votes: Vec<u32> = forum.thread_by_id(1, 0).unwrap().poll.as_ref().unwrap()
        .poll_alternatives.iter().map(|a| a.vote_count).collect();
    assert_eq!(votes, vec![0, 2]);
}

#[test]
fn moderation_calls_go_through_for_the_lead() {
    let env = env();
    let mut forum = forum_in_use(&env);
    assert_eq!(
        set_stickied_threads(&mut forum, &env, &LEAD_ACCOUNT, &LEAD, 1, vec![0]),
        Ok(Event::CategoryStickyThreadUpdate(1, vec![0]))
    );
    assert_eq!(
        move_thread_to_category(&mut forum, &env, &LEAD_ACCOUNT, &LEAD, 1, 0, 0),
        Ok(Event::ThreadMoved(0, 0))
    );
    assert_eq!(
        move_thread_to_category(&mut forum, &env, &ALICE, &LEAD, 0, 0, 1),
        Err(Error::ModeratorModerateOriginCategory)
    );
    assert_eq!(
        moderate_post(&mut forum, &env, &LEAD_ACCOUNT, &LEAD, 0, 0, 0, b"spam".to_vec()),
        Ok(Event::PostModerated(0, b"spam".to_vec()))
    );
    assert_eq!(
        create_thread(&mut forum, &env, &BOB, BOB, 1, b"second", b"text", None),
        Ok(Event::ThreadCreated(1))
    );
    assert_eq!(
        update_thread_archival_status(&mut forum, &env, &LEAD_ACCOUNT, &LEAD, 0, 0, true),
        Ok(Event::ThreadUpdated(0, true))
    );
    assert_eq!(
        moderate_thread(&mut forum, &env, &ALICE, &LEAD, 1, 1, b"off topic".to_vec()),
        Err(Error::OriginNotForumLead)
    );
    assert_eq!(
        moderate_thread(&mut forum, &env, &LEAD_ACCOUNT, &LEAD, 0, 0, b"off topic".to_vec()),
        Err(Error::ThreadImmutable)
    );
    assert!(forum.thread_by_id(0, 0).is_some());
    assert_eq!(
        moderate_thread(&mut forum, &env, &LEAD_ACCOUNT, &LEAD, 1, 1, b"off topic".to_vec()),
        Ok(Event::ThreadModerated(1, b"off topic".to_vec()))
    );
    assert!(forum.thread_by_id(1, 1).is_none());
}
