use forum::events::Event;
use forum::module::Module;
use forum::state::{Config, StorageLimits};
use forum::threads::{
    ensure_poll_alternatives_length_is_valid, ensure_poll_alternatives_valid,
    ensure_poll_is_valid, ensure_vote_is_valid,
};
use forum::types::{
    ContentHash, Error, InputValidationLengthConstraint, Poll, PollAlternative, Thread,
};

fn config() -> Config {
    Config {
        max_category_depth: 3,
        limits: StorageLimits {
            max_subcategories: 3,
            max_threads_in_category: 4,
            max_posts_in_thread: 3,
            max_moderators_for_category: 2,
            max_categories: 6,
        },
        poll_items_constraint: InputValidationLengthConstraint { min: 2, max_min_diff: 2 },
    }
}

fn hash(b: u8) -> ContentHash {
    ContentHash([b; 32])
}

fn poll(alternatives: usize, end_time: u64) -> Poll {
    Poll {
        description_hash: hash(9),
        end_time,
        poll_alternatives: (0..alternatives)
            .map(|i| PollAlternative { alternative_text_hash: hash(i as u8), vote_count: 0 })
            .collect(),
    }
}

fn forum_with_poll() -> Module {
    let mut forum = Module::new(config());
    assert!(forum.create_category(true, None, hash(1), hash(1)).is_ok());
    assert_eq!(
        forum.create_thread(true, 11, 0, hash(3), hash(4), Some(poll(3, 20)), 10),
        Ok(Event::ThreadCreated(0))
    );
    forum
}

fn votes(forum: &Module) -> Vec<u32> {
    forum
        .thread_by_id(0, 0)
        .unwrap()
        .poll
        .as_ref()
        .unwrap()
        .poll_alternatives
        .iter()
        .map(|a| a.vote_count)
        .collect()
}

#[test]
fn length_constraint_max_is_min_plus_diff() {
    assert_eq!(InputValidationLengthConstraint { min: 2, max_min_diff: 3 }.max(), 5);
    assert_eq!(InputValidationLengthConstraint { min: 0, max_min_diff: 0 }.max(), 0);
    assert_eq!(InputValidationLengthConstraint { min: 65535, max_min_diff: 0 }.max(), 65535);
    assert_eq!(InputValidationLengthConstraint::default().max(), 0);
}

#[test]
fn length_constraint_accepts_the_range_and_its_ends() {
    let c = InputValidationLengthConstraint { min: 2, max_min_diff: 3 };
    assert_eq!(c.ensure_valid(1, "short", "long"), Err("short"));
    assert_eq!(c.ensure_valid(0, "short", "long"), Err("short"));
    assert_eq!(c.ensure_valid(2, "short", "long"), Ok(()));
    assert_eq!(c.ensure_valid(4, "short", "long"), Ok(()));
    assert_eq!(c.ensure_valid(5, "short", "long"), Ok(()));
    assert_eq!(c.ensure_valid(6, "short", "long"), Err("long"));
}

#[test]
fn length_constraint_goes_by_the_length_itself() {
    let c = InputValidationLengthConstraint { min: 2, max_min_diff: 3 };
    assert_eq!(c.ensure_valid(65536 + 3, 1, 2), Err(2));
    assert_eq!(c.ensure_valid(65536, 1, 2), Err(2));
    assert_eq!(c.ensure_valid(65536 + 6, 1, 2), Err(2));
    let wide = InputValidationLengthConstraint { min: 2, max_min_diff: 18 };
    assert_eq!(wide.ensure_valid(65538, 1, 2), Err(2));
    assert_eq!(wide.ensure_valid(20, 1, 2), Ok(()));
    assert_eq!(wide.ensure_valid(21, 1, 2), Err(2));
    let top = InputValidationLengthConstraint { min: 65535, max_min_diff: 65535 };
    assert_eq!(top.ensure_valid(65534, 1, 2), Err(1));
    assert_eq!(top.ensure_valid(65535, 1, 2), Ok(()));
    assert_eq!(top.ensure_valid(131070, 1, 2), Ok(()));
    assert_eq!(top.ensure_valid(131071, 1, 2), Err(2));
    assert_eq!(top.ensure_valid(usize::MAX, 1, 2), Err(2));
}

#[test]
fn poll_with_very_many_alternatives_is_too_long() {
    let mut cfg = config();
    cfg.poll_items_constraint = InputValidationLengthConstraint { min: 2, max_min_diff: 18 };
    let mut forum = Module::new(cfg);
    assert!(forum.create_category(true, None, hash(1), hash(1)).is_ok());
    assert_eq!(
        forum.create_thread(true, 11, 0, hash(3), hash(4), Some(poll(65538, 20)), 10),
        Err(Error::PollAlternativesTooLong)
    );
    assert_eq!(forum.next_thread_id(), 0);
    assert_eq!(
        ensure_poll_alternatives_length_is_valid(&cfg.poll_items_constraint, 65538),
        Err(Error::PollAlternativesTooLong)
    );
}

#[test]
fn poll_alternatives_are_counted_against_the_bounds() {
    let c = InputValidationLengthConstraint { min: 2, max_min_diff: 2 };
    assert_eq!(
        ensure_poll_alternatives_length_is_valid(&c, 1),
        Err(Error::PollAlternativesTooShort)
    );
    assert_eq!(ensure_poll_alternatives_length_is_valid(&c, 2), Ok(()));
    assert_eq!(ensure_poll_alternatives_length_is_valid(&c, 4), Ok(()));
    assert_eq!(
        ensure_poll_alternatives_length_is_valid(&c, 5),
        Err(Error::PollAlternativesTooLong)
    );
    assert_eq!(ensure_poll_alternatives_valid(&c, &poll(3, 0).poll_alternatives), Ok(()));
    assert_eq!(
        ensure_poll_alternatives_valid(&c, &poll(0, 0).poll_alternatives),
        Err(Error::PollAlternativesTooShort)
    );
}

#[test]
fn poll_may_end_now_but_not_earlier() {
    assert_eq!(ensure_poll_is_valid(&poll(2, 10), 10), Ok(()));
    assert_eq!(ensure_poll_is_valid(&poll(2, 10), 9), Ok(()));
    assert_eq!(ensure_poll_is_valid(&poll(2, 10), 11), Err(Error::PollTimeSetting));
}

#[test]
fn vote_validity_on_a_thread() {
    let thread = |p: Option<Poll>| Thread {
        title_hash: hash(1),
        category_id: 0,
        author_id: 1,
        archived: false,
        poll: p,
        num_direct_posts: 1,
    };
    assert_eq!(ensure_vote_is_valid(&thread(None), 0, 0), Err(Error::PollNotExist));
    let with_poll = thread(Some(poll(2, 10)));
    assert_eq!(ensure_vote_is_valid(&with_poll, 0, 10), Ok(&poll(2, 10)));
    assert_eq!(ensure_vote_is_valid(&with_poll, 1, 0), Ok(&poll(2, 10)));
    assert_eq!(ensure_vote_is_valid(&with_poll, 2, 0), Err(Error::PollData));
    assert_eq!(ensure_vote_is_valid(&with_poll, 0, 11), Err(Error::PollCommitExpired));
    assert_eq!(ensure_vote_is_valid(&with_poll, 2, 11), Err(Error::PollCommitExpired));
}

#[test]
fn vote_adds_one_to_the_chosen_alternative_only() {
    let mut forum = forum_with_poll();
    assert_eq!(forum.vote_on_poll(true, 0, 0, 1, 15), Ok(Event::VoteOnPoll(0, 1)));
    assert_eq!(votes(&forum), vec![0, 1, 0]);
    assert_eq!(forum.vote_on_poll(true, 0, 0, 2, 15), Ok(Event::VoteOnPoll(0, 2)));
    assert_eq!(votes(&forum), vec![0, 1, 1]);
    let thread = forum.thread_by_id(0, 0).unwrap();
    let stored = thread.poll.as_ref().unwrap();
    assert_eq!(stored.description_hash, hash(9));
    assert_eq!(stored.end_time, 20);
    assert_eq!(stored.poll_alternatives[1].alternative_text_hash, hash(1));
    assert_eq!(thread.title_hash, hash(3));
    assert_eq!(thread.num_direct_posts, 1);
}

#[test]
fn repeated_votes_are_all_counted() {
    let mut forum = forum_with_poll();
    assert_eq!(forum.vote_on_poll(true, 0, 0, 0, 15), Ok(Event::VoteOnPoll(0, 0)));
    assert_eq!(forum.vote_on_poll(true, 0, 0, 0, 16), Ok(Event::VoteOnPoll(0, 0)));
    assert_eq!(votes(&forum), vec![2, 0, 0]);
}

#[test]
fn vote_out_of_range_is_refused() {
    let mut forum = forum_with_poll();
    assert_eq!(forum.vote_on_poll(true, 0, 0, 3, 15), Err(Error::PollData));
    assert_eq!(forum.vote_on_poll(true, 0, 0, u32::MAX, 15), Err(Error::PollData));
    assert_eq!(votes(&forum), vec![0, 0, 0]);
}

#[test]
fn vote_after_the_end_is_refused() {
    let mut forum = forum_with_poll();
    assert_eq!(forum.vote_on_poll(true, 0, 0, 0, 20), Ok(Event::VoteOnPoll(0, 0)));
    assert_eq!(forum.vote_on_poll(true, 0, 0, 0, 21), Err(Error::PollCommitExpired));
    assert_eq!(forum.vote_on_poll(true, 0, 0, 7, 21), Err(Error::PollCommitExpired));
    assert_eq!(votes(&forum), vec![1, 0, 0]);
}

#[test]
fn vote_is_guarded() {
    let mut forum = forum_with_poll();
    assert!(forum.create_thread(true, 11, 0, hash(3), hash(4), None, 10).is_ok());
    assert_eq!(forum.vote_on_poll(false, 0, 0, 0, 15), Err(Error::ForumUserIdNotMatchAccount));
    assert_eq!(forum.vote_on_poll(true, 0, 5, 0, 15), Err(Error::ThreadDoesNotExist));
    assert_eq!(forum.vote_on_poll(true, 3, 0, 0, 15), Err(Error::ThreadDoesNotExist));
    assert_eq!(forum.vote_on_poll(true, 0, 1, 0, 15), Err(Error::PollNotExist));
    assert_eq!(votes(&forum), vec![0, 0, 0]);
}

#[test]
fn votes_given_at_creation_are_kept() {
    let mut forum = Module::new(config());
    assert!(forum.create_category(true, None, hash(1), hash(1)).is_ok());
    let mut p = poll(2, 20);
    p.poll_alternatives[1].vote_count = 7;
    assert!(forum.create_thread(true, 11, 0, hash(3), hash(4), Some(p), 10).is_ok());
    assert_eq!(votes(&forum), vec![0, 7]);
    assert!(forum.vote_on_poll(true, 0, 0, 1, 10).is_ok());
    assert_eq!(votes(&forum), vec![0, 8]);
}
