//! The notifications the operations hand back for whoever listens.

use crate::types::{CategoryId, Error, ForumUserId, ModeratorId, PostId, PostReactionId, ThreadId};
use vstd::prelude::*;

verus! {

/// What happened in an operation that went through. A rejected operation
/// yields none.
#[derive(Debug, PartialEq, Eq)]
pub enum Event {
    /// A category was created.
    CategoryCreated(CategoryId),
    /// A category got the archival status given.
    CategoryUpdated(CategoryId, bool),
    /// A category was deleted.
    CategoryDeleted(CategoryId),
    /// A moderator was assigned to a category (`true`) or taken off it.
    CategoryMembershipOfModeratorUpdated(ModeratorId, CategoryId, bool),
    /// A thread was created.
    ThreadCreated(ThreadId),
    /// A thread was removed by moderation, for the reason given.
    ThreadModerated(ThreadId, Vec<u8>),
    /// A thread got the archival status given.
    ThreadUpdated(ThreadId, bool),
    /// A thread got a new title.
    ThreadTitleUpdated(ThreadId),
    /// A thread was deleted.
    ThreadDeleted(ThreadId),
    /// A thread moved to the category given.
    ThreadMoved(ThreadId, CategoryId),
    /// A post was added.
    PostAdded(PostId),
    /// A post was removed by moderation, for the reason given.
    PostModerated(PostId, Vec<u8>),
    /// A post got a new text.
    PostTextUpdated(PostId),
    /// A member reacted to a post.
    PostReacted(ForumUserId, PostId, PostReactionId),
    /// A vote was cast for the alternative given of a thread's poll.
    VoteOnPoll(ThreadId, u32),
    /// A category got the sticky threads given.
    CategoryStickyThreadUpdate(CategoryId, Vec<ThreadId>),
}

/// An event as a mathematical value.
pub enum EventView {
    CategoryCreated(CategoryId),
    CategoryUpdated(CategoryId, bool),
    CategoryDeleted(CategoryId),
    CategoryMembershipOfModeratorUpdated(ModeratorId, CategoryId, bool),
    ThreadCreated(ThreadId),
    ThreadModerated(ThreadId, Seq<u8>),
    ThreadUpdated(ThreadId, bool),
    ThreadTitleUpdated(ThreadId),
    ThreadDeleted(ThreadId),
    ThreadMoved(ThreadId, CategoryId),
    PostAdded(PostId),
    PostModerated(PostId, Seq<u8>),
    PostTextUpdated(PostId),
    PostReacted(ForumUserId, PostId, PostReactionId),
    VoteOnPoll(ThreadId, u32),
    CategoryStickyThreadUpdate(CategoryId, Seq<ThreadId>),
}

impl View for Event {
    type V = EventView;

    open spec fn view(&self) -> EventView {
        match *self {
            Event::CategoryCreated(c) => EventView::CategoryCreated(c),
            Event::CategoryUpdated(c, a) => EventView::CategoryUpdated(c, a),
            Event::CategoryDeleted(c) => EventView::CategoryDeleted(c),
            Event::CategoryMembershipOfModeratorUpdated(m, c, v) =>
                EventView::CategoryMembershipOfModeratorUpdated(m, c, v),
            Event::ThreadCreated(t) => EventView::ThreadCreated(t),
            Event::ThreadModerated(t, r) => EventView::ThreadModerated(t, r@),
            Event::ThreadUpdated(t, a) => EventView::ThreadUpdated(t, a),
            Event::ThreadTitleUpdated(t) => EventView::ThreadTitleUpdated(t),
            Event::ThreadDeleted(t) => EventView::ThreadDeleted(t),
            Event::ThreadMoved(t, c) => EventView::ThreadMoved(t, c),
            Event::PostAdded(p) => EventView::PostAdded(p),
            Event::PostModerated(p, r) => EventView::PostModerated(p, r@),
            Event::PostTextUpdated(p) => EventView::PostTextUpdated(p),
            Event::PostReacted(u, p, r) => EventView::PostReacted(u, p, r),
            Event::VoteOnPoll(t, i) => EventView::VoteOnPoll(t, i),
            Event::CategoryStickyThreadUpdate(c, ids) => EventView::CategoryStickyThreadUpdate(
                c,
                ids@,
            ),
        }
    }
}

/// Tells whether two sequences of bytes are the same.
fn same_bytes(a: &Vec<u8>, b: &Vec<u8>) -> (same: bool)
    ensures
        same == (a@ == b@),
{
    if a.len() != b.len() {
        return false;
    }
    let mut i: usize = 0;
    while i < a.len()
        invariant
            i <= a.len(),
            a.len() == b.len(),
            forall|j: int| 0 <= j < i ==> a@[j] == b@[j],
        decreases a.len() - i,
    {
        if a[i] != b[i] {
            return false;
        }
        i += 1;
    }
    assert(a@ =~= b@);
    true
}

/// Tells whether two sequences of ids are the same.
fn same_ids(a: &Vec<u64>, b: &Vec<u64>) -> (same: bool)
    ensures
        same == (a@ == b@),
{
    if a.len() != b.len() {
        return false;
    }
    let mut i: usize = 0;
    while i < a.len()
        invariant
            i <= a.len(),
            a.len() == b.len(),
            forall|j: int| 0 <= j < i ==> a@[j] == b@[j],
        decreases a.len() - i,
    {
        if a[i] != b[i] {
            return false;
        }
        i += 1;
    }
    assert(a@ =~= b@);
    true
}

impl Event {
    /// Tells whether two events say the same.
    pub fn same_as(&self, other: &Event) -> (same: bool)
        ensures
            same == (self@ == other@),
    {
        match (self, other) {
            (Event::CategoryCreated(a), Event::CategoryCreated(b)) => *a == *b,
            (Event::CategoryUpdated(a, x), Event::CategoryUpdated(b, y)) => *a == *b && *x == *y,
            (Event::CategoryDeleted(a), Event::CategoryDeleted(b)) => *a == *b,
            (
                Event::CategoryMembershipOfModeratorUpdated(a, c, x),
                Event::CategoryMembershipOfModeratorUpdated(b, d, y),
            ) => *a == *b && *c == *d && *x == *y,
            (Event::ThreadCreated(a), Event::ThreadCreated(b)) => *a == *b,
            (Event::ThreadModerated(a, x), Event::ThreadModerated(b, y)) => *a == *b
                && same_bytes(x, y),
            (Event::ThreadUpdated(a, x), Event::ThreadUpdated(b, y)) => *a == *b && *x == *y,
            (Event::ThreadTitleUpdated(a), Event::ThreadTitleUpdated(b)) => *a == *b,
            (Event::ThreadDeleted(a), Event::ThreadDeleted(b)) => *a == *b,
            (Event::ThreadMoved(a, x), Event::ThreadMoved(b, y)) => *a == *b && *x == *y,
            (Event::PostAdded(a), Event::PostAdded(b)) => *a == *b,
            (Event::PostModerated(a, x), Event::PostModerated(b, y)) => *a == *b && same_bytes(
                x,
                y,
            ),
            (Event::PostTextUpdated(a), Event::PostTextUpdated(b)) => *a == *b,
            (Event::PostReacted(a, c, x), Event::PostReacted(b, d, y)) => *a == *b && *c == *d
                && *x == *y,
            (Event::VoteOnPoll(a, x), Event::VoteOnPoll(b, y)) => *a == *b && *x == *y,
            (
                Event::CategoryStickyThreadUpdate(a, x),
                Event::CategoryStickyThreadUpdate(b, y),
            ) => *a == *b && same_ids(x, y),
            _ => false,
        }
    }
}

/// What an operation answers: the event, where nothing stands in its way;
/// else the error that names what does.
pub open spec fn answers(
    res: Result<Event, Error>,
    guard: Option<Error>,
    event: EventView,
) -> bool {
    match res {
        Ok(ev) => guard is None && ev@ == event,
        Err(e) => guard == Some(e),
    }
}

/// The views of the events of a log, in order.
pub open spec fn log_view(events: Seq<Event>) -> Seq<EventView> {
    events.map_values(|e: Event| e@)
}

/// Whether the log shows that an operation went through: it holds as many
/// events as expected, and the last of them is the one expected.
pub open spec fn shows_success(
    events: Seq<Event>,
    tested_event: Event,
    number_of_events_after_call: usize,
) -> bool {
    &&& events.len() == number_of_events_after_call
    &&& events.len() > 0
    &&& log_view(events).last() == tested_event@
}

/// Whether the answer and the log show that an operation was rejected: the
/// answer is the expected error, and the log holds as many events as before
/// the call.
pub open spec fn shows_failure(
    call_result: Result<Event, Error>,
    expected_error: Error,
    events: Seq<Event>,
    number_of_events_before_call: usize,
) -> bool {
    &&& call_result == Err::<Event, Error>(expected_error)
    &&& events.len() == number_of_events_before_call
}

/// Tells whether the log shows that an operation went through.
pub fn event_success(
    events: &Vec<Event>,
    tested_event: &Event,
    number_of_events_after_call: usize,
) -> (ok: bool)
    ensures
        ok == shows_success(events@, *tested_event, number_of_events_after_call),
{
    if events.len() != number_of_events_after_call {
        return false;
    }
    if events.len() == 0 {
        return false;
    }
    events[events.len() - 1].same_as(tested_event)
}

/// Tells whether the answer and the log show that an operation was rejected.
pub fn event_failure(
    call_result: &Result<Event, Error>,
    expected_error: Error,
    events: &Vec<Event>,
    number_of_events_before_call: usize,
) -> (ok: bool)
    ensures
        ok == shows_failure(*call_result, expected_error, events@, number_of_events_before_call),
{
    match call_result {
        Err(e) => same_error(*e, expected_error) && events.len() == number_of_events_before_call,
        Ok(_) => false,
    }
}

/// Takes it as given that an operation went through: the log has to hold as
/// many events as expected, the last of them the one expected. There is
/// nothing to do where that is so, and the call is not to be made where it is
/// not; `event_success` tells which.
pub fn assert_event_success(
    events: &Vec<Event>,
    tested_event: &Event,
    number_of_events_after_call: usize,
)
    requires
        shows_success(events@, *tested_event, number_of_events_after_call),
{
}

/// Takes it as given that an operation was rejected: the answer has to be
/// the expected error and the log has to hold as many events as before the
/// call. There is nothing to do where that is so, and the call is not to be
/// made where it is not; `event_failure` tells which.
pub fn assert_failure(
    call_result: &Result<Event, Error>,
    expected_error: Error,
    events: &Vec<Event>,
    number_of_events_before_call: usize,
)
    requires
        shows_failure(*call_result, expected_error, events@, number_of_events_before_call),
{
}

/// Tells whether two errors are the same.
pub fn same_error(a: Error, b: Error) -> (same: bool)
    ensures
        same == (a == b),
{
    a == b
}

} // verus!
