//! What the list service answers, and the queue of updates waiting to be sent to it.
//!
//! An update waits in the queue for a delay, so that a burst of detections
//! becomes one request, and so that it can still be cancelled. The delay
//! runs from the moment the media was first queued. Only one request is in
//! flight at a time.

use std::collections::VecDeque;
use vstd::prelude::*;
use super::models::{Media, MediaList, MediaListCollection, User};
use super::views::MediaListView;
use crate::text::{parse_seconds, seconds_in};
use vstd::string::StrSliceExecFns;

verus! {

/// An error that the service reports in its answer.
#[derive(Debug, Clone)]
pub struct QueryError {
    pub message: Option<String>,
    pub status: Option<i32>,
}

/// The service's answer to a query.
#[derive(Debug, Clone)]
pub struct QueryResponse<R> {
    pub data: Option<R>,
    pub errors: Option<Vec<QueryError>>,
}

#[derive(Debug, Clone)]
pub struct ViewerResponse {
    pub viewer: Option<User>,
}

#[derive(Debug, Clone)]
pub struct MediaListCollectionResponse {
    pub media_list_collection: Option<MediaListCollection>,
}

#[derive(Debug, Clone)]
pub struct SaveMediaListEntryResponse {
    pub save_media_list_entry: Option<MediaList>,
}

#[derive(Debug, Clone)]
pub struct SearchResponse {
    pub page: SearchPage,
}

#[derive(Debug, Clone)]
pub struct SearchPage {
    pub media: Option<Vec<Option<Media>>>,
}

/// The number of tries that a query has while the service limits the rate.
pub const MAX_RATE_LIMIT_COUNT: u32 = 5;

/// The seconds to wait after a rate-limited try that names no time.
pub const DEFAULT_RETRY_DELAY: u64 = 60;

/// The status of an answer that limits the rate.
pub const TOO_MANY_REQUESTS: u16 = 429;

/// Why no query can be sent with a token.
#[derive(Debug, Clone, Copy, PartialEq, Eq, Structural)]
pub enum TokenError {
    /// No token was given.
    Missing,
    /// The token is empty.
    Empty,
}

/// What to do with the answer to a try of a query.
#[derive(Debug, Clone, Copy, PartialEq, Eq, Structural)]
pub enum Attempt {
    /// The answer is the query's answer.
    Read,
    /// The rate is limited: wait so many seconds, then try again.
    Wait { seconds: u64 },
    /// The rate was limited on the last try that the query has: wait so
    /// many seconds, then report that the query failed.
    GiveUp { seconds: u64 },
}

/// The seconds to wait after a rate-limited try: those that its
/// `Retry-After` header names, or sixty where it names none.
pub open spec fn delay_after(retry_after: Option<Seq<char>>) -> u64 {
    match retry_after {
        Some(header) => match seconds_in(header) {
            Some(seconds) => seconds,
            None => DEFAULT_RETRY_DELAY,
        },
        None => DEFAULT_RETRY_DELAY,
    }
}

/// What to do with the answer to a try: an answer that limits the rate is
/// followed by a wait of the seconds that its `Retry-After` header names, or
/// of sixty where it names none, and then by another try, unless no try is
/// left; any other answer is read.
pub open spec fn attempt_after(status: u16, tries_before: u32, retry_after: Option<Seq<char>>) -> Attempt {
    if status != TOO_MANY_REQUESTS {
        Attempt::Read
    } else if tries_before + 1 >= MAX_RATE_LIMIT_COUNT {
        Attempt::GiveUp { seconds: delay_after(retry_after) }
    } else {
        Attempt::Wait { seconds: delay_after(retry_after) }
    }
}

/// The token to send a query with: the one given, unless it is empty.
pub fn usable_token(token: Option<String>) -> (r: Result<String, TokenError>)
    ensures
        r == (match token {
            Some(token) => if token@.len() == 0 {
                Err(TokenError::Empty)
            } else {
                Ok(token)
            },
            None => Err(TokenError::Missing),
        }),
{
    match token {
        Some(token) => {
            if token.as_str().unicode_len() == 0 {
                Err(TokenError::Empty)
            } else {
                Ok(token)
            }
        },
        None => Err(TokenError::Missing),
    }
}

/// Decides what to do with the answer to a try of a query, given the
/// answer's status, the number of tries made before it, and its
/// `Retry-After` header.
pub fn next_attempt(status: u16, tries_before: u32, retry_after: Option<&str>) -> (r: Attempt)
    ensures
        r == attempt_after(
            status,
            tries_before,
            match retry_after {
                Some(header) => Some(header@),
                None => None,
            },
        ),
{
    if status != TOO_MANY_REQUESTS {
        return Attempt::Read;
    }
    let seconds = match retry_after {
        Some(header) => match parse_seconds(header) {
            Some(seconds) => seconds,
            None => DEFAULT_RETRY_DELAY,
        },
        None => DEFAULT_RETRY_DELAY,
    };
    if tries_before >= MAX_RATE_LIMIT_COUNT - 1 {
        Attempt::GiveUp { seconds }
    } else {
        Attempt::Wait { seconds }
    }
}

/// The updates that wait to be sent, oldest first, each with the time in
/// seconds at which its media was first queued.
#[derive(Debug, Clone)]
pub struct ListUpdateQueue {
    pub waiting: bool,
    pub requests: VecDeque<(MediaList, u64)>,
}

/// The view of a queue.
pub ghost struct ListUpdateQueueView {
    pub waiting: bool,
    pub requests: Seq<(MediaListView, u64)>,
}

impl View for ListUpdateQueue {
    type V = ListUpdateQueueView;

    open spec fn view(&self) -> ListUpdateQueueView {
        ListUpdateQueueView {
            waiting: self.waiting,
            requests: Seq::new(self.requests@.len(), |i: int| (self.requests@[i].0@, self.requests@[i].1)),
        }
    }
}

/// The seconds from `earlier` to `now`; none where `now` is not later.
pub open spec fn elapsed(earlier: u64, now: u64) -> int {
    if now >= earlier {
        now - earlier
    } else {
        0
    }
}

/// Whether request `i` is the first for the media `id`.
pub open spec fn is_request_for(requests: Seq<(MediaListView, u64)>, id: i32, i: int) -> bool {
    &&& 0 <= i < requests.len()
    &&& requests[i].0.media_id == id
    &&& forall|j: int| 0 <= j < i ==> (#[trigger] requests[j]).0.media_id != id
}

impl ListUpdateQueueView {
    /// No two requests are for the same media.
    pub open spec fn wf(self) -> bool {
        forall|i: int, j: int|
            0 <= i < j < self.requests.len() ==> (#[trigger] self.requests[i]).0.media_id != (
            #[trigger] self.requests[j]).0.media_id
    }

    /// The index of the first request for the media `id`.
    pub open spec fn index_of(self, id: i32) -> Option<int> {
        if exists|i: int| is_request_for(self.requests, id, i) {
            Some(choose|i: int| is_request_for(self.requests, id, i))
        } else {
            None
        }
    }

    /// The queue after `media` was queued at the time `now`: the new data in
    /// place of the old where the media is queued already, with the old
    /// time; else one more request at the end.
    pub open spec fn enqueued(self, media: MediaListView, now: u64) -> Self {
        match self.index_of(media.media_id) {
            Some(i) => ListUpdateQueueView {
                requests: self.requests.update(i, (media, self.requests[i].1)),
                ..self
            },
            None => ListUpdateQueueView { requests: self.requests.push((media, now)), ..self },
        }
    }

    /// Whether the oldest request may be sent at the time `now`: no request
    /// is in flight, and the delay has passed since its media was queued.
    pub open spec fn is_due(self, now: u64, delay: u64) -> bool {
        &&& !self.waiting
        &&& self.requests.len() > 0
        &&& elapsed(self.requests[0].1, now) >= delay
    }

    /// The queue after a try to take the oldest request at the time `now`.
    pub open spec fn dequeued(self, now: u64, delay: u64) -> Self {
        if self.is_due(now, delay) {
            ListUpdateQueueView { requests: self.requests.drop_first(), ..self }
        } else {
            self
        }
    }

    /// The queue with a request in flight, or with none.
    pub open spec fn set_waiting(self, waiting: bool) -> Self {
        ListUpdateQueueView { waiting, ..self }
    }

    /// The queue without the request for the media `id`.
    pub open spec fn cancelled(self, id: i32) -> Self {
        match self.index_of(id) {
            Some(i) => self.removed(i),
            None => self,
        }
    }

    /// The queue without request `index`.
    pub open spec fn removed(self, index: int) -> Self {
        if 0 <= index < self.requests.len() {
            ListUpdateQueueView { requests: self.requests.remove(index), ..self }
        } else {
            self
        }
    }
}

/// Where some request is for the media `id`, one of them is the first.
pub proof fn lemma_some_request_for(requests: Seq<(MediaListView, u64)>, id: i32, i: int)
    requires
        0 <= i < requests.len(),
        requests[i].0.media_id == id,
    ensures
        exists|k: int| is_request_for(requests, id, k),
    decreases i,
{
    if exists|j: int| 0 <= j < i && (#[trigger] requests[j]).0.media_id == id {
        let j = choose|j: int| 0 <= j < i && (#[trigger] requests[j]).0.media_id == id;
        lemma_some_request_for(requests, id, j);
    } else {
        assert(is_request_for(requests, id, i));
    }
}

/// Queueing keeps the media of the requests distinct.
pub proof fn lemma_enqueued_stays_unique(queue: ListUpdateQueueView, media: MediaListView, now: u64)
    requires
        queue.wf(),
    ensures
        queue.enqueued(media, now).wf(),
{
    let after = queue.enqueued(media, now).requests;
    if queue.index_of(media.media_id) is None {
        assert forall|a: int, b: int| 0 <= a < b < after.len() implies (#[trigger] after[a]).0.media_id != (
        #[trigger] after[b]).0.media_id by {
            if b >= queue.requests.len() && after[a].0.media_id == media.media_id {
                lemma_some_request_for(queue.requests, media.media_id, a);
            }
        }
    }
}

/// Taking requests out of the queue keeps the media of the rest distinct:
/// the oldest when it is due, one by its index, and one by its media.
pub proof fn lemma_queue_stays_unique(queue: ListUpdateQueueView, id: i32)
    requires
        queue.wf(),
    ensures
        forall|now: u64, delay: u64| (#[trigger] queue.dequeued(now, delay)).wf(),
        forall|index: int| (#[trigger] queue.removed(index)).wf(),
        queue.cancelled(id).wf(),
        queue.set_waiting(true).wf(),
        queue.set_waiting(false).wf(),
{
}

/// Queueing the media of a request that waits already leaves the time of
/// the request as it was, and the number of requests too: the delay runs
/// from the first time that the media was queued.
pub proof fn lemma_requeue_keeps_the_time(queue: ListUpdateQueueView, media: MediaListView, now: u64, i: int)
    requires
        queue.index_of(media.media_id) == Some(i),
    ensures
        queue.enqueued(media, now).requests.len() == queue.requests.len(),
        queue.enqueued(media, now).requests[i] == (media, queue.requests[i].1),
        forall|j: int|
            0 <= j < queue.requests.len() && j != i ==> #[trigger] queue.enqueued(media, now).requests[j]
                == queue.requests[j],
{
}

impl Default for ListUpdateQueue {
    /// An empty queue with no request in flight.
    fn default() -> (r: Self)
        ensures
            !r@.waiting,
            r@.requests.len() == 0,
            r@.wf(),
    {
        ListUpdateQueue { waiting: false, requests: VecDeque::new() }
    }
}

impl ListUpdateQueue {
    /// Queues an update at the time `now`, in seconds. Where an update for
    /// the same media waits already, the new data takes its place and the
    /// time of the first one stays.
    pub fn enqueue(&mut self, media: MediaList, now: u64)
        ensures
            final(self)@ == old(self)@.enqueued(media@, now),
            old(self)@.wf() ==> final(self)@.wf(),
    {
        proof {
            if self@.wf() {
                lemma_enqueued_stays_unique(self@, media@, now);
            }
        }
        match self.find_index(media.media_id) {
            Some(i) => {
                let ghost before = self@;
                let ghost replacement = media@;
                let at = self.requests[i].1;
                self.requests.remove(i);
                self.requests.insert(i, (media, at));
                assert(self@.requests =~= before.requests.update(i as int, (replacement, at)));
            },
            None => {
                let ghost before = self@;
                let ghost added = media@;
                self.requests.push_back((media, now));
                assert(self@.requests =~= before.requests.push((added, now)));
            },
        }
    }

    /// Whether a request is in flight.
    pub fn is_waiting(&self) -> (r: bool)
        ensures
            r == self@.waiting,
    {
        self.waiting
    }

    /// Marks that a request is in flight, or that it has come back.
    pub fn set_waiting(&mut self, waiting: bool)
        ensures
            final(self)@ == old(self)@.set_waiting(waiting),
    {
        self.waiting = waiting;
    }

    /// Takes the oldest request at the time `now`, if no request is in
    /// flight and at least `update_delay` seconds have passed since its
    /// media was queued.
    pub fn dequeue(&mut self, now: u64, update_delay: u64) -> (r: Option<MediaList>)
        ensures
            final(self)@ == old(self)@.dequeued(now, update_delay),
            match r {
                Some(media) => old(self)@.is_due(now, update_delay) && media@ == old(self)@.requests[0].0,
                None => !old(self)@.is_due(now, update_delay),
            },
            old(self)@.wf() ==> final(self)@.wf(),
    {
        if self.waiting || self.requests.len() == 0 {
            return None;
        }
        let earlier = self.requests[0].1;
        let passed = if now >= earlier {
            now - earlier
        } else {
            0
        };
        if passed >= update_delay {
            let ghost before = self@;
            let front = self.requests.pop_front();
            assert(self@.requests =~= before.requests.drop_first());
            match front {
                Some((media, _)) => Some(media),
                None => None,
            }
        } else {
            None
        }
    }

    /// Takes request `index` out of the queue, however long it has waited.
    pub fn remove(&mut self, index: usize) -> (r: Option<MediaList>)
        ensures
            final(self)@ == old(self)@.removed(index as int),
            match r {
                Some(media) => index < old(self)@.requests.len() && media@ == old(self)@.requests[index as int].0,
                None => index >= old(self)@.requests.len(),
            },
            old(self)@.wf() ==> final(self)@.wf(),
    {
        let ghost before = self@;
        match self.requests.remove(index) {
            Some((media, _)) => {
                assert(self@.requests =~= before.requests.remove(index as int));
                Some(media)
            },
            None => {
                None
            },
        }
    }

    /// The index of the request for the media `media_id`.
    pub fn find_index(&self, media_id: i32) -> (r: Option<usize>)
        ensures
            match r {
                Some(i) => self@.index_of(media_id) == Some(i as int) && i < self.requests@.len(),
                None => self@.index_of(media_id) is None,
            },
    {
        let ghost requests = self@.requests;
        let mut i: usize = 0;
        while i < self.requests.len()
            invariant
                i <= self.requests.len(),
                requests == self@.requests,
                requests.len() == self.requests@.len(),
                forall|j: int| 0 <= j < i ==> (#[trigger] requests[j]).0.media_id != media_id,
            decreases self.requests.len() - i,
        {
            if self.requests[i].0.media_id == media_id {
                assert(is_request_for(requests, media_id, i as int));
                return Some(i);
            }
            i += 1;
        }
        None
    }

    /// Cancels the update for the media `media_id`, however long it has waited.
    pub fn cancel(&mut self, media_id: i32) -> (r: Option<MediaList>)
        ensures
            final(self)@ == old(self)@.cancelled(media_id),
            match old(self)@.index_of(media_id) {
                Some(i) => {
                    &&& final(self)@ == old(self)@.removed(i)
                    &&& r matches Some(media)
                    &&& media@ == old(self)@.requests[i].0
                },
                None => final(self)@ == old(self)@ && r is None,
            },
            old(self)@.wf() ==> final(self)@.wf(),
    {
        match self.find_index(media_id) {
            Some(i) => self.remove(i),
            None => None,
        }
    }
}

} // verus!
