//! Requests for recognizing the text in a screen region, and the bounded pool of
//! recognition workers that serves them.

use crate::job::entity::ScreenRect;
use vstd::prelude::*;

verus! {

/// `std::time::Instant`, carried with a request without being read.
#[verifier::external_type_specification]
#[verifier::external_body]
pub struct ExInstant(std::time::Instant);

/// The workers the pool starts with.
pub const INITIAL_WORKER_COUNT: usize = 1;

/// The most workers the pool ever holds.
pub const MAX_WORKER_COUNT: usize = 8;

/// A request to recognize the text in a region.
#[derive(Debug)]
pub struct PerceptionRequest {
    pub request_id: u64,
    pub region: ScreenRect,
    pub submitted_at: std::time::Instant,
}

/// The text recognized for a request.
#[derive(Debug, Clone)]
pub struct PerceptionResult {
    pub request_id: u64,
    pub region: ScreenRect,
    pub summary: String,
    pub text: String,
    pub latency_ms: u128,
}

/// Why a request failed.
#[derive(Debug, Clone)]
pub struct PerceptionError {
    pub request_id: u64,
    pub message: String,
}

impl PerceptionError {
    /// The error's text: `request <id> failed: <message>`.
    pub fn describe(&self) -> (s: String)
        ensures
            s@ == "request "@ + crate::text::decimal(self.request_id as nat) + " failed: "@
                + self.message@,
    {
        let mut s = String::new();
        s.append("request ");
        crate::text::push_decimal(&mut s, self.request_id);
        s.append(" failed: ");
        s.append(self.message.as_str());
        s
    }
}

/// The summary shown for recognized text: `OCR: <text>`.
pub fn recognition_summary(text: &str) -> (s: String)
    ensures
        s@ == "OCR: "@ + text@,
{
    let mut s = String::new();
    s.append("OCR: ");
    s.append(text);
    s
}

/// Whether a worker serves a request.
#[derive(Debug, Clone, Copy, PartialEq, Eq, Structural)]
pub enum WorkerStatus {
    Idle,
    Working(u64),
}

/// A recognition worker: its number, its recognizer, and what it does.
pub struct PerceptionWorker<P> {
    pub id: usize,
    pub perceptor: P,
    pub status: WorkerStatus,
}

/// The number of workers a pool starts with: at least one, at most the maximum.
pub fn initial_worker_count(requested: usize) -> (n: usize)
    ensures
        n == (if requested < 1 {
            1
        } else if requested > MAX_WORKER_COUNT {
            MAX_WORKER_COUNT
        } else {
            requested
        }),
{
    if requested < 1 {
        1
    } else if requested > MAX_WORKER_COUNT {
        MAX_WORKER_COUNT
    } else {
        requested
    }
}

/// What a request gets from the pool.
pub enum Checkout<P> {
    /// An idle worker, now serving the request.
    Reuse(PerceptionWorker<P>),
    /// Room for one more worker, which the caller builds with this number and then
    /// reports with `finish_build`.
    Build(usize),
    /// Every worker is busy and the pool is full: wait for a release.
    Wait,
}

/// The pool's bookkeeping: idle workers, and how many serve or are being built.
pub struct PoolState<P> {
    pub idle_workers: Vec<PerceptionWorker<P>>,
    pub working_workers: usize,
    pub initializing_workers: usize,
    pub next_worker_id: usize,
}

impl<P> PoolState<P> {
    /// All workers, idle, serving, or being built.
    pub open spec fn spec_total_workers(&self) -> int {
        self.idle_workers@.len() + self.working_workers + self.initializing_workers
    }

    /// Every worker ever numbered still exists, and the pool stays within its bound.
    pub open spec fn wf(&self) -> bool {
        &&& self.spec_total_workers() == self.next_worker_id
        &&& self.next_worker_id <= MAX_WORKER_COUNT
    }

    /// A pool holding the given idle workers.
    pub fn new(idle_workers: Vec<PerceptionWorker<P>>) -> (s: Self)
        requires
            idle_workers@.len() <= MAX_WORKER_COUNT,
        ensures
            s.wf(),
            s.idle_workers@ == idle_workers@,
            s.working_workers == 0,
            s.initializing_workers == 0,
    {
        let n = idle_workers.len();
        PoolState { idle_workers, working_workers: 0, initializing_workers: 0, next_worker_id: n }
    }

    pub fn total_workers(&self) -> (n: usize)
        requires
            self.wf(),
        ensures
            n == self.spec_total_workers(),
    {
        self.idle_workers.len() + self.working_workers + self.initializing_workers
    }

    /// Hands request `request_id` an idle worker, room for a new worker, or nothing.
    pub fn checkout(&mut self, request_id: u64) -> (c: Checkout<P>)
        requires
            old(self).wf(),
        ensures
            final(self).wf(),
            old(self).idle_workers@.len() > 0 ==> (c matches Checkout::Reuse(w) && w.status
                == WorkerStatus::Working(request_id) && w.id == old(self).idle_workers@.last().id
                && final(self).idle_workers@ == old(self).idle_workers@.drop_last()
                && final(self).working_workers == old(self).working_workers + 1
                && final(self).initializing_workers == old(self).initializing_workers),
            old(self).idle_workers@.len() == 0 && old(self).spec_total_workers() < MAX_WORKER_COUNT
                ==> (c matches Checkout::Build(id) && id == old(self).next_worker_id
                && final(self).next_worker_id == old(self).next_worker_id + 1
                && final(self).initializing_workers == old(self).initializing_workers + 1
                && final(self).working_workers == old(self).working_workers
                && final(self).idle_workers@ == old(self).idle_workers@),
            old(self).idle_workers@.len() == 0 && old(self).spec_total_workers() >= MAX_WORKER_COUNT
                ==> (c is Wait && final(self).idle_workers@ == old(self).idle_workers@
                && final(self).working_workers == old(self).working_workers
                && final(self).initializing_workers == old(self).initializing_workers
                && final(self).next_worker_id == old(self).next_worker_id),
    {
        match self.idle_workers.pop() {
            Some(mut worker) => {
                worker.status = WorkerStatus::Working(request_id);
                self.working_workers = self.working_workers + 1;
                Checkout::Reuse(worker)
            },
            None => {
                if self.total_workers() < MAX_WORKER_COUNT {
                    let worker_id = self.next_worker_id;
                    self.next_worker_id = self.next_worker_id + 1;
                    self.initializing_workers = self.initializing_workers + 1;
                    Checkout::Build(worker_id)
                } else {
                    Checkout::Wait
                }
            },
        }
    }

    /// A worker that was being built now serves its request.
    pub fn finish_build(&mut self)
        requires
            old(self).wf(),
            old(self).initializing_workers > 0,
        ensures
            final(self).wf(),
            final(self).initializing_workers == old(self).initializing_workers - 1,
            final(self).working_workers == old(self).working_workers + 1,
            final(self).idle_workers@ == old(self).idle_workers@,
            final(self).next_worker_id == old(self).next_worker_id,
    {
        self.initializing_workers = self.initializing_workers - 1;
        self.working_workers = self.working_workers + 1;
    }

    /// A worker finished its request and becomes idle again.
    pub fn release(&mut self, worker: PerceptionWorker<P>)
        requires
            old(self).wf(),
            old(self).working_workers > 0,
        ensures
            final(self).wf(),
            final(self).working_workers == old(self).working_workers - 1,
            final(self).initializing_workers == old(self).initializing_workers,
            final(self).idle_workers@.len() == old(self).idle_workers@.len() + 1,
            final(self).idle_workers@.drop_last() == old(self).idle_workers@,
            final(self).idle_workers@.last().id == worker.id,
            final(self).idle_workers@.last().status == WorkerStatus::Idle,
            final(self).next_worker_id == old(self).next_worker_id,
    {
        let mut worker = worker;
        worker.status = WorkerStatus::Idle;
        self.working_workers = self.working_workers - 1;
        self.idle_workers.push(worker);
        proof {
            assert(self.idle_workers@.drop_last() =~= old(self).idle_workers@);
        }
    }
}

/// The slot in which the response to a request waits until the requester takes
/// it, and whether a requester waits to be woken.
pub struct PerceptionFuture {
    pub result: Option<Result<PerceptionResult, PerceptionError>>,
    pub waker_registered: bool,
}

/// The slot after a poll, and what the poll hands out.
pub open spec fn spec_poll(f: PerceptionFuture) -> (PerceptionFuture, Option<
    Result<PerceptionResult, PerceptionError>,
>) {
    match f.result {
        Some(response) => (PerceptionFuture { result: None, ..f }, Some(response)),
        None => (PerceptionFuture { result: None, waker_registered: true }, None),
    }
}

/// The slot after the response arrived.
pub open spec fn spec_complete(
    f: PerceptionFuture,
    response: Result<PerceptionResult, PerceptionError>,
) -> PerceptionFuture {
    PerceptionFuture { result: Some(response), waker_registered: false }
}

impl PerceptionFuture {
    /// An empty slot that no one waits on.
    pub fn new() -> (f: Self)
        ensures
            f.result is None,
            !f.waker_registered,
    {
        PerceptionFuture { result: None, waker_registered: false }
    }

    /// Takes the response when it has arrived; otherwise the requester registers
    /// to be woken and gets nothing yet.
    pub fn poll(&mut self) -> (r: Option<Result<PerceptionResult, PerceptionError>>)
        ensures
            (*final(self), r) == spec_poll(*old(self)),
    {
        match self.result.take() {
            Some(response) => Some(response),
            None => {
                self.waker_registered = true;
                None
            },
        }
    }
}

/// Puts the response into the slot; whether a waiting requester is to be woken is
/// returned, and its registration is used up.
pub fn complete_future(
    state: &mut PerceptionFuture,
    response: Result<PerceptionResult, PerceptionError>,
) -> (wake: bool)
    ensures
        *final(state) == spec_complete(*old(state), response),
        wake == old(state).waker_registered,
{
    state.result = Some(response);
    let wake = state.waker_registered;
    state.waker_registered = false;
    wake
}

/// Law: the response put into a slot is what the next poll hands out, and only
/// that poll: the one after it finds the slot empty again.
pub proof fn law_poll_takes_completed_response(
    slot: PerceptionFuture,
    response: Result<PerceptionResult, PerceptionError>,
)
    ensures
        spec_poll(spec_complete(slot, response)).1 == Some(response),
        spec_poll(spec_poll(spec_complete(slot, response)).0).1 is None,
{
}

/// Law: a requester that polled before the response arrived is woken when it
/// arrives.
pub proof fn law_waiting_poller_is_woken(slot: PerceptionFuture)
    requires
        slot.result is None,
    ensures
        spec_poll(slot).0.waker_registered,
{
}

/// Law: whatever requests arrive and finish, the pool never holds more than
/// `MAX_WORKER_COUNT` workers.
pub proof fn law_pool_bounded<P>(pool: &PoolState<P>)
    requires
        pool.wf(),
    ensures
        pool.spec_total_workers() <= MAX_WORKER_COUNT,
{
}

} // verus!
