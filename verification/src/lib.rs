//! A fixed-size worker pool: a fixed number of long-lived threads consume
//! jobs from one shared FIFO channel and run each job exactly once.
//!
//! The pool owns the send side of the channel; every worker shares the
//! receive side under mutual exclusion. Submission is fire-and-forget.
//! Shutdown sends one `Terminate` message per live worker and then joins
//! every worker thread, skipping workers whose thread was already joined.

use vstd::prelude::*;

mod channel;
pub mod model;

use crate::channel::make_channel;
use crate::channel::send_message;

pub use crate::channel::SharedReceiver;

verus! {

/// A single unit of deferred work: run exactly once, on any thread,
/// with no value returned to the submitter.
///
/// A job promises nothing about what `run` does; any output happens
/// through the side effects of the job itself.
pub trait Job: Sized {
    fn run(self);
}

/// What travels on the work channel: either one job, or the control
/// signal that makes the receiving worker exit its loop.
pub enum Message<J> {
    NewJob(J),
    Terminate,
}

/// The two states of a worker's dispatch loop.
#[derive(PartialEq, Eq, Structural)]
pub enum WorkerState {
    Running,
    Stopped,
}

/// One step of the worker state machine: run the job if the channel
/// handed one over, and decide whether the worker keeps looping.
///
/// The worker stays `Running` exactly when it received a new job;
/// `Terminate` and a disconnected channel (`None`) both stop it, the
/// latter being the expected signal that no more work will ever arrive.
pub fn worker_step<J: Job>(msg: Option<Message<J>>) -> (state: WorkerState)
    ensures
        state == WorkerState::Running <==> (msg matches Some(Message::NewJob(_))),
{
    match msg {
        Some(Message::NewJob(job)) => {
            job.run();
            WorkerState::Running
        },
        Some(Message::Terminate) => WorkerState::Stopped,
        None => WorkerState::Stopped,
    }
}

/// One full turn of a worker's dispatch loop: block on the shared
/// receiver for the next message, then step the state machine on it.
///
/// A worker thread is this call repeated until it yields `Stopped`.
/// The loop shell itself stays outside the library: it has no
/// termination bound, since the pool may keep sending jobs forever.
pub fn worker_turn<J: Job>(receiver: &SharedReceiver<J>) -> (state: WorkerState) {
    let msg = receiver.recv_message();
    worker_step(msg)
}

/// The error of a submission whose message the channel refused: every
/// receive handle is gone, so no worker could ever run the job. While
/// any worker of the pool is alive this cannot happen.
#[derive(Debug, PartialEq, Eq, Structural)]
pub struct ChannelClosed;

/// The submission verdict the pool reports for each channel outcome:
/// `Ok` exactly when the channel accepted the message.
fn submit_verdict(accepted: bool) -> (r: Result<(), ChannelClosed>)
    ensures
        r is Ok <==> accepted,
{
    if accepted {
        Ok(())
    } else {
        Err(ChannelClosed)
    }
}

/// How many workers of `live` are still live: the number of `Terminate`
/// messages a shutdown owes, one per worker not yet stopped.
pub open spec fn live_count(live: Seq<bool>) -> nat
    decreases live.len(),
{
    if live.len() == 0 {
        0
    } else {
        live_count(live.drop_last()) + if live.last() {
            1nat
        } else {
            0nat
        }
    }
}

proof fn lemma_live_count_all(live: Seq<bool>)
    requires
        forall|i: int| 0 <= i < live.len() ==> live[i],
    ensures
        live_count(live) == live.len(),
    decreases live.len(),
{
    if live.len() > 0 {
        lemma_live_count_all(live.drop_last());
    }
}

proof fn lemma_live_count_none(live: Seq<bool>)
    requires
        forall|i: int| 0 <= i < live.len() ==> !live[i],
    ensures
        live_count(live) == 0,
    decreases live.len(),
{
    if live.len() > 0 {
        lemma_live_count_none(live.drop_last());
    }
}

/// One worker as the pool sees it: a stable identifier and the handle
/// of its thread, taken (set to `None`) once the thread is joined, so
/// that no worker is ever joined twice.
struct Worker<H> {
    id: usize,
    thread: Option<H>,
}

impl<H> Worker<H> {
    /// The identifier the worker was constructed with.
    pub closed spec fn id_spec(&self) -> usize {
        self.id
    }

    /// Whether the worker's thread handle has not been taken yet.
    pub closed spec fn is_live(&self) -> bool {
        self.thread is Some
    }
}

/// A fixed-size worker pool: `new` starts one worker per slot, `execute`
/// queues a job for whichever worker next becomes idle, and `shutdown`
/// terminates and joins every worker.
///
/// The pool is generic over the thread handle `H`: starting a thread and
/// waiting for it are handed in by the embedding, since the library can
/// state nothing about threads themselves. The pool owns the bookkeeping:
/// worker identities, the send side of the channel, and the
/// at-most-once join of every handle.
#[verifier::reject_recursive_types(J)]
pub struct ThreadPool<J, H> {
    workers: Vec<Worker<H>>,
    sender: std::sync::mpsc::Sender<Message<J>>,
}

impl<J, H> ThreadPool<J, H> {
    /// The pool as the contracts see it: one entry per worker, in
    /// identifier order, true while that worker still holds its thread
    /// handle and false once the handle was taken for joining.
    pub closed spec fn live_view(&self) -> Seq<bool> {
        Seq::new(self.workers.len() as nat, |i: int| self.workers[i].is_live())
    }

    /// How many workers the pool was built with; never changes.
    pub open spec fn num_workers(&self) -> nat {
        self.live_view().len()
    }

    /// Each worker sits at the slot of its own identifier.
    pub closed spec fn wf(&self) -> bool {
        forall|i: int|
            0 <= i < self.workers.len() ==> (#[trigger] self.workers[i]).id_spec() == i
    }

    /// Every worker still holds its thread handle: none joined yet.
    pub open spec fn all_live(&self) -> bool {
        forall|i: int| 0 <= i < self.live_view().len() ==> #[trigger] self.live_view()[i]
    }

    /// Every worker's thread handle was taken: all of them joined.
    pub open spec fn all_joined(&self) -> bool {
        forall|i: int| 0 <= i < self.live_view().len() ==> !(#[trigger] self.live_view()[i])
    }

    /// Builds a pool of exactly `size` workers with identifiers
    /// `0..size`, each started by `start_worker` on its own clone of the
    /// shared receive side of one fresh work channel.
    ///
    /// An empty pool is a programming mistake, not a runtime condition,
    /// so `size > 0` is demanded of the caller rather than reported back.
    pub fn new<F: Fn(usize, SharedReceiver<J>) -> H>(size: usize, start_worker: F) -> (r:
        ThreadPool<J, H>)
        requires
            size > 0,
            forall|id: usize, rx: SharedReceiver<J>| start_worker.requires((id, rx)),
        ensures
            r.wf(),
            r.num_workers() == size,
            r.all_live(),
    {
        let (sender, receiver) = make_channel::<J>();
        let mut workers: Vec<Worker<H>> = Vec::new();
        let mut id: usize = 0;
        while id < size
            invariant
                id <= size,
                workers.len() == id,
                forall|id2: usize, rx: SharedReceiver<J>| start_worker.requires((id2, rx)),
                forall|i: int|
                    0 <= i < id ==> (#[trigger] workers[i]).id_spec() == i && workers[i].is_live(),
            decreases size - id,
        {
            let handle = start_worker(id, receiver.share());
            workers.push(Worker { id, thread: Some(handle) });
            id = id + 1;
        }
        ThreadPool { workers, sender }
    }

    /// Submits one job, fire-and-forget: the job is wrapped as a
    /// `NewJob` message and queued on the work channel, to be run
    /// exactly once by whichever worker dequeues it. The caller never
    /// waits for execution.
    ///
    /// `Err(ChannelClosed)` comes exactly when the channel has lost
    /// every receive handle, so the job can never run; while any worker
    /// is alive, submission succeeds.
    pub fn execute(&self, job: J) -> (r: Result<(), ChannelClosed>) {
        let accepted = send_message(&self.sender, Message::NewJob(job));
        submit_verdict(accepted)
    }

    /// How many workers the pool holds.
    pub fn worker_count(&self) -> (n: usize)
        ensures
            n == self.num_workers(),
    {
        self.workers.len()
    }

    /// Whether every worker has been joined already.
    pub fn is_shut_down(&self) -> (r: bool)
        ensures
            r == self.all_joined(),
    {
        let mut i: usize = 0;
        while i < self.workers.len()
            invariant
                i <= self.workers.len(),
                forall|k: int| 0 <= k < i ==> !(#[trigger] self.workers[k]).is_live(),
            decreases self.workers.len() - i,
        {
            if self.workers[i].thread.is_some() {
                proof {
                    assert(self.live_view()[i as int]);
                }
                return false;
            }
            i = i + 1;
        }
        true
    }

    /// Terminates and joins the whole pool: first one `Terminate`
    /// message per still-live worker — a FIFO entry like any other, so
    /// every job queued before it is still served — then, in identifier
    /// order, each live worker's handle is taken and waited on through
    /// `join_worker`. A worker whose handle was taken before is skipped,
    /// so no handle is ever joined twice and a second shutdown sends
    /// nothing and finds nothing to join.
    ///
    /// Reports how many `Terminate` messages went out: one per worker
    /// that was still live. A refused `Terminate` is ignored rather than
    /// reported: the channel refuses only when every worker has already
    /// stopped.
    #[verifier::loop_isolation(false)]
    pub fn shutdown<G: Fn(H)>(&mut self, join_worker: G) -> (sent: usize)
        requires
            old(self).wf(),
            forall|h: H| join_worker.requires((h,)),
        ensures
            final(self).wf(),
            final(self).num_workers() == old(self).num_workers(),
            final(self).all_joined(),
            sent == live_count(old(self).live_view()),
    {
        let mut sent: usize = 0;
        let mut i: usize = 0;
        while i < self.workers.len()
            invariant
                i <= self.workers.len(),
                sent <= i,
                *self == *old(self),
                sent == live_count(self.live_view().take(i as int)),
            decreases self.workers.len() - i,
        {
            proof {
                assert(self.live_view().take(i as int + 1).drop_last() =~= self.live_view().take(
                    i as int,
                ));
            }
            if self.workers[i].thread.is_some() {
                let _ = send_message(&self.sender, Message::Terminate);
                sent = sent + 1;
            }
            i = i + 1;
        }
        proof {
            assert(self.live_view().take(self.workers.len() as int) =~= self.live_view());
        }
        let total = self.workers.len();
        let mut joined: Vec<Worker<H>> = Vec::new();
        while self.workers.len() > 0
            invariant
                joined.len() + self.workers.len() == total,
                forall|k: int|
                    0 <= k < joined.len() ==> (#[trigger] joined[k]).id_spec() == k
                        && !joined[k].is_live(),
                forall|k: int|
                    0 <= k < self.workers.len() ==> (#[trigger] self.workers[k]).id_spec() == k
                        + joined.len(),
            decreases self.workers.len(),
        {
            let worker = self.workers.remove(0);
            let Worker { id, thread } = worker;
            match thread {
                Some(handle) => {
                    join_worker(handle);
                },
                None => {},
            }
            joined.push(Worker { id, thread: None });
        }
        self.workers = joined;
        sent
    }
}

/// A pool whose workers are all live — as construction leaves it — owes
/// a terminate signal to every one of them: its first shutdown sends
/// exactly `num_workers` of them.
pub proof fn lemma_fresh_pool_owes_one_terminate_per_worker<J, H>(pool: &ThreadPool<J, H>)
    requires
        pool.all_live(),
    ensures
        live_count(pool.live_view()) == pool.num_workers(),
{
    lemma_live_count_all(pool.live_view());
}

/// Shutting down is idempotent: a pool whose workers were all joined —
/// as shutdown leaves it — owes no terminate signal, so a second
/// shutdown sends nothing and has no handle left to join.
pub proof fn lemma_shutdown_idempotent<J, H>(pool: &ThreadPool<J, H>)
    requires
        pool.all_joined(),
    ensures
        live_count(pool.live_view()) == 0,
{
    lemma_live_count_none(pool.live_view());
}

} // verus!
