//! A mathematical model of the job-handoff protocol.
//!
//! The work channel is a single FIFO queue, and the workers collectively
//! consume it one message at a time: whichever worker is idle takes the
//! front message, runs it if it is a job, and stops if it is a terminate
//! signal. Which worker takes which message is nondeterministic, but the
//! order in which messages leave the queue is the order in which they
//! were sent, so the sequence of job ids that get dispatched — and the
//! number of workers still running afterwards — is a function of the
//! queue contents and the worker count alone. `drain` is that function;
//! the lemmas below state the delivery guarantees of the pool over it.

use vstd::prelude::*;
use vstd::assert_seqs_equal;

verus! {

/// A message of the work channel, with each job reduced to an
/// identifying number: which job it is, not what it does.
pub enum QueueMessage {
    NewJob(nat),
    Terminate,
}

/// The queue holding the jobs `ids`, in submission order.
pub open spec fn job_queue(ids: Seq<nat>) -> Seq<QueueMessage> {
    ids.map_values(|id: nat| QueueMessage::NewJob(id))
}

/// The queue holding `n` terminate signals, as shutdown sends them.
pub open spec fn terminate_queue(n: nat) -> Seq<QueueMessage> {
    Seq::new(n, |i: int| QueueMessage::Terminate)
}

/// Dispatching `queue` to `running` workers: the ids of the jobs that
/// get run, in dequeue order, and the number of workers still running
/// once the queue is empty or every worker has stopped.
pub open spec fn drain(queue: Seq<QueueMessage>, running: nat) -> (Seq<nat>, nat)
    decreases queue.len(),
{
    if queue.len() == 0 || running == 0 {
        (Seq::<nat>::empty(), running)
    } else {
        match queue[0] {
            QueueMessage::NewJob(id) => {
                let rest = drain(queue.subrange(1, queue.len() as int), running);
                (seq![id] + rest.0, rest.1)
            },
            QueueMessage::Terminate => drain(
                queue.subrange(1, queue.len() as int),
                (running - 1) as nat,
            ),
        }
    }
}

/// A pool that was built and never given work runs nothing: the queue
/// is empty, so every worker just blocks and stays running.
pub proof fn lemma_empty_queue_runs_nothing(running: nat)
    ensures
        drain(Seq::<QueueMessage>::empty(), running).0 == Seq::<nat>::empty(),
        drain(Seq::<QueueMessage>::empty(), running).1 == running,
{
}

/// Terminate signals run no job and each stops one worker: `t` of them
/// leave `running - t` workers running, or none once every worker has
/// been stopped.
pub proof fn lemma_terminates_stop_workers(t: nat, running: nat)
    ensures
        drain(terminate_queue(t), running).0 == Seq::<nat>::empty(),
        drain(terminate_queue(t), running).1 == (if running <= t {
            0nat
        } else {
            (running - t) as nat
        }),
    decreases t,
{
    if t == 0 {
        assert(terminate_queue(0).len() == 0);
    } else if running == 0 {
    } else {
        assert_seqs_equal!(
            terminate_queue(t).subrange(1, terminate_queue(t).len() as int)
                == terminate_queue((t - 1) as nat)
        );
        lemma_terminates_stop_workers((t - 1) as nat, (running - 1) as nat);
    }
}

/// Every submitted job is run, exactly once each and in submission
/// order, as long as at least one worker is running: for the queue
/// holding the jobs `ids` and then `terms` terminate signals — the shape
/// shutdown leaves behind — the dispatched ids are exactly `ids`, and
/// the terminate signals then stop the workers. Jobs queued ahead of
/// the first terminate signal are all served: teardown discards nothing.
pub proof fn lemma_all_jobs_run(ids: Seq<nat>, terms: nat, running: nat)
    requires
        running > 0,
    ensures
        drain(job_queue(ids) + terminate_queue(terms), running).0 == ids,
        drain(job_queue(ids) + terminate_queue(terms), running).1 == (if running <= terms {
            0nat
        } else {
            (running - terms) as nat
        }),
    decreases ids.len(),
{
    let q = job_queue(ids) + terminate_queue(terms);
    if ids.len() == 0 {
        assert_seqs_equal!(q == terminate_queue(terms));
        lemma_terminates_stop_workers(terms, running);
    } else {
        let rest_ids = ids.subrange(1, ids.len() as int);
        assert(q[0] == QueueMessage::NewJob(ids[0]));
        assert_seqs_equal!(
            q.subrange(1, q.len() as int)
                == job_queue(rest_ids) + terminate_queue(terms)
        );
        lemma_all_jobs_run(rest_ids, terms, running);
        assert_seqs_equal!(seq![ids[0]] + rest_ids == ids);
    }
}

/// With a single worker the realized execution order is exactly the
/// submission order: the one worker consumes the queue front to back,
/// finishing each job before it takes the next.
pub proof fn lemma_single_worker_fifo(ids: Seq<nat>)
    ensures
        drain(job_queue(ids) + terminate_queue(1), 1).0 == ids,
        drain(job_queue(ids) + terminate_queue(1), 1).1 == 0,
{
    lemma_all_jobs_run(ids, 1, 1);
}

/// No job queued behind the terminate signals is served once a
/// terminate signal has reached every running worker: the workers all
/// stop before any of those jobs comes up. A job submitted after the
/// last terminate of a shutdown is therefore not guaranteed to run.
pub proof fn lemma_no_job_runs_after_terminates(terms: nat, ids: Seq<nat>, running: nat)
    requires
        running <= terms,
    ensures
        drain(terminate_queue(terms) + job_queue(ids), running).0 == Seq::<nat>::empty(),
        drain(terminate_queue(terms) + job_queue(ids), running).1 == 0,
    decreases terms,
{
    let q = terminate_queue(terms) + job_queue(ids);
    if running == 0 {
    } else {
        assert(q[0] == QueueMessage::Terminate);
        assert_seqs_equal!(
            q.subrange(1, q.len() as int)
                == terminate_queue((terms - 1) as nat) + job_queue(ids)
        );
        lemma_no_job_runs_after_terminates((terms - 1) as nat, ids, (running - 1) as nat);
    }
}

} // verus!
