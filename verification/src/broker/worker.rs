use vstd::prelude::*;

use crate::broker::chain::Worker;
use crate::broker::types::{holds_address, with_waiting, State, WorkerResponses};
use crate::shared::{
    process_id_text, Address, ProcessId, Task, TaskParameters, TaskStatus, WorkerToBrokerRequests,
};

verus! {

/// A request that a broker sends: where it goes and what it says.
pub struct TaskAssignment {
    pub worker: Address,
    pub request: WorkerResponses,
}

/// The address of the worker process on node `worker_id`.
pub open spec fn worker_process_address(worker_id: Seq<char>) -> (
    Seq<char>,
    (Seq<char>, Seq<char>, Seq<char>),
) {
    (worker_id, ("worker"@, "ai_provider"@, "meme-deck.os"@))
}

/// `a` hands the task `task_id` with `parameters` to the worker on node `worker_id`, as claimed.
pub open spec fn is_assignment(
    a: TaskAssignment,
    task_id: Seq<char>,
    parameters: TaskParameters,
    worker_id: Seq<char>,
) -> bool {
    &&& a.worker@ == worker_process_address(worker_id)
    &&& a.request matches WorkerResponses::TaskAssigned { worker_id: w, process_id: p, task }
    &&& w@ == worker_id
    &&& p@ == process_id_text(parameters.process_id@)
    &&& task.task_id@ == task_id
    &&& task.status == TaskStatus::Claimed
    &&& task.parameters == parameters
}

/// The request by which the queued task `task` (its id, source and parameters) goes to the
/// worker on node `worker_id`; the caller sends it.
pub fn send_task_to_worker(task: &(String, Address, TaskParameters), worker_id: String) -> (res:
    TaskAssignment)
    ensures
        is_assignment(res, task.0@, task.2, worker_id@),
{
    let worker = Address {
        node: worker_id.clone(),
        process: ProcessId {
            process_name: "worker".to_owned(),
            package_name: "ai_provider".to_owned(),
            publisher_node: "meme-deck.os".to_owned(),
        },
    };
    let process_id = task.2.process_id.to_string();
    let request = WorkerResponses::TaskAssigned {
        worker_id,
        process_id,
        task: Task { task_id: task.0.clone(), status: TaskStatus::Claimed, parameters: task.2.clone() },
    };
    TaskAssignment { worker, request }
}

/// What the broker sends after a request from a worker: the task to each worker that the
/// chain lists for the task's process, or word to the asking worker that it waits already.
pub enum WorkerRequestOutcome {
    Assigned { assignments: Vec<TaskAssignment> },
    AlreadyWaiting,
    Done,
}

/// The requests that hand the task `task` to each of `workers`, in order.
fn assignments_for(task: &(String, Address, TaskParameters), workers: &Vec<Worker>) -> (res: Vec<
    TaskAssignment,
>)
    ensures
        res@.len() == workers@.len(),
        forall|i: int|
            0 <= i < workers@.len() ==> is_assignment(
                #[trigger] res@[i],
                task.0@,
                task.2,
                workers@[i].worker_kns_id@,
            ),
{
    let mut res: Vec<TaskAssignment> = Vec::new();
    let mut i: usize = 0;
    while i < workers.len()
        invariant
            i <= workers@.len(),
            res@.len() == i,
            forall|j: int|
                0 <= j < i ==> is_assignment(
                    #[trigger] res@[j],
                    task.0@,
                    task.2,
                    workers@[j].worker_kns_id@,
                ),
        decreases workers@.len() - i,
    {
        let a = send_task_to_worker(task, workers[i].worker_kns_id.clone());
        res.push(a);
        i = i + 1;
    }
    res
}

/// Handles `request` from the worker at `source`.
///
/// `ClaimNextTask` takes the first task off the queue, if there is one, hands it to every worker
/// that the chain lists for its process, and records it as claimed by `source`; with no task
/// queued, `source` joins the waiting line, or is told that it waits already. `TaskStarted`
/// marks an ongoing task as running; `TaskComplete` drops it and puts `source` back in the
/// waiting line (unless it waits already), leaving the queue as it is.
///
/// A broker where no task and no worker wait at once stays so, except where a worker completes
/// while tasks are queued: it then waits beside them until the next task is requested.
pub fn handle_worker_request(
    state: &mut State,
    source: &Address,
    request: WorkerToBrokerRequests,
) -> (res: WorkerRequestOutcome)
    requires
        old(state).wf(),
    ensures
        final(state).wf(),
        final(state).on_chain_state == old(state).on_chain_state,
        match request {
            WorkerToBrokerRequests::ClaimNextTask => if old(state).task_queue@.len() == 0 {
                &&& final(state).task_queue@ == old(state).task_queue@
                &&& final(state).ongoing_tasks == old(state).ongoing_tasks
                &&& final(state).waiting_workers@ == with_waiting(old(state).waiting_workers@, *source)
                &&& if holds_address(old(state).waiting_workers@, *source) {
                    res is AlreadyWaiting
                } else {
                    res is Done
                }
            } else {
                exists|id: Seq<char>|
                    {
                        &&& #[trigger] old(state).task_queue@.contains_key(id)
                        &&& id == old(state).task_queue.keys()[0]
                        &&& final(state).task_queue@ == old(state).task_queue@.remove(id)
                        &&& final(state).waiting_workers == old(state).waiting_workers
                        &&& final(state).ongoing_tasks@.contains_key(id)
                        &&& final(state).ongoing_tasks@[id].0 == *source
                        &&& final(state).ongoing_tasks@[id].1.task_id@ == id
                        &&& final(state).ongoing_tasks@[id].1.status == TaskStatus::Claimed
                        &&& final(state).ongoing_tasks@[id].1.parameters
                            == old(state).task_queue@[id].2
                        &&& final(state).ongoing_tasks@ == old(state).ongoing_tasks@.insert(
                            id,
                            final(state).ongoing_tasks@[id],
                        )
                        &&& res matches WorkerRequestOutcome::Assigned { assignments }
                        &&& {
                            let params = old(state).task_queue@[id].2;
                            let listed = old(state).on_chain_state.workers@;
                            let key = process_id_text(params.process_id@);
                            let workers = if listed.contains_key(key) {
                                listed[key]@
                            } else {
                                Seq::<Worker>::empty()
                            };
                            &&& assignments@.len() == workers.len()
                            &&& forall|i: int|
                                0 <= i < workers.len() ==> is_assignment(
                                    #[trigger] assignments@[i],
                                    id,
                                    params,
                                    workers[i].worker_kns_id@,
                                )
                        }
                    }
            },
            WorkerToBrokerRequests::TaskStarted { task_id, .. } => {
                &&& final(state).task_queue == old(state).task_queue
                &&& final(state).waiting_workers == old(state).waiting_workers
                &&& res is Done
                &&& final(state).ongoing_tasks@ == if old(state).ongoing_tasks@.contains_key(
                    task_id@,
                ) {
                    let (worker, task) = old(state).ongoing_tasks@[task_id@];
                    old(state).ongoing_tasks@.insert(
                        task_id@,
                        (worker, Task { status: TaskStatus::Running, ..task }),
                    )
                } else {
                    old(state).ongoing_tasks@
                }
            },
            WorkerToBrokerRequests::TaskComplete { task_id, .. } => {
                &&& final(state).ongoing_tasks@ == old(state).ongoing_tasks@.remove(task_id@)
                &&& final(state).waiting_workers@ == with_waiting(
                    old(state).waiting_workers@,
                    *source,
                )
                &&& final(state).task_queue == old(state).task_queue
                &&& res is Done
            },
        },
        old(state).settled() && (request is TaskComplete ==> old(state).task_queue@.len() == 0)
            ==> final(state).settled(),
{
    match request {
        WorkerToBrokerRequests::ClaimNextTask => {
            match state.fetch_task() {
                Some(task) => {
                    let key = task.2.process_id.to_string();
                    let assignments = match state.on_chain_state.workers.get(&key) {
                        Some(workers) => assignments_for(&task, workers),
                        None => {
                            let none: Vec<Worker> = Vec::new();
                            assignments_for(&task, &none)
                        },
                    };
                    let task_id = task.0;
                    state.remove_task(&task_id);
                    proof {
                        assert(state.task_queue@ =~= old(state).task_queue@.remove(task_id@));
                    }
                    state.start_task(
                        Task { task_id: task_id.clone(), status: TaskStatus::Claimed, parameters: task.2 },
                        source.clone(),
                    );
                    proof {
                        let id = task_id@;
                        assert(old(state).task_queue@.contains_key(id));
                        assert(state.ongoing_tasks@ == old(state).ongoing_tasks@.insert(
                            id,
                            state.ongoing_tasks@[id],
                        ));
                        assert(state.ongoing_tasks@[id].1.parameters == old(state).task_queue@[id].2);
                        assert(state.waiting_workers == old(state).waiting_workers);
                        let params = old(state).task_queue@[id].2;
                        let listed = old(state).on_chain_state.workers@;
                        let key = process_id_text(params.process_id@);
                        let workers = if listed.contains_key(key) {
                            listed[key]@
                        } else {
                            Seq::<Worker>::empty()
                        };
                        assert(assignments@.len() == workers.len());
                        old(state).task_queue.lemma_entries();
                        assert(old(state).task_queue@.dom().contains(id));
                        if old(state).task_queue@.len() == 0 {
                            assert(old(state).task_queue@.dom() =~= Set::<Seq<char>>::empty());
                        }
                    }
                    WorkerRequestOutcome::Assigned { assignments }
                },
                None => {
                    if state.is_waiting(source) {
                        WorkerRequestOutcome::AlreadyWaiting
                    } else {
                        state.add_waiting_worker(source);
                        WorkerRequestOutcome::Done
                    }
                },
            }
        },
        WorkerToBrokerRequests::TaskStarted { task_id, .. } => {
            match state.ongoing_tasks.remove(&task_id) {
                Some((worker, task)) => {
                    let running = Task { status: TaskStatus::Running, ..task };
                    state.ongoing_tasks.insert(task_id, (worker, running));
                    proof {
                        let old_map = old(state).ongoing_tasks@;
                        assert(state.ongoing_tasks@ =~= old_map.insert(
                            task_id@,
                            (old_map[task_id@].0, Task { status: TaskStatus::Running, ..old_map[task_id@].1 }),
                        ));
                    }
                },
                None => {},
            }
            WorkerRequestOutcome::Done
        },
        WorkerToBrokerRequests::TaskComplete { task_id, .. } => {
            let _ = state.ongoing_tasks.remove(&task_id);
            state.add_waiting_worker(source);
            WorkerRequestOutcome::Done
        },
    }
}


/// The id of the task that `a` hands out.
pub open spec fn assigned_task_id(a: TaskAssignment) -> Seq<char> {
    match a.request {
        WorkerResponses::TaskAssigned { task, .. } => task.task_id@,
        _ => Seq::empty(),
    }
}

/// The smaller of `a` and `b`.
pub open spec fn min_nat(a: nat, b: nat) -> nat {
    if a <= b {
        a
    } else {
        b
    }
}

/// How handing out queued tasks moves the queue from `q0` to `q1` and the waiting line from
/// `w0` to `w1`, with the requests `res` to send: with no task queued or no worker waiting,
/// nothing changes and nothing is sent. Otherwise the queue ends empty, and as many workers as
/// there were tasks (or all of them, if fewer) leave the line in order, each with a request
/// for a different one of the queued tasks.
pub open spec fn assignment_outcome(
    q0: Map<Seq<char>, (i64, Address, TaskParameters)>,
    w0: Seq<Address>,
    q1: Map<Seq<char>, (i64, Address, TaskParameters)>,
    w1: Seq<Address>,
    res: Seq<TaskAssignment>,
) -> bool {
    if q0.len() == 0 || w0.len() == 0 {
        &&& q1 == q0
        &&& w1 == w0
        &&& res.len() == 0
    } else {
        let k = min_nat(q0.len(), w0.len());
        &&& q1 == Map::<Seq<char>, (i64, Address, TaskParameters)>::empty()
        &&& w1 == w0.skip(k as int)
        &&& res.len() == k
        &&& forall|i: int|
            0 <= i < k ==> {
                &&& q0.contains_key(#[trigger] assigned_task_id(res[i]))
                &&& is_assignment(
                    res[i],
                    assigned_task_id(res[i]),
                    q0[assigned_task_id(res[i])].2,
                    w0[i].node@,
                )
            }
        &&& forall|i: int, j: int|
            0 <= i < k && 0 <= j < k && i != j ==> assigned_task_id(res[i]) != assigned_task_id(
                res[j],
            )
    }
}

/// Handing out work leaves no task and no worker waiting at once.
pub proof fn lemma_assignment_settles(
    q0: Map<Seq<char>, (i64, Address, TaskParameters)>,
    w0: Seq<Address>,
    q1: Map<Seq<char>, (i64, Address, TaskParameters)>,
    w1: Seq<Address>,
    res: Seq<TaskAssignment>,
)
    requires
        assignment_outcome(q0, w0, q1, w1, res),
    ensures
        q1.len() == 0 || w1.len() == 0,
{
}

/// Hands queued tasks, in the queue's order, to waiting workers, longest waiting first, one task
/// each; the caller sends the requests.
///
/// With no task queued or no worker waiting, nothing changes. Otherwise every queued task is
/// taken off the queue: as many of them as there are waiting workers go to those workers, and
/// the rest are dropped.
pub fn assign_tasks_to_waiting_workers(state: &mut State) -> (res: Vec<TaskAssignment>)
    requires
        old(state).wf(),
    ensures
        final(state).wf(),
        final(state).ongoing_tasks == old(state).ongoing_tasks,
        final(state).on_chain_state == old(state).on_chain_state,
        assignment_outcome(
            old(state).task_queue@,
            old(state).waiting_workers@,
            final(state).task_queue@,
            final(state).waiting_workers@,
            res@,
        ),
        forall|i: int|
            0 <= i < res@.len() ==> #[trigger] assigned_task_id(res@[i]) == old(
                state,
            ).task_queue.keys()[i],
        final(state).settled(),
{
    let mut res: Vec<TaskAssignment> = Vec::new();
    if state.task_queue.is_empty() || state.waiting_workers.len() == 0 {
        return res;
    }
    let ghost q0 = state.task_queue@;
    let ghost w0 = state.waiting_workers@;
    let ghost mut taken: Set<Seq<char>> = Set::empty();
    let ghost k0 = state.task_queue.keys();
    proof {
        old(state).task_queue.lemma_entries();
        assert(q0.remove_keys(taken) =~= q0);
    }
    loop
        invariant
            state.wf(),
            state.ongoing_tasks == old(state).ongoing_tasks,
            state.on_chain_state == old(state).on_chain_state,
            q0 == old(state).task_queue@,
            w0 == old(state).waiting_workers@,
            q0.dom().finite(),
            q0.len() > 0,
            w0.len() > 0,
            taken.finite(),
            taken.subset_of(q0.dom()),
            state.task_queue@ == q0.remove_keys(taken),
            res@.len() == min_nat(taken.len(), w0.len()),
            k0 == old(state).task_queue.keys(),
            taken.len() <= k0.len(),
            state.task_queue.keys() == k0.skip(taken.len() as int),
            forall|i: int| 0 <= i < res@.len() ==> #[trigger] assigned_task_id(res@[i]) == k0[i],
            state.waiting_workers@ == w0.skip(res@.len() as int),
            forall|i: int|
                0 <= i < res@.len() ==> {
                    &&& taken.contains(#[trigger] assigned_task_id(res@[i]))
                    &&& is_assignment(
                        res@[i],
                        assigned_task_id(res@[i]),
                        q0[assigned_task_id(res@[i])].2,
                        w0[i].node@,
                    )
                },
            forall|i: int, j: int|
                0 <= i < res@.len() && 0 <= j < res@.len() && i != j ==> assigned_task_id(res@[i])
                    != assigned_task_id(res@[j]),
        ensures
            state.wf(),
            state.ongoing_tasks == old(state).ongoing_tasks,
            state.on_chain_state == old(state).on_chain_state,
            state.task_queue@.len() == 0,
            taken == q0.dom(),
            res@.len() == min_nat(taken.len(), w0.len()),
            k0 == old(state).task_queue.keys(),
            taken.len() <= k0.len(),
            state.task_queue.keys() == k0.skip(taken.len() as int),
            forall|i: int| 0 <= i < res@.len() ==> #[trigger] assigned_task_id(res@[i]) == k0[i],
            state.waiting_workers@ == w0.skip(res@.len() as int),
            forall|i: int|
                0 <= i < res@.len() ==> {
                    &&& taken.contains(#[trigger] assigned_task_id(res@[i]))
                    &&& is_assignment(
                        res@[i],
                        assigned_task_id(res@[i]),
                        q0[assigned_task_id(res@[i])].2,
                        w0[i].node@,
                    )
                },
            forall|i: int, j: int|
                0 <= i < res@.len() && 0 <= j < res@.len() && i != j ==> assigned_task_id(res@[i])
                    != assigned_task_id(res@[j]),
        decreases q0.len() - taken.len(),
    {
        let ghost before = state.task_queue@;
        let ghost before_queue = state.task_queue;
        proof {
            vstd::set_lib::lemma_len_subset(taken, q0.dom());
            before_queue.lemma_entries();
        }
        match state.fetch_task() {
            Some(task) => {
                let ghost id = task.0@;
                proof {
                    assert(!taken.contains(id));
                    assert(q0.contains_key(id));
                    assert(q0[id] == before[id]);
                    let ghost old_taken = taken;
                    taken = taken.insert(id);
                    assert(taken.len() == old_taken.len() + 1);
                    vstd::set_lib::lemma_len_subset(taken, q0.dom());
                    assert(before_queue.keys().to_set().contains(id));
                    assert(before_queue.keys().len() > 0);
                    assert(k0.skip(old_taken.len() as int).drop_first() =~= k0.skip(taken.len() as int));
                    assert(state.task_queue@ =~= q0.remove_keys(taken));
                }
                match state.remove_waiting_worker() {
                    Some(worker) => {
                        let ghost n = res@.len();
                        let ghost prev = res@;
                        let a = send_task_to_worker(&task, worker.node.clone());
                        res.push(a);
                        proof {
                            assert(w0.skip(n as int)[0] == w0[n as int]);
                            assert(state.waiting_workers@ =~= w0.skip(res@.len() as int));
                            assert(assigned_task_id(res@[n as int]) == id);
                            assert forall|i: int| 0 <= i < res@.len() implies {
                                &&& taken.contains(#[trigger] assigned_task_id(res@[i]))
                                &&& is_assignment(
                                    res@[i],
                                    assigned_task_id(res@[i]),
                                    q0[assigned_task_id(res@[i])].2,
                                    w0[i].node@,
                                )
                            } by {
                                if i < n {
                                    assert(res@[i] == prev[i]);
                                }
                            }
                        }
                    },
                    None => {
                        proof {
                            assert(res@.len() == w0.len());
                        }
                    },
                }
            },
            None => {
                proof {
                    assert(q0.remove_keys(taken).dom() =~= q0.dom().difference(taken));
                    state.task_queue.lemma_entries();
                    assert(q0.dom().difference(taken) =~= Set::<Seq<char>>::empty()) by {
                        if exists|x: Seq<char>| q0.dom().difference(taken).contains(x) {
                            let x = choose|x: Seq<char>| q0.dom().difference(taken).contains(x);
                            assert(state.task_queue@.dom().contains(x));
                            vstd::set_lib::lemma_set_empty_equivalency_len(state.task_queue@.dom());
                        }
                    }
                    assert forall|x: Seq<char>| q0.dom().contains(x) implies taken.contains(x) by {
                        assert(!q0.dom().difference(taken).contains(x));
                    }
                    assert(taken =~= q0.dom());
                }
                break ;
            },
        }
    }
    proof {
        state.task_queue.lemma_entries();
        assert(state.task_queue@.dom() =~= Set::<Seq<char>>::empty()) by {
            vstd::set_lib::lemma_set_empty_equivalency_len(state.task_queue@.dom());
        }
        assert(state.task_queue@ =~= Map::<Seq<char>, (i64, Address, TaskParameters)>::empty());
    }
    res
}

} // verus!
