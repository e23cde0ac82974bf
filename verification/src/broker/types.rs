use std::collections::VecDeque;
use vstd::prelude::*;

use crate::broker::chain::{ApplicationRecord, Broker, ProcessRecord, Worker};
use crate::shared::{Address, ProcessId, Task, TaskParameters};
use crate::string_map::StringMap;
use crate::text::{find_colon, lemma_split_step, split_colons, substring};

verus! {

/// No two addresses of `s` are the same.
pub open spec fn unique_addresses(s: Seq<Address>) -> bool {
    forall|i: int, j: int| 0 <= i < s.len() && 0 <= j < s.len() && i != j ==> s[i]@ != s[j]@
}

/// Whether an address equal to `a` stands in `s`.
pub open spec fn holds_address(s: Seq<Address>, a: Address) -> bool {
    exists|i: int| 0 <= i < s.len() && s[i]@ == a@
}

/// The waiting line `line` once `worker` asks to wait: unchanged if it waits already, else with
/// `worker` at the back.
pub open spec fn with_waiting(line: Seq<Address>, worker: Address) -> Seq<Address> {
    if holds_address(line, worker) {
        line
    } else {
        line.push(worker)
    }
}

/// The queue `queue` once a task `task_id` from `source` with `parameters` is added: unchanged if
/// a task with that id is queued already, else with the task, stamped with the number of tasks
/// queued before it.
pub open spec fn with_task(
    queue: Map<Seq<char>, (i64, Address, TaskParameters)>,
    task_id: Seq<char>,
    source: Address,
    parameters: TaskParameters,
) -> Map<Seq<char>, (i64, Address, TaskParameters)> {
    if queue.contains_key(task_id) {
        queue
    } else {
        queue.insert(task_id, (queue.len() as i64, source, parameters))
    }
}

/// The state of a broker: the queue of tasks that no worker has taken yet, the workers that
/// wait for a task (first come, first served, each at most once), the tasks that workers have
/// taken, and what the chain says.
pub struct State {
    pub task_queue: StringMap<(i64, Address, TaskParameters)>,
    pub waiting_workers: VecDeque<Address>,
    pub ongoing_tasks: StringMap<(Address, Task)>,
    pub on_chain_state: OnChainState,
}

impl State {
    /// The maps are well formed and no worker waits twice.
    pub open spec fn wf(&self) -> bool {
        &&& self.task_queue.wf()
        &&& self.ongoing_tasks.wf()
        &&& self.on_chain_state.wf()
        &&& unique_addresses(self.waiting_workers@)
    }

    /// No task waits in the queue while a worker waits in the line: work is handed out as soon
    /// as both are there.
    pub open spec fn settled(&self) -> bool {
        self.task_queue@.len() == 0 || self.waiting_workers@.len() == 0
    }

    /// A broker with no tasks and no waiting workers, and the default chain settings.
    pub fn default() -> (res: State)
        ensures
            res.wf(),
            res.task_queue@ == Map::<Seq<char>, (i64, Address, TaskParameters)>::empty(),
            res.waiting_workers@ == Seq::<Address>::empty(),
            res.ongoing_tasks@ == Map::<Seq<char>, (Address, Task)>::empty(),
            res.on_chain_state.is_default(),
            res.settled(),
    {
        State {
            task_queue: StringMap::new(),
            waiting_workers: VecDeque::new(),
            ongoing_tasks: StringMap::new(),
            on_chain_state: OnChainState::default(),
        }
    }

    /// Replaces what the broker knows of the chain.
    pub fn set_chain_state(&mut self, state: OnChainState)
        requires
            old(self).wf(),
            state.wf(),
        ensures
            final(self).wf(),
            final(self).on_chain_state == state,
            final(self).task_queue == old(self).task_queue,
            final(self).waiting_workers == old(self).waiting_workers,
            final(self).ongoing_tasks == old(self).ongoing_tasks,
    {
        self.on_chain_state = state;
    }

    /// Queues a task under `task_id`, stamped with the number of tasks queued before it,
    /// unless a task with that id is queued already, which then stays as it is.
    pub fn add_task(&mut self, task_id: String, source: Address, parameters: TaskParameters)
        requires
            old(self).wf(),
        ensures
            final(self).wf(),
            final(self).task_queue@ == with_task(old(self).task_queue@, task_id@, source, parameters),
            final(self).task_queue.keys() == if old(self).task_queue@.contains_key(task_id@) {
                old(self).task_queue.keys()
            } else {
                old(self).task_queue.keys().push(task_id@)
            },
            final(self).waiting_workers == old(self).waiting_workers,
            final(self).ongoing_tasks == old(self).ongoing_tasks,
            final(self).on_chain_state == old(self).on_chain_state,
    {
        let timestamp = self.task_queue.len() as i64;
        self.task_queue.insert_if_absent(task_id, (timestamp, source, parameters));
    }

    /// Takes one task off the queue, if there is any, with its id, source and parameters: the
    /// first in the queue's order, which is the order in which tasks were added.
    pub fn fetch_task(&mut self) -> (res: Option<(String, Address, TaskParameters)>)
        requires
            old(self).wf(),
        ensures
            final(self).wf(),
            match res {
                Some((id, source, parameters)) => {
                    &&& id@ == old(self).task_queue.keys()[0]
                    &&& old(self).task_queue@.contains_key(id@)
                    &&& old(self).task_queue@[id@].1 == source
                    &&& old(self).task_queue@[id@].2 == parameters
                    &&& final(self).task_queue@ == old(self).task_queue@.remove(id@)
                    &&& final(self).task_queue.keys() == old(self).task_queue.keys().drop_first()
                },
                None => {
                    &&& old(self).task_queue@.len() == 0
                    &&& final(self).task_queue@ == old(self).task_queue@
                    &&& final(self).task_queue.keys() == old(self).task_queue.keys()
                },
            },
            final(self).waiting_workers == old(self).waiting_workers,
            final(self).ongoing_tasks == old(self).ongoing_tasks,
            final(self).on_chain_state == old(self).on_chain_state,
    {
        match self.task_queue.take_one() {
            Some((id, (_timestamp, source, parameters))) => Some((id, source, parameters)),
            None => None,
        }
    }

    /// Drops the queued task with id `task_id`, if there is one.
    pub fn remove_task(&mut self, task_id: &String)
        requires
            old(self).wf(),
        ensures
            final(self).wf(),
            final(self).task_queue@ == old(self).task_queue@.remove(task_id@),
            old(self).task_queue@.contains_key(task_id@) ==> exists|i: int|
                0 <= i < old(self).task_queue.keys().len() && old(self).task_queue.keys()[i]
                    == task_id@ && final(self).task_queue.keys() == old(
                    self,
                ).task_queue.keys().remove(i),
            !old(self).task_queue@.contains_key(task_id@) ==> final(self).task_queue.keys() == old(
                self,
            ).task_queue.keys(),
            final(self).waiting_workers == old(self).waiting_workers,
            final(self).ongoing_tasks == old(self).ongoing_tasks,
            final(self).on_chain_state == old(self).on_chain_state,
    {
        let _ = self.task_queue.remove(task_id);
    }

    /// Records `task` as taken on by `source`, in place of any task recorded under its id.
    pub fn start_task(&mut self, task: Task, source: Address)
        requires
            old(self).wf(),
        ensures
            final(self).wf(),
            final(self).ongoing_tasks@ == old(self).ongoing_tasks@.insert(
                task.task_id@,
                (source, task),
            ),
            final(self).task_queue == old(self).task_queue,
            final(self).waiting_workers == old(self).waiting_workers,
            final(self).on_chain_state == old(self).on_chain_state,
    {
        let id = task.task_id.clone();
        self.ongoing_tasks.insert(id, (source, task));
    }

    /// Whether `worker` waits for a task.
    pub fn is_waiting(&self, worker: &Address) -> (res: bool)
        ensures
            res == holds_address(self.waiting_workers@, *worker),
    {
        let mut i: usize = 0;
        while i < self.waiting_workers.len()
            invariant
                i <= self.waiting_workers@.len(),
                forall|j: int| 0 <= j < i ==> self.waiting_workers@[j]@ != worker@,
            decreases self.waiting_workers@.len() - i,
        {
            if self.waiting_workers[i] == *worker {
                return true;
            }
            i = i + 1;
        }
        false
    }

    /// Puts `worker` at the back of the waiting line, unless it waits already.
    pub fn add_waiting_worker(&mut self, worker: &Address)
        requires
            old(self).wf(),
        ensures
            final(self).wf(),
            final(self).waiting_workers@ == with_waiting(old(self).waiting_workers@, *worker),
            final(self).task_queue == old(self).task_queue,
            final(self).ongoing_tasks == old(self).ongoing_tasks,
            final(self).on_chain_state == old(self).on_chain_state,
    {
        if !self.is_waiting(worker) {
            self.waiting_workers.push_back(worker.clone());
            proof {
                let s = self.waiting_workers@;
                assert forall|i: int, j: int|
                    0 <= i < s.len() && 0 <= j < s.len() && i != j implies s[i]@ != s[j]@ by {
                    if i < s.len() - 1 && j < s.len() - 1 {
                        assert(s[i] == old(self).waiting_workers@[i]);
                        assert(s[j] == old(self).waiting_workers@[j]);
                    }
                }
            }
        }
    }

    /// Takes the worker that has waited longest out of the waiting line, if any.
    pub fn remove_waiting_worker(&mut self) -> (res: Option<Address>)
        requires
            old(self).wf(),
        ensures
            final(self).wf(),
            match res {
                Some(w) => {
                    &&& old(self).waiting_workers@.len() > 0
                    &&& w == old(self).waiting_workers@[0]
                    &&& final(self).waiting_workers@ == old(self).waiting_workers@.drop_first()
                },
                None => {
                    &&& old(self).waiting_workers@.len() == 0
                    &&& final(self).waiting_workers@ == old(self).waiting_workers@
                },
            },
            final(self).task_queue == old(self).task_queue,
            final(self).ongoing_tasks == old(self).ongoing_tasks,
            final(self).on_chain_state == old(self).on_chain_state,
    {
        let res = self.waiting_workers.pop_front();
        proof {
            let s = self.waiting_workers@;
            let o = old(self).waiting_workers@;
            if res is Some {
                assert forall|i: int, j: int|
                    0 <= i < s.len() && 0 <= j < s.len() && i != j implies s[i]@ != s[j]@ by {
                    assert(s[i] == o[i + 1]);
                    assert(s[j] == o[j + 1]);
                }
            }
        }
        res
    }
}

/// Asking to wait twice is asking once: a worker that waits already keeps its place.
pub proof fn lemma_waiting_twice_is_once(line: Seq<Address>, worker: Address)
    ensures
        with_waiting(with_waiting(line, worker), worker) == with_waiting(line, worker),
{
    if !holds_address(line, worker) {
        let l2 = line.push(worker);
        assert(l2[line.len() as int]@ == worker@);
    }
}

/// The waiting line is first come, first served, with no worker twice: a worker that joins
/// goes behind all that waited before it, who keep their order, and a line with no worker twice
/// keeps that property.
pub proof fn lemma_waiting_line_fifo(line: Seq<Address>, worker: Address)
    requires
        unique_addresses(line),
    ensures
        unique_addresses(with_waiting(line, worker)),
        with_waiting(line, worker).subrange(0, line.len() as int) == line,
        !holds_address(line, worker) ==> with_waiting(line, worker).len() == line.len() + 1
            && with_waiting(line, worker).last() == worker,
        holds_address(with_waiting(line, worker), worker),
{
    let l2 = with_waiting(line, worker);
    assert(l2.subrange(0, line.len() as int) =~= line);
    if !holds_address(line, worker) {
        assert(l2[line.len() as int]@ == worker@);
        assert forall|i: int, j: int|
            0 <= i < l2.len() && 0 <= j < l2.len() && i != j implies l2[i]@ != l2[j]@ by {
            if i < line.len() && j < line.len() {
                assert(l2[i] == line[i] && l2[j] == line[j]);
            } else if i < line.len() {
                assert(l2[i] == line[i]);
            } else if j < line.len() {
                assert(l2[j] == line[j]);
            }
        }
    }
}

/// Adding a task under an id that is queued already changes nothing: the task queued first
/// stays, with its stamp.
pub proof fn lemma_task_added_once(
    queue: Map<Seq<char>, (i64, Address, TaskParameters)>,
    task_id: Seq<char>,
    source: Address,
    parameters: TaskParameters,
    other_source: Address,
    other_parameters: TaskParameters,
)
    ensures
        with_task(with_task(queue, task_id, source, parameters), task_id, other_source, other_parameters)
            == with_task(queue, task_id, source, parameters),
        with_task(queue, task_id, source, parameters).contains_key(task_id),
{
}

/// Cancelling a task just added undoes the adding, where its id was not queued before.
pub proof fn lemma_cancel_undoes_add(
    queue: Map<Seq<char>, (i64, Address, TaskParameters)>,
    task_id: Seq<char>,
    source: Address,
    parameters: TaskParameters,
)
    requires
        !queue.contains_key(task_id),
    ensures
        with_task(queue, task_id, source, parameters).remove(task_id) == queue,
{
    assert(with_task(queue, task_id, source, parameters).remove(task_id) =~= queue);
}

/// A task that completes is no longer ongoing, whatever was recorded of it when it started.
pub proof fn lemma_complete_undoes_start(
    ongoing: Map<Seq<char>, (Address, Task)>,
    task_id: Seq<char>,
    entry: (Address, Task),
)
    ensures
        ongoing.insert(task_id, entry).remove(task_id) == ongoing.remove(task_id),
        !ongoing.insert(task_id, entry).remove(task_id).contains_key(task_id),
{
    assert(ongoing.insert(task_id, entry).remove(task_id) =~= ongoing.remove(task_id));
}

/// The applications of `apps` by name; of two with one name, the later one stands.
pub open spec fn apps_by_name(apps: Seq<ApplicationRecord>) -> Map<Seq<char>, ApplicationRecord>
    decreases apps.len(),
{
    if apps.len() == 0 {
        Map::empty()
    } else {
        apps_by_name(apps.drop_last()).insert(apps.last().name@, apps.last())
    }
}

/// The processes of `processes` by name; of two with one name, the later one stands.
pub open spec fn processes_by_name(processes: Seq<ProcessRecord>) -> Map<
    Seq<char>,
    ProcessRecord,
>
    decreases processes.len(),
{
    if processes.len() == 0 {
        Map::empty()
    } else {
        processes_by_name(processes.drop_last()).insert(
            processes.last().name@,
            processes.last(),
        )
    }
}

/// Taking applications by name keeps one record for each name that occurs and no other: the
/// last record with that name.
pub proof fn lemma_apps_by_name(apps: Seq<ApplicationRecord>)
    ensures
        forall|k: Seq<char>|
            #[trigger] apps_by_name(apps).contains_key(k) <==> exists|i: int|
                0 <= i < apps.len() && apps[i].name@ == k,
        forall|i: int|
            0 <= i < apps.len() && (forall|j: int| i < j < apps.len() ==> apps[j].name@ != apps[i].name@)
                ==> #[trigger] apps_by_name(apps)[apps[i].name@] == apps[i],
    decreases apps.len(),
{
    if apps.len() > 0 {
        let init = apps.drop_last();
        lemma_apps_by_name(init);
        assert forall|k: Seq<char>|
            #[trigger] apps_by_name(apps).contains_key(k) <==> exists|i: int|
                0 <= i < apps.len() && apps[i].name@ == k by {
            if apps_by_name(apps).contains_key(k) && k != apps.last().name@ {
                assert(apps_by_name(init).contains_key(k));
                let i = choose|i: int| 0 <= i < init.len() && init[i].name@ == k;
                assert(apps[i] == init[i]);
            }
            if exists|i: int| 0 <= i < apps.len() && apps[i].name@ == k {
                let i = choose|i: int| 0 <= i < apps.len() && apps[i].name@ == k;
                if i < init.len() {
                    assert(init[i] == apps[i]);
                    assert(apps_by_name(init).contains_key(k));
                }
            }
        }
        assert forall|i: int|
            0 <= i < apps.len() && (forall|j: int|
                i < j < apps.len() ==> apps[j].name@ != apps[i].name@) implies #[trigger] apps_by_name(
            apps,
        )[apps[i].name@] == apps[i] by {
            if i < init.len() {
                assert(init[i] == apps[i]);
                assert(apps[apps.len() - 1].name@ != apps[i].name@);
                assert forall|j: int| i < j < init.len() implies init[j].name@ != init[i].name@ by {
                    assert(init[j] == apps[j]);
                }
                assert(apps_by_name(init)[init[i].name@] == init[i]);
            }
        }
    }
}

/// What the chain says: the brokers and workers of each process (by process id), the
/// registered applications and processes (by name), and the service settings.
pub struct OnChainState {
    pub brokers: StringMap<Vec<Broker>>,
    pub workers: StringMap<Vec<Worker>>,
    pub apps: StringMap<ApplicationRecord>,
    pub processes: StringMap<ProcessRecord>,
    pub queue_response_timeout_seconds: u8,
    pub serve_timeout_seconds: u16,
    pub max_outstanding_payments: u8,
    pub payment_period_hours: u8,
}

impl OnChainState {
    /// The four maps are well formed.
    pub open spec fn wf(&self) -> bool {
        &&& self.brokers.wf()
        &&& self.workers.wf()
        &&& self.apps.wf()
        &&& self.processes.wf()
    }

    /// Nothing registered, and the settings that hold until the chain says otherwise.
    pub open spec fn is_default(&self) -> bool {
        &&& self.wf()
        &&& self.brokers@ == Map::<Seq<char>, Vec<Broker>>::empty()
        &&& self.workers@ == Map::<Seq<char>, Vec<Worker>>::empty()
        &&& self.apps@ == Map::<Seq<char>, ApplicationRecord>::empty()
        &&& self.processes@ == Map::<Seq<char>, ProcessRecord>::empty()
        &&& self.queue_response_timeout_seconds == 10
        &&& self.serve_timeout_seconds == 10
        &&& self.max_outstanding_payments == 10
        &&& self.payment_period_hours == 1
    }

    /// Replaces the applications with `apps`, by name.
    pub fn set_apps(&mut self, apps: Vec<ApplicationRecord>)
        requires
            old(self).wf(),
        ensures
            final(self).wf(),
            final(self).apps@ == apps_by_name(apps@),
            final(self).brokers == old(self).brokers,
            final(self).workers == old(self).workers,
            final(self).processes == old(self).processes,
            final(self).queue_response_timeout_seconds == old(self).queue_response_timeout_seconds,
            final(self).serve_timeout_seconds == old(self).serve_timeout_seconds,
            final(self).max_outstanding_payments == old(self).max_outstanding_payments,
            final(self).payment_period_hours == old(self).payment_period_hours,
    {
        let mut by_name: StringMap<ApplicationRecord> = StringMap::new();
        let mut rest = apps;
        let ghost all = rest@;
        while rest.len() > 0
            invariant
                rest@.len() <= all.len(),
                rest@ == all.skip(all.len() - rest@.len()),
                by_name.wf(),
                by_name@ == apps_by_name(all.take(all.len() - rest@.len())),
            decreases rest@.len(),
        {
            let ghost k = all.len() - rest@.len();
            let app = rest.remove(0);
            let name = app.name.clone();
            by_name.insert(name, app);
            proof {
                assert(all.take(k + 1).drop_last() =~= all.take(k));
                assert(rest@ =~= all.skip(k + 1));
            }
        }
        proof {
            assert(all.take(all.len() as int) =~= all);
        }
        self.apps = by_name;
    }

    /// Replaces the processes with `processes`, by name.
    pub fn set_processes(&mut self, processes: Vec<ProcessRecord>)
        requires
            old(self).wf(),
        ensures
            final(self).wf(),
            final(self).processes@ == processes_by_name(processes@),
            final(self).brokers == old(self).brokers,
            final(self).workers == old(self).workers,
            final(self).apps == old(self).apps,
            final(self).queue_response_timeout_seconds == old(self).queue_response_timeout_seconds,
            final(self).serve_timeout_seconds == old(self).serve_timeout_seconds,
            final(self).max_outstanding_payments == old(self).max_outstanding_payments,
            final(self).payment_period_hours == old(self).payment_period_hours,
    {
        let mut by_name: StringMap<ProcessRecord> = StringMap::new();
        let mut rest = processes;
        let ghost all = rest@;
        while rest.len() > 0
            invariant
                rest@.len() <= all.len(),
                rest@ == all.skip(all.len() - rest@.len()),
                by_name.wf(),
                by_name@ == processes_by_name(all.take(all.len() - rest@.len())),
            decreases rest@.len(),
        {
            let ghost k = all.len() - rest@.len();
            let process = rest.remove(0);
            let name = process.name.clone();
            by_name.insert(name, process);
            proof {
                assert(all.take(k + 1).drop_last() =~= all.take(k));
                assert(rest@ =~= all.skip(k + 1));
            }
        }
        proof {
            assert(all.take(all.len() as int) =~= all);
        }
        self.processes = by_name;
    }

    /// Records `brokers` as the brokers of the process `process_id`.
    pub fn set_brokers(&mut self, process_id: &String, brokers: Vec<Broker>)
        requires
            old(self).wf(),
        ensures
            final(self).wf(),
            final(self).brokers@ == old(self).brokers@.insert(process_id@, brokers),
            final(self).workers == old(self).workers,
            final(self).apps == old(self).apps,
            final(self).processes == old(self).processes,
            final(self).queue_response_timeout_seconds == old(self).queue_response_timeout_seconds,
            final(self).serve_timeout_seconds == old(self).serve_timeout_seconds,
            final(self).max_outstanding_payments == old(self).max_outstanding_payments,
            final(self).payment_period_hours == old(self).payment_period_hours,
    {
        self.brokers.insert(process_id.clone(), brokers);
    }

    /// Records `workers` as the workers of the process `process_id`.
    pub fn set_workers(&mut self, process_id: &String, workers: Vec<Worker>)
        requires
            old(self).wf(),
        ensures
            final(self).wf(),
            final(self).workers@ == old(self).workers@.insert(process_id@, workers),
            final(self).brokers == old(self).brokers,
            final(self).apps == old(self).apps,
            final(self).processes == old(self).processes,
            final(self).queue_response_timeout_seconds == old(self).queue_response_timeout_seconds,
            final(self).serve_timeout_seconds == old(self).serve_timeout_seconds,
            final(self).max_outstanding_payments == old(self).max_outstanding_payments,
            final(self).payment_period_hours == old(self).payment_period_hours,
    {
        self.workers.insert(process_id.clone(), workers);
    }

    /// Nothing registered; a queue response timeout and a serve timeout of 10 seconds, at most
    /// 10 outstanding payments, and a payment period of one hour.
    pub fn default() -> (res: OnChainState)
        ensures
            res.is_default(),
    {
        OnChainState {
            brokers: StringMap::new(),
            workers: StringMap::new(),
            apps: StringMap::new(),
            processes: StringMap::new(),
            queue_response_timeout_seconds: 10,
            serve_timeout_seconds: 10,
            max_outstanding_payments: 10,
            payment_period_hours: 1,
        }
    }
}

/// A request to generate an image that came over HTTP: a signature over the task, the task
/// as JSON text, and the id of the process that should run it.
pub struct GenerateRequest {
    pub signature: String,
    pub task: String,
    pub process_id: String,
}

/// What a user asks of a broker.
pub enum UserRequests {
    RequestTask { process_id: String, task_parameters: String },
    CancelTask { process_id: ProcessId, task_id: String },
}

/// What a broker tells a user.
pub enum UserResponses {
    TaskRequested { process_id: ProcessId, task_id: String },
    TaskClaimed { process_id: ProcessId, task_id: String, worker_id: String },
    TaskUpdated { process_id: ProcessId, task_id: String, worker_id: String, data: String },
    TaskCompleted { process_id: ProcessId, task_id: String, worker_id: String, result: String },
    TaskFailed { process_id: ProcessId, task_id: String, error: String },
    TaskCancelled { process_id: ProcessId, task_id: String },
}

/// What can be wrong with a user's request.
pub enum UserErrors {
    InvalidTaskParameters(String),
}

/// What a broker tells a worker.
pub enum WorkerResponses {
    WorkerList(Vec<String>),
    Worker(String),
    Tasks(Vec<Task>),
    Task { process_id: String, task_id: String },
    TaskAssigned { worker_id: String, process_id: String, task: Task },
    TaskList { process_id: String },
    AlreadyWaiting,
}

/// What the operator of a broker asks of it.
pub enum AdminRequest {
    SetWorkerProcess { process_id: String },
    SetContractAddress { address: String },
    SetIsReady { is_ready: bool },
    GetState,
    SyncChainState,
    RegisterBroker { process_id: String },
}

/// The process id written as `process_name:package_name:publisher_node`; what follows a third
/// `:` is left out.
pub fn string_to_process_id(s: &str) -> (res: ProcessId)
    requires
        split_colons(s@).len() >= 3,
    ensures
        res.process_name@ == split_colons(s@)[0],
        res.package_name@ == split_colons(s@)[1],
        res.publisher_node@ == split_colons(s@)[2],
{
    let ghost t = s@;
    let c1 = find_colon(s, 0);
    proof {
        lemma_split_step(t, c1 as int);
    }
    let c2 = find_colon(s, c1 + 1);
    proof {
        let t1 = t.skip(c1 + 1);
        lemma_split_step(t1, c2 - c1 - 1);
        assert(t1.take(c2 - c1 - 1) =~= t.subrange(c1 + 1, c2 as int));
    }
    let c3 = find_colon(s, c2 + 1);
    proof {
        let t1 = t.skip(c1 + 1);
        let t2 = t1.skip(c2 - c1);
        assert(t2 =~= t.skip(c2 + 1));
        lemma_split_step(t2, c3 - c2 - 1);
        assert(t2.take(c3 - c2 - 1) =~= t.subrange(c2 + 1, c3 as int));
        assert(t.take(c1 as int) =~= t.subrange(0, c1 as int));
    }
    ProcessId {
        process_name: substring(s, 0, c1),
        package_name: substring(s, c1 + 1, c2),
        publisher_node: substring(s, c2 + 1, c3),
    }
}

} // verus!
