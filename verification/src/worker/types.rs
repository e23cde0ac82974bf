use vstd::prelude::*;

use crate::shared::{ProcessId, Task, TaskParameters};
use crate::worker::chain::Broker;

verus! {

/// The state of a worker: whether it is ready, the brokers of its process, the contract it
/// reads them from, the process that runs its tasks, and the task it runs.
pub struct WorkerState {
    pub is_ready: bool,
    pub brokers: Vec<Broker>,
    pub contract_address: String,
    pub active_process_id: Option<ProcessId>,
    pub active_task: Option<Task>,
}

impl WorkerState {
    /// Not ready, no brokers, the contract at `0xa51c1fc2f0d1a1b8494ed1fe312d7c3a78ed91c0`,
    /// tasks run by `diffusion:memedeck:memedeck.os`, and no task.
    pub fn default() -> (res: WorkerState)
        ensures
            !res.is_ready,
            res.brokers@.len() == 0,
            res.contract_address@ == "0xa51c1fc2f0d1a1b8494ed1fe312d7c3a78ed91c0"@,
            res.active_process_id matches Some(p) && p@ == (
                "diffusion"@,
                "memedeck"@,
                "memedeck.os"@,
            ),
            res.active_task is None,
    {
        WorkerState {
            is_ready: false,
            brokers: Vec::new(),
            contract_address: "0xa51c1fc2f0d1a1b8494ed1fe312d7c3a78ed91c0".to_owned(),
            active_process_id: Some(
                ProcessId {
                    process_name: "diffusion".to_owned(),
                    package_name: "memedeck".to_owned(),
                    publisher_node: "memedeck.os".to_owned(),
                },
            ),
            active_task: None,
        }
    }
}

/// What a broker asks of a worker.
pub enum BrokerRequests {
    NewTask(TaskParameters),
    TaskAssigned { worker_id: String, process_id: String, task: Task },
}

/// What a worker answers a broker.
pub enum BrokerResponses {
    TaskStarted { process_id: String, task_id: String },
    TaskComplete { process_id: String, task_id: String },
}

/// What a worker tells a user about a task.
pub enum UserResponses {
    TaskUpdate { process_id: String, task_id: String, status: String, signature: Result<u64, String> },
}

/// What the operator of a worker asks of it.
pub enum AdminRequest {
    SetWorkerProcess { process_id: String },
    SetContractAddress { address: String },
    SetIsReady { is_ready: bool },
    GetState,
}

} // verus!
