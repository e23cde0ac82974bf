use vstd::prelude::*;

use crate::shared::{Address, ProcessToWorkerRequests, WorkerToBrokerRequests};

verus! {

/// Handles `request` from the process that runs the worker's tasks: when a task is complete,
/// the worker tells the broker it came from, so gives back that broker and what to send it;
/// a progress update calls for nothing to be sent.
pub fn handle_process_to_us_request(request: ProcessToWorkerRequests) -> (res: Option<
    (Address, WorkerToBrokerRequests),
>)
    ensures
        match request {
            ProcessToWorkerRequests::TaskUpdate { .. } => res is None,
            ProcessToWorkerRequests::TaskComplete { task_id, process_id, broker } => res == Some(
                (broker, WorkerToBrokerRequests::TaskComplete { process_id, task_id }),
            ),
        },
{
    match request {
        ProcessToWorkerRequests::TaskUpdate { .. } => None,
        ProcessToWorkerRequests::TaskComplete { task_id, process_id, broker } => Some(
            (broker, WorkerToBrokerRequests::TaskComplete { process_id, task_id }),
        ),
    }
}

} // verus!
