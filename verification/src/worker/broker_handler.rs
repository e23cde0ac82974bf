use vstd::prelude::*;

use crate::shared::{
    process_id_text, Address, WorkerToBrokerRequests, WorkerToProcessRequests,
};
use crate::worker::types::{BrokerRequests, BrokerResponses, WorkerState};

verus! {

/// A message that a worker sends while handling a request from a broker.
pub enum WorkerMessage {
    /// The answer to the broker that sent the request; the worker waits for its reply.
    ReplyToBroker { response: BrokerResponses },
    /// A request to the broker that sent the request.
    ToBroker { request: WorkerToBrokerRequests },
    /// A request to the process `target` that runs the worker's tasks.
    ToProcess { target: Address, request: WorkerToProcessRequests },
}

/// The task is meant for this worker: it goes to the worker on node `our_node`, and to the
/// process that runs the worker's tasks.
pub open spec fn assigned_to_us(
    state: WorkerState,
    our_node: Seq<char>,
    worker_id: Seq<char>,
    process_id: Seq<char>,
) -> bool {
    &&& state.active_process_id matches Some(p)
    &&& worker_id == our_node
    &&& process_id_text(p@) == process_id
}

/// A worker takes on assignments for exactly one process: the full text of its active
/// process, with all three parts. Two process ids that it would both take on are the same, it
/// takes on the text of its active process, only when addressed to its own node, and nothing
/// without an active process.
pub proof fn lemma_assignment_for_one_process(
    state: WorkerState,
    our_node: Seq<char>,
    worker_id: Seq<char>,
    process_id: Seq<char>,
    other_process_id: Seq<char>,
)
    ensures
        assigned_to_us(state, our_node, worker_id, process_id) && assigned_to_us(
            state,
            our_node,
            worker_id,
            other_process_id,
        ) ==> process_id == other_process_id,
        assigned_to_us(state, our_node, worker_id, process_id) ==> worker_id == our_node
            && state.active_process_id is Some,
        state.active_process_id matches Some(p) ==> assigned_to_us(
            state,
            our_node,
            our_node,
            process_id_text(p@),
        ),
{
}

/// Handles `request` from the broker at `broker`, for the worker at `our`; gives back the
/// messages to send, in order.
///
/// A new task is answered with word that it started. A task assigned to this worker, for the
/// process that runs its tasks, becomes the worker's task: the broker is told it started and
/// the process is asked to run it; the broker hears that it is complete only once the process
/// reports so (see `handle_process_to_us_request`). Any other assignment is ignored.
pub fn handle_broker_request(
    state: &mut WorkerState,
    our: &Address,
    broker: &Address,
    request: BrokerRequests,
) -> (res: Vec<WorkerMessage>)
    ensures
        match request {
            BrokerRequests::NewTask(params) => {
                &&& *final(state) == *old(state)
                &&& res@.len() == 1
                &&& res@[0] matches WorkerMessage::ReplyToBroker {
                    response: BrokerResponses::TaskStarted { process_id, task_id },
                }
                &&& process_id@ == process_id_text(params.process_id@)
                &&& task_id == params.task_id
            },
            BrokerRequests::TaskAssigned { worker_id, process_id, task } => if assigned_to_us(
                *old(state),
                our.node@,
                worker_id@,
                process_id@,
            ) {
                &&& final(state).active_task == Some(task)
                &&& final(state).is_ready == old(state).is_ready
                &&& final(state).brokers == old(state).brokers
                &&& final(state).contract_address == old(state).contract_address
                &&& final(state).active_process_id == old(state).active_process_id
                &&& res@.len() == 2
                &&& res@[0] matches WorkerMessage::ToBroker {
                    request: WorkerToBrokerRequests::TaskStarted { process_id: p, task_id: t },
                }
                &&& p@ == process_id@ && t@ == task.task_id@
                &&& res@[1] matches WorkerMessage::ToProcess {
                    target,
                    request: WorkerToProcessRequests::StartTask {
                        task_id: t2,
                        params,
                        process_id: p2,
                        broker: b,
                    },
                }
                &&& target@ == (our.node@, old(state).active_process_id->0@)
                &&& t2@ == task.task_id@ && params@ == task.parameters.task_parameters@
                &&& p2@ == process_id@ && b == *broker
            } else {
                &&& *final(state) == *old(state)
                &&& res@.len() == 0
            },
        },
{
    let mut res: Vec<WorkerMessage> = Vec::new();
    match request {
        BrokerRequests::NewTask(params) => {
            let response = BrokerResponses::TaskStarted {
                process_id: params.process_id.to_string(),
                task_id: params.task_id,
            };
            res.push(WorkerMessage::ReplyToBroker { response });
        },
        BrokerRequests::TaskAssigned { worker_id, process_id, task } => {
            let active = match &state.active_process_id {
                Some(p) => p.clone(),
                None => {
                    return res;
                },
            };
            if worker_id == our.node && active.to_string() == process_id {
                state.active_task = Some(task.clone());
                res.push(
                    WorkerMessage::ToBroker {
                        request: WorkerToBrokerRequests::TaskStarted {
                            process_id: process_id.clone(),
                            task_id: task.task_id.clone(),
                        },
                    },
                );
                res.push(
                    WorkerMessage::ToProcess {
                        target: Address { node: our.node.clone(), process: active },
                        request: WorkerToProcessRequests::StartTask {
                            task_id: task.task_id.clone(),
                            params: task.parameters.task_parameters.clone(),
                            process_id: process_id.clone(),
                            broker: broker.clone(),
                        },
                    },
                );
            }
        },
    }
    res
}

} // verus!
