use vstd::prelude::*;

use crate::broker::types::{string_to_process_id, with_task, State, UserRequests, UserResponses};
use crate::broker::worker::{assign_tasks_to_waiting_workers, assignment_outcome, TaskAssignment};
use crate::ids::{is_uuid_v4_text, new_task_id};
use crate::shared::{address_text, Address, TaskParameters};
use crate::text::split_colons;

verus! {

/// `p` holds what a task asked for through the broker at `our` by `from_user` carries: the
/// process written `process_id`, the id `task_id`, and the JSON parameters `params`.
pub open spec fn requested_parameters(
    p: TaskParameters,
    our: Address,
    from_user: Seq<char>,
    process_id: Seq<char>,
    params: Seq<char>,
    task_id: Seq<char>,
) -> bool {
    let parts = split_colons(process_id);
    &&& p.process_id@ == (parts[0], parts[1], parts[2])
    &&& p.task_id@ == task_id
    &&& p.from_broker@ == address_text(our@)
    &&& p.from_user@ == from_user
    &&& p.task_parameters@ == params
}

/// How the broker goes from `s0` to `s1` when a task with id `task_id` is asked for: the task
/// is queued with source `our` (unless its id is queued already), queued tasks then go to
/// waiting workers (the requests `sent`), and the user is told the task was requested.
pub open spec fn task_requested(
    s0: State,
    s1: State,
    our: Address,
    from_user: Seq<char>,
    process_id: Seq<char>,
    params: Seq<char>,
    task_id: Seq<char>,
    response: UserResponses,
    sent: Seq<TaskAssignment>,
) -> bool {
    &&& s1.ongoing_tasks == s0.ongoing_tasks
    &&& s1.on_chain_state == s0.on_chain_state
    &&& exists|p: TaskParameters|
        {
            &&& #[trigger] requested_parameters(p, our, from_user, process_id, params, task_id)
            &&& assignment_outcome(
                with_task(s0.task_queue@, task_id, our, p),
                s0.waiting_workers@,
                s1.task_queue@,
                s1.waiting_workers@,
                sent,
            )
            &&& response matches UserResponses::TaskRequested { process_id: pid, task_id: t }
            &&& pid == p.process_id
            &&& t@ == task_id
        }
}

/// Queues the task `task_id` that `from_user` asked for, for the process written
/// `process_id` with JSON parameters `task_parameters`, then hands queued tasks to waiting
/// workers; gives back the answer for the user and the requests to send.
pub fn request_task(
    state: &mut State,
    our: &Address,
    from_user: String,
    process_id: &String,
    task_parameters: String,
    task_id: String,
) -> (res: (UserResponses, Vec<TaskAssignment>))
    requires
        old(state).wf(),
        split_colons(process_id@).len() >= 3,
    ensures
        final(state).wf(),
        task_requested(
            *old(state),
            *final(state),
            *our,
            from_user@,
            process_id@,
            task_parameters@,
            task_id@,
            res.0,
            res.1@,
        ),
        final(state).settled(),
{
    let ghost from = from_user@;
    let ghost params_text = task_parameters@;
    let pid = string_to_process_id(process_id.as_str());
    let params = TaskParameters {
        process_id: pid.clone(),
        task_id: task_id.clone(),
        from_broker: our.to_string(),
        from_user,
        task_parameters,
    };
    let ghost p = params;
    state.add_task(task_id.clone(), our.clone(), params);
    let assignments = assign_tasks_to_waiting_workers(state);
    let response = UserResponses::TaskRequested { process_id: pid, task_id };
    proof {
        assert(requested_parameters(p, *our, from, process_id@, params_text, task_id@));
    }
    (response, assignments)
}

/// Handles `request` from a user on node `source_node`: a task request gets a fresh random id,
/// is queued and handed out as `request_task` says; a cancellation drops the queued task.
pub fn handle_user_request(
    state: &mut State,
    our: &Address,
    source_node: &String,
    request: UserRequests,
) -> (res: (UserResponses, Vec<TaskAssignment>))
    requires
        old(state).wf(),
        request matches UserRequests::RequestTask { process_id, .. } ==> split_colons(
            process_id@,
        ).len() >= 3,
    ensures
        final(state).wf(),
        match request {
            UserRequests::RequestTask { process_id, task_parameters } => {
                &&& res.0 matches UserResponses::TaskRequested { task_id, .. }
                &&& is_uuid_v4_text(task_id@)
                &&& task_requested(
                    *old(state),
                    *final(state),
                    *our,
                    source_node@,
                    process_id@,
                    task_parameters@,
                    task_id@,
                    res.0,
                    res.1@,
                )
            },
            UserRequests::CancelTask { process_id, task_id } => {
                &&& final(state).task_queue@ == old(state).task_queue@.remove(task_id@)
                &&& final(state).waiting_workers == old(state).waiting_workers
                &&& final(state).ongoing_tasks == old(state).ongoing_tasks
                &&& final(state).on_chain_state == old(state).on_chain_state
                &&& res.0 == (UserResponses::TaskCancelled { process_id, task_id })
                &&& res.1@.len() == 0
            },
        },
        old(state).settled() ==> final(state).settled(),
{
    match request {
        UserRequests::RequestTask { process_id, task_parameters } => {
            let task_id = new_task_id();
            request_task(state, our, source_node.clone(), &process_id, task_parameters, task_id)
        },
        UserRequests::CancelTask { process_id, task_id } => {
            state.remove_task(&task_id);
            proof {
                old(state).task_queue.lemma_entries();
                state.task_queue.lemma_entries();
                if old(state).task_queue@.len() == 0 {
                    vstd::set_lib::lemma_set_empty_equivalency_len(old(state).task_queue@.dom());
                    assert(state.task_queue@.dom() =~= Set::<Seq<char>>::empty());
                }
            }
            (UserResponses::TaskCancelled { process_id, task_id }, Vec::new())
        },
    }
}

} // verus!
