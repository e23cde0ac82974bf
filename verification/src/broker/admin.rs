use vstd::prelude::*;

use crate::broker::chain::{ApplicationRecord, Broker, ProcessRecord, Worker};
use crate::broker::types::{apps_by_name, processes_by_name, AdminRequest, OnChainState, State};
use crate::shared::{address_text, Address};

verus! {

/// The process whose brokers and workers a broker follows on chain.
pub open spec fn current_process_text() -> Seq<char> {
    "diffusion:ai_provider:meme-deck.os"@
}

/// The process whose brokers and workers a broker follows on chain,
/// `diffusion:ai_provider:meme-deck.os`.
pub fn current_process() -> (res: String)
    ensures
        res@ == current_process_text(),
{
    "diffusion:ai_provider:meme-deck.os".to_owned()
}

/// What the chain says, as read from it: the applications and processes by name, `brokers`
/// and `workers` as those of the process `process_id` (and of no other), and the default
/// service settings.
pub fn synced_chain_state(
    process_id: String,
    apps: Vec<ApplicationRecord>,
    processes: Vec<ProcessRecord>,
    brokers: Vec<Broker>,
    workers: Vec<Worker>,
) -> (res: OnChainState)
    ensures
        res.wf(),
        res.apps@ == apps_by_name(apps@),
        res.processes@ == processes_by_name(processes@),
        res.brokers@ == Map::<Seq<char>, Vec<Broker>>::empty().insert(process_id@, brokers),
        res.workers@ == Map::<Seq<char>, Vec<Worker>>::empty().insert(process_id@, workers),
        res.queue_response_timeout_seconds == 10,
        res.serve_timeout_seconds == 10,
        res.max_outstanding_payments == 10,
        res.payment_period_hours == 1,
{
    let mut res = OnChainState::default();
    res.set_apps(apps);
    res.set_processes(processes);
    res.set_brokers(&process_id, brokers);
    res.set_workers(&process_id, workers);
    res
}

/// What the broker does for a request of its operator, beyond printing it.
pub enum AdminAction {
    /// Read the chain for the process `process_id` and replace what the broker knows of it.
    SyncChainState { process_id: String },
    /// Register on chain as broker `broker_kns_id` for the process `process_id`.
    RegisterBroker { broker_kns_id: String, process_id: String },
    /// Print the state.
    ShowState,
    /// Nothing but a line in the log.
    Log,
}

/// What the broker at `our` does for `request` of its operator.
pub fn handle_admin_request(our: &Address, request: AdminRequest) -> (res: AdminAction)
    ensures
        match request {
            AdminRequest::SyncChainState => res matches AdminAction::SyncChainState { process_id }
                && process_id@ == current_process_text(),
            AdminRequest::RegisterBroker { process_id } => res matches AdminAction::RegisterBroker {
                broker_kns_id,
                process_id: p,
            } && broker_kns_id@ == address_text(our@) && p == process_id,
            AdminRequest::GetState => res is ShowState,
            _ => res is Log,
        },
{
    match request {
        AdminRequest::SyncChainState => AdminAction::SyncChainState { process_id: current_process() },
        AdminRequest::RegisterBroker { process_id } => AdminAction::RegisterBroker {
            broker_kns_id: our.to_string(),
            process_id,
        },
        AdminRequest::GetState => AdminAction::ShowState,
        AdminRequest::SetIsReady { .. } => AdminAction::Log,
        AdminRequest::SetContractAddress { .. } => AdminAction::Log,
        AdminRequest::SetWorkerProcess { .. } => AdminAction::Log,
    }
}

impl State {
    /// Replaces what the broker knows of the chain with what was read from it for the process
    /// `process_id`, as `synced_chain_state` builds it.
    pub fn sync_chain_state(
        &mut self,
        process_id: String,
        apps: Vec<ApplicationRecord>,
        processes: Vec<ProcessRecord>,
        brokers: Vec<Broker>,
        workers: Vec<Worker>,
    )
        requires
            old(self).wf(),
        ensures
            final(self).wf(),
            final(self).task_queue == old(self).task_queue,
            final(self).waiting_workers == old(self).waiting_workers,
            final(self).ongoing_tasks == old(self).ongoing_tasks,
            final(self).on_chain_state.apps@ == apps_by_name(apps@),
            final(self).on_chain_state.processes@ == processes_by_name(processes@),
            final(self).on_chain_state.brokers@ == Map::<Seq<char>, Vec<Broker>>::empty().insert(
                process_id@,
                brokers,
            ),
            final(self).on_chain_state.workers@ == Map::<Seq<char>, Vec<Worker>>::empty().insert(
                process_id@,
                workers,
            ),
            final(self).on_chain_state.queue_response_timeout_seconds == 10,
            final(self).on_chain_state.serve_timeout_seconds == 10,
            final(self).on_chain_state.max_outstanding_payments == 10,
            final(self).on_chain_state.payment_period_hours == 1,
            old(self).settled() ==> final(self).settled(),
    {
        let chain = synced_chain_state(process_id, apps, processes, brokers, workers);
        self.set_chain_state(chain);
    }
}

} // verus!
