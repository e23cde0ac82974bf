use vstd::prelude::*;

use crate::broker::types::string_to_process_id;
use crate::shared::{process_id_text, Address, ProcessId};
use crate::text::split_colons;
use crate::worker::chain::Broker;
use crate::worker::types::{AdminRequest, WorkerState};

verus! {

/// What a worker does for a request of its operator, beyond printing it.
pub enum WorkerAdminAction {
    /// Print the state.
    ShowState,
    /// Read the brokers of the process `refresh_brokers_for` from the contract at
    /// `contract_address`, if a process is given, and take them on; then ask the first broker
    /// for a task.
    ClaimNextTask { refresh_brokers_for: Option<String>, contract_address: String },
    /// Read the brokers of the process `refresh_brokers_for` from the contract at
    /// `contract_address`, if a process is given, and take them on; then save the state.
    Save { refresh_brokers_for: Option<String>, contract_address: String },
}

/// `res` is the text of the process id `p`, if there is one.
pub open spec fn process_text_of(p: Option<ProcessId>, res: Option<String>) -> bool {
    match p {
        Some(p) => res matches Some(s) && s@ == process_id_text(p@),
        None => res is None,
    }
}

/// The address of the broker process on node `kns_id`.
pub open spec fn broker_process_address(kns_id: Seq<char>) -> (
    Seq<char>,
    (Seq<char>, Seq<char>, Seq<char>),
) {
    (kns_id, ("broker"@, "ai_provider"@, "meme-deck.os"@))
}

impl WorkerState {
    /// The text of the process that runs the worker's tasks, if one is set.
    pub fn active_process_text(&self) -> (res: Option<String>)
        ensures
            process_text_of(self.active_process_id, res),
    {
        match &self.active_process_id {
            Some(p) => Some(p.to_string()),
            None => None,
        }
    }

    /// Takes on `brokers` as the brokers of the worker's process.
    pub fn set_brokers(&mut self, brokers: Vec<Broker>)
        ensures
            final(self).brokers == brokers,
            final(self).is_ready == old(self).is_ready,
            final(self).contract_address == old(self).contract_address,
            final(self).active_process_id == old(self).active_process_id,
            final(self).active_task == old(self).active_task,
    {
        self.brokers = brokers;
    }

    /// The address of the broker process of the first broker, which a worker asks for tasks.
    pub fn first_broker_address(&self) -> (res: Address)
        requires
            self.brokers@.len() > 0,
        ensures
            res@ == broker_process_address(self.brokers@[0].broker_kns_id@),
    {
        Address {
            node: self.brokers[0].broker_kns_id.clone(),
            process: ProcessId {
                process_name: "broker".to_owned(),
                package_name: "ai_provider".to_owned(),
                publisher_node: "meme-deck.os".to_owned(),
            },
        }
    }
}

/// Handles `request` of the operator of a worker.
///
/// `SetIsReady` sets the ready flag and asks the first broker for a task, after reading the
/// brokers from chain when none are known; `SetContractAddress` and `SetWorkerProcess` take on the new contract or
/// process, read the brokers of the process anew from the worker's contract, and save.
pub fn handle_admin_request(state: &mut WorkerState, request: AdminRequest) -> (res:
    WorkerAdminAction)
    requires
        request matches AdminRequest::SetWorkerProcess { process_id } ==> split_colons(
            process_id@,
        ).len() >= 3,
    ensures
        match request {
            AdminRequest::GetState => {
                &&& res is ShowState
                &&& *final(state) == *old(state)
            },
            AdminRequest::SetIsReady { is_ready } => {
                &&& final(state).is_ready == is_ready
                &&& final(state).brokers == old(state).brokers
                &&& final(state).contract_address == old(state).contract_address
                &&& final(state).active_process_id == old(state).active_process_id
                &&& final(state).active_task == old(state).active_task
                &&& res matches WorkerAdminAction::ClaimNextTask {
                    refresh_brokers_for,
                    contract_address,
                }
                &&& contract_address == old(state).contract_address
                &&& if old(state).brokers@.len() == 0 {
                    process_text_of(old(state).active_process_id, refresh_brokers_for)
                } else {
                    refresh_brokers_for is None
                }
            },
            AdminRequest::SetContractAddress { address } => {
                &&& final(state).contract_address == address
                &&& final(state).is_ready == old(state).is_ready
                &&& final(state).brokers == old(state).brokers
                &&& final(state).active_process_id == old(state).active_process_id
                &&& final(state).active_task == old(state).active_task
                &&& res matches WorkerAdminAction::Save { refresh_brokers_for, contract_address }
                &&& contract_address == address
                &&& process_text_of(old(state).active_process_id, refresh_brokers_for)
            },
            AdminRequest::SetWorkerProcess { process_id } => {
                let parts = split_colons(process_id@);
                &&& final(state).active_process_id matches Some(p) && p@ == (
                    parts[0],
                    parts[1],
                    parts[2],
                )
                &&& final(state).is_ready == old(state).is_ready
                &&& final(state).brokers == old(state).brokers
                &&& final(state).contract_address == old(state).contract_address
                &&& final(state).active_task == old(state).active_task
                &&& res matches WorkerAdminAction::Save { refresh_brokers_for, contract_address }
                &&& contract_address == old(state).contract_address
                &&& process_text_of(final(state).active_process_id, refresh_brokers_for)
            },
        },
{
    match request {
        AdminRequest::GetState => WorkerAdminAction::ShowState,
        AdminRequest::SetIsReady { is_ready } => {
            state.is_ready = is_ready;
            let refresh = if state.brokers.len() == 0 {
                state.active_process_text()
            } else {
                None
            };
            WorkerAdminAction::ClaimNextTask {
                refresh_brokers_for: refresh,
                contract_address: state.contract_address.clone(),
            }
        },
        AdminRequest::SetContractAddress { address } => {
            state.contract_address = address;
            WorkerAdminAction::Save {
                refresh_brokers_for: state.active_process_text(),
                contract_address: state.contract_address.clone(),
            }
        },
        AdminRequest::SetWorkerProcess { process_id } => {
            state.active_process_id = Some(string_to_process_id(process_id.as_str()));
            WorkerAdminAction::Save {
                refresh_brokers_for: state.active_process_text(),
                contract_address: state.contract_address.clone(),
            }
        },
    }
}

} // verus!
