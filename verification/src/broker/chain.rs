use alloy_sol_types::sol_data::{Address as AbiAddress, Array as AbiArray, String as AbiString};
use alloy_sol_types::SolType;
use vstd::prelude::*;

use crate::contract::{abi_decoded_string_address_list, decode_string_address_list, pairs_view};

verus! {

/// An application registered on chain, with the accounts allowed to ask for its tasks.
pub struct ApplicationRecord {
    pub name: String,
    pub governance_token: [u8; 20],
    pub usage_token: [u8; 20],
    pub whitelist: Vec<[u8; 20]>,
}

impl Clone for ApplicationRecord {
    fn clone(&self) -> (res: Self)
        ensures
            res.name == self.name,
            res.governance_token == self.governance_token,
            res.usage_token == self.usage_token,
            res.whitelist@ == self.whitelist@,
    {
        let mut whitelist: Vec<[u8; 20]> = Vec::new();
        let mut i: usize = 0;
        while i < self.whitelist.len()
            invariant
                i <= self.whitelist@.len(),
                whitelist@ == self.whitelist@.take(i as int),
            decreases self.whitelist@.len() - i,
        {
            whitelist.push(self.whitelist[i]);
            i = i + 1;
            proof {
                assert(whitelist@ =~= self.whitelist@.take(i as int));
            }
        }
        proof {
            assert(whitelist@ =~= self.whitelist@);
        }
        ApplicationRecord {
            name: self.name.clone(),
            governance_token: self.governance_token,
            usage_token: self.usage_token,
            whitelist,
        }
    }
}

/// A process registered on chain, with the repository it is built from.
pub struct ProcessRecord {
    pub name: String,
    pub repo_url: String,
}

impl Clone for ProcessRecord {
    fn clone(&self) -> (res: Self)
        ensures
            res == *self,
    {
        ProcessRecord { name: self.name.clone(), repo_url: self.repo_url.clone() }
    }
}

/// A broker registered on chain for a process.
pub struct Broker {
    pub broker_kns_id: String,
    pub broker_address: [u8; 20],
    pub reachable_url: String,
}

impl Clone for Broker {
    fn clone(&self) -> (res: Self)
        ensures
            res == *self,
    {
        Broker {
            broker_kns_id: self.broker_kns_id.clone(),
            broker_address: self.broker_address,
            reachable_url: self.reachable_url.clone(),
        }
    }
}

/// A worker registered on chain for a process.
pub struct Worker {
    pub worker_kns_id: String,
    pub worker_address: [u8; 20],
}

impl Clone for Worker {
    fn clone(&self) -> (res: Self)
        ensures
            res == *self,
    {
        Worker { worker_kns_id: self.worker_kns_id.clone(), worker_address: self.worker_address }
    }
}


/// An application as plain values: name, governance token, usage token, whitelist.
pub open spec fn application_view(a: ApplicationRecord) -> (Seq<char>, Seq<u8>, Seq<u8>, Seq<Seq<u8>>) {
    (a.name@, a.governance_token@, a.usage_token@, a.whitelist@.map_values(|w: [u8; 20]| w@))
}

/// A process as plain values: name and repository URL.
pub open spec fn process_view(p: ProcessRecord) -> (Seq<char>, Seq<char>) {
    (p.name@, p.repo_url@)
}

/// A broker as plain values: name on the network, account, reachable URL.
pub open spec fn broker_view(b: Broker) -> (Seq<char>, Seq<u8>, Seq<char>) {
    (b.broker_kns_id@, b.broker_address@, b.reachable_url@)
}

/// A worker as plain values: name on the network and account.
pub open spec fn worker_view(w: Worker) -> (Seq<char>, Seq<u8>) {
    (w.worker_kns_id@, w.worker_address@)
}

/// Workers as plain values.
pub open spec fn workers_view(s: Seq<Worker>) -> Seq<(Seq<char>, Seq<u8>)> {
    s.map_values(|w: Worker| worker_view(w))
}

/// The list of `(string, address, address, address[])` tuples that the ABI blob `bytes`
/// encodes, or nothing where it encodes none.
pub uninterp spec fn abi_decoded_applications(bytes: Seq<u8>) -> Option<
    Seq<(Seq<char>, Seq<u8>, Seq<u8>, Seq<Seq<u8>>)>,
>;

/// The list of `(string, string)` tuples that the ABI blob `bytes` encodes, or nothing.
pub uninterp spec fn abi_decoded_processes(bytes: Seq<u8>) -> Option<Seq<(Seq<char>, Seq<char>)>>;

/// The list of `(string, address, string)` tuples that the ABI blob `bytes` encodes, or nothing.
pub uninterp spec fn abi_decoded_brokers(bytes: Seq<u8>) -> Option<
    Seq<(Seq<char>, Seq<u8>, Seq<char>)>,
>;

/// `alloy_sol_types`: decodes `bytes` as an array of `(string, address, address, address[])`
/// without validation, one application each; nothing where decoding fails.
#[verifier::external_body]
pub(crate) fn decode_applications(bytes: &[u8]) -> (res: Option<Vec<ApplicationRecord>>)
    ensures
        match res {
            Some(v) => abi_decoded_applications(bytes@) == Some(v@.map_values(|a: ApplicationRecord| application_view(a))),
            None => abi_decoded_applications(bytes@) is None,
        },
{
    let list = <AbiArray<(AbiString, AbiAddress, AbiAddress, AbiArray<AbiAddress>)> as SolType>::abi_decode(
        bytes,
        false,
    ).ok()?;
    Some(list.into_iter().map(|(name, g, u, w)| ApplicationRecord {
        name, governance_token: g.0 .0, usage_token: u.0 .0,
        whitelist: w.into_iter().map(|a| a.0 .0).collect(),
    }).collect())
}

/// `alloy_sol_types`: decodes `bytes` as an array of `(string, string)` without validation,
/// one process each; nothing where decoding fails.
#[verifier::external_body]
pub(crate) fn decode_processes(bytes: &[u8]) -> (res: Option<Vec<ProcessRecord>>)
    ensures
        match res {
            Some(v) => abi_decoded_processes(bytes@) == Some(v@.map_values(|p: ProcessRecord| process_view(p))),
            None => abi_decoded_processes(bytes@) is None,
        },
{
    let list = <AbiArray<(AbiString, AbiString)> as SolType>::abi_decode(bytes, false).ok()?;
    Some(list.into_iter().map(|(name, repo_url)| ProcessRecord { name, repo_url }).collect())
}

/// `alloy_sol_types`: decodes `bytes` as an array of `(string, address, string)` without
/// validation, one broker each; nothing where decoding fails.
#[verifier::external_body]
pub(crate) fn decode_brokers(bytes: &[u8]) -> (res: Option<Vec<Broker>>)
    ensures
        match res {
            Some(v) => abi_decoded_brokers(bytes@) == Some(v@.map_values(|b: Broker| broker_view(b))),
            None => abi_decoded_brokers(bytes@) is None,
        },
{
    let list = <AbiArray<(AbiString, AbiAddress, AbiString)> as SolType>::abi_decode(bytes, false).ok()?;
    Some(list.into_iter().map(|(id, a, url)| Broker {
        broker_kns_id: id, broker_address: a.0 .0, reachable_url: url,
    }).collect())
}

/// The applications that the contract's answer `response` lists: none where there is no
/// answer or it cannot be decoded.
pub fn applications_from(response: Option<Vec<u8>>) -> (res: Vec<ApplicationRecord>)
    ensures
        match response {
            Some(bytes) => match abi_decoded_applications(bytes@) {
                Some(list) => res@.map_values(|a: ApplicationRecord| application_view(a)) == list,
                None => res@.len() == 0,
            },
            None => res@.len() == 0,
        },
{
    match response {
        Some(bytes) => match decode_applications(bytes.as_slice()) {
            Some(list) => list,
            None => Vec::new(),
        },
        None => Vec::new(),
    }
}

/// The processes that the contract's answer `response` lists: none where there is no answer or
/// it cannot be decoded.
pub fn processes_from(response: Option<Vec<u8>>) -> (res: Vec<ProcessRecord>)
    ensures
        match response {
            Some(bytes) => match abi_decoded_processes(bytes@) {
                Some(list) => res@.map_values(|p: ProcessRecord| process_view(p)) == list,
                None => res@.len() == 0,
            },
            None => res@.len() == 0,
        },
{
    match response {
        Some(bytes) => match decode_processes(bytes.as_slice()) {
            Some(list) => list,
            None => Vec::new(),
        },
        None => Vec::new(),
    }
}

/// The brokers that the contract's answer `response` lists: none where there is no answer or
/// it cannot be decoded.
pub fn brokers_from(response: Option<Vec<u8>>) -> (res: Vec<Broker>)
    ensures
        match response {
            Some(bytes) => match abi_decoded_brokers(bytes@) {
                Some(list) => res@.map_values(|b: Broker| broker_view(b)) == list,
                None => res@.len() == 0,
            },
            None => res@.len() == 0,
        },
{
    match response {
        Some(bytes) => match decode_brokers(bytes.as_slice()) {
            Some(list) => list,
            None => Vec::new(),
        },
        None => Vec::new(),
    }
}

/// The workers that the contract's answer `response` lists: none where there is no answer or
/// it cannot be decoded.
pub fn workers_from(response: Option<Vec<u8>>) -> (res: Vec<Worker>)
    ensures
        match response {
            Some(bytes) => match abi_decoded_string_address_list(bytes@) {
                Some(list) => workers_view(res@) == list,
                None => res@.len() == 0,
            },
            None => res@.len() == 0,
        },
{
    let pairs = match response {
        Some(bytes) => match decode_string_address_list(bytes.as_slice()) {
            Some(list) => list,
            None => Vec::new(),
        },
        None => Vec::new(),
    };
    let ghost all = pairs@;
    let mut rest = pairs;
    let mut res: Vec<Worker> = Vec::new();
    while rest.len() > 0
        invariant
            rest@.len() <= all.len(),
            rest@ == all.skip(all.len() - rest@.len()),
            res@.len() == all.len() - rest@.len(),
            workers_view(res@) == pairs_view(all.take(all.len() - rest@.len())),
        decreases rest@.len(),
    {
        let ghost k = all.len() - rest@.len();
        let ghost prev = res@;
        proof {
            assert(rest@[0] == all[k]);
        }
        let (id, account) = rest.remove(0);
        res.push(Worker { worker_kns_id: id, worker_address: account });
        proof {
            assert(rest@ =~= all.skip(k + 1));
            assert forall|j: int| 0 <= j < k + 1 implies #[trigger] workers_view(res@)[j]
                == pairs_view(all.take(k + 1))[j] by {
                if j < k {
                    assert(res@[j] == prev[j]);
                    assert(workers_view(prev)[j] == pairs_view(all.take(k))[j]);
                } else {
                    assert(res@[j] == Worker { worker_kns_id: id, worker_address: account });
                }
            }
            assert(workers_view(res@) =~= pairs_view(all.take(k + 1)));
        }
    }
    proof {
        assert(all.take(all.len() as int) =~= all);
    }
    res
}

} // verus!
