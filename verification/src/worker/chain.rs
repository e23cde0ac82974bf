use vstd::prelude::*;

use crate::contract::{abi_decoded_string_address_list, decode_string_address_list, pairs_view};

verus! {

/// A broker registered on chain for a process, as a worker reads it.
pub struct Broker {
    pub broker_kns_id: String,
    pub broker_address: [u8; 20],
}

impl Clone for Broker {
    fn clone(&self) -> (res: Self)
        ensures
            res == *self,
    {
        Broker { broker_kns_id: self.broker_kns_id.clone(), broker_address: self.broker_address }
    }
}

/// Brokers as plain values: name on the network and account.
pub open spec fn brokers_view(s: Seq<Broker>) -> Seq<(Seq<char>, Seq<u8>)> {
    s.map_values(|b: Broker| (b.broker_kns_id@, b.broker_address@))
}

/// The brokers that the contract's answer `response` lists: none where there is no answer or
/// it cannot be decoded.
pub fn brokers_from(response: Option<Vec<u8>>) -> (res: Vec<Broker>)
    ensures
        match response {
            Some(bytes) => match abi_decoded_string_address_list(bytes@) {
                Some(list) => brokers_view(res@) == list,
                None => res@.len() == 0,
            },
            None => res@.len() == 0,
        },
{
    let pairs = match response {
        Some(bytes) => match decode_string_address_list(bytes.as_slice()) {
            Some(list) => list,
            None => Vec::new(),
        },
        None => Vec::new(),
    };
    let ghost all = pairs@;
    let mut rest = pairs;
    let mut res: Vec<Broker> = Vec::new();
    while rest.len() > 0
        invariant
            rest@.len() <= all.len(),
            rest@ == all.skip(all.len() - rest@.len()),
            res@.len() == all.len() - rest@.len(),
            brokers_view(res@) == pairs_view(all.take(all.len() - rest@.len())),
        decreases rest@.len(),
    {
        let ghost k = all.len() - rest@.len();
        let ghost prev = res@;
        proof {
            assert(rest@[0] == all[k]);
        }
        let (id, account) = rest.remove(0);
        res.push(Broker { broker_kns_id: id, broker_address: account });
        proof {
            assert(rest@ =~= all.skip(k + 1));
            assert forall|j: int| 0 <= j < k + 1 implies #[trigger] brokers_view(res@)[j]
                == pairs_view(all.take(k + 1))[j] by {
                if j < k {
                    assert(res@[j] == prev[j]);
                    assert(brokers_view(prev)[j] == pairs_view(all.take(k))[j]);
                } else {
                    assert(res@[j] == Broker { broker_kns_id: id, broker_address: account });
                }
            }
            assert(brokers_view(res@) =~= pairs_view(all.take(k + 1)));
        }
    }
    proof {
        assert(all.take(all.len() as int) =~= all);
    }
    res
}

} // verus!
