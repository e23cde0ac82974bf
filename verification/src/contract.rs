use alloy_sol_types::sol_data::{Address as AbiAddress, Array as AbiArray, String as AbiString};
use alloy_sol_types::SolType;
use vstd::arithmetic::power::pow;
use vstd::prelude::*;
use vstd::utf8::encode_utf8;

use crate::signing::{keccak256, keccak256_of};

verus! {

/// The 32-byte big-endian word that holds `n`.
pub open spec fn abi_word(n: nat) -> Seq<u8> {
    Seq::new(32, |i: int| ((n as int / pow(256, (31 - i) as nat)) % 256) as u8)
}

/// The zeros that pad `len` bytes to a whole number of 32-byte words.
pub open spec fn zero_padding(len: nat) -> Seq<u8> {
    Seq::new(((32 - len % 32) % 32) as nat, |i: int| 0u8)
}

/// How a string is laid out in the dynamic part of an ABI encoding: its length in bytes, then
/// its UTF-8 bytes, padded with zeros to a whole number of words.
pub open spec fn abi_string_tail(s: Seq<char>) -> Seq<u8> {
    let b = encode_utf8(s);
    abi_word(b.len()) + b + zero_padding(b.len())
}

/// The ABI encoding of the parameters `(string a)`: the offset of its tail, then the tail.
pub open spec fn abi_one_string(a: Seq<char>) -> Seq<u8> {
    abi_word(32) + abi_string_tail(a)
}

/// The ABI encoding of the parameters `(string a, string b, string c)`: the offsets of the
/// three tails, then the tails in order.
pub open spec fn abi_three_strings(a: Seq<char>, b: Seq<char>, c: Seq<char>) -> Seq<u8> {
    let ta = abi_string_tail(a);
    let tb = abi_string_tail(b);
    abi_word(96) + abi_word(96 + ta.len()) + abi_word(96 + ta.len() + tb.len()) + ta + tb
        + abi_string_tail(c)
}

/// `alloy_sol_types`: the ABI encoding of the single string parameter `a`, as the offset of its
/// tail (32) followed by its length and its bytes padded with zeros to whole words.
#[verifier::external_body]
pub(crate) fn abi_encode_string(a: &str) -> (res: Vec<u8>)
    ensures
        res@ == abi_one_string(a@),
{
    <(AbiString,) as SolType>::abi_encode_params(&(a.to_string(),))
}

/// `alloy_sol_types`: the ABI encoding of the three string parameters `a`, `b` and `c`, as the
/// offsets of their tails followed by the tails.
#[verifier::external_body]
pub(crate) fn abi_encode_three_strings(a: &str, b: &str, c: &str) -> (res: Vec<u8>)
    ensures
        res@ == abi_three_strings(a@, b@, c@),
{
    <(AbiString, AbiString, AbiString) as SolType>::abi_encode_params(
        &(a.to_string(), b.to_string(), c.to_string()),
    )
}

/// The selector of the Solidity function with signature `signature`: the first four bytes of
/// the Keccak-256 hash of the signature.
pub open spec fn selector_of(signature: Seq<char>) -> Seq<u8> {
    keccak256_of(encode_utf8(signature)).take(4)
}

/// The selector of the Solidity function with signature `signature`.
pub fn selector(signature: &str) -> (res: Vec<u8>)
    ensures
        res@ == selector_of(signature@),
{
    let hash = keccak256(signature.as_bytes());
    let mut res: Vec<u8> = Vec::new();
    res.push(hash[0]);
    res.push(hash[1]);
    res.push(hash[2]);
    res.push(hash[3]);
    proof {
        assert(res@ =~= selector_of(signature@));
    }
    res
}

/// The call data of `getApplications()`.
pub fn get_applications_call() -> (res: Vec<u8>)
    ensures
        res@ == selector_of("getApplications()"@),
{
    selector("getApplications()")
}

/// The call data of `getProcesses()`.
pub fn get_processes_call() -> (res: Vec<u8>)
    ensures
        res@ == selector_of("getProcesses()"@),
{
    selector("getProcesses()")
}

/// The call data of `getProcessBrokers(process_id)`.
pub fn get_process_brokers_call(process_id: &str) -> (res: Vec<u8>)
    ensures
        res@ == selector_of("getProcessBrokers(string)"@) + abi_one_string(process_id@),
{
    let mut res = selector("getProcessBrokers(string)");
    let mut params = abi_encode_string(process_id);
    res.append(&mut params);
    res
}

/// The call data of `getProcessWorkers(process_id)`.
pub fn get_process_workers_call(process_id: &str) -> (res: Vec<u8>)
    ensures
        res@ == selector_of("getProcessWorkers(string)"@) + abi_one_string(process_id@),
{
    let mut res = selector("getProcessWorkers(string)");
    let mut params = abi_encode_string(process_id);
    res.append(&mut params);
    res
}

/// The call data that registers `broker_kns_id` as a broker for the process `process_id`,
/// reachable at `http://localhost:8082`.
pub fn register_broker_call(process_id: &str, broker_kns_id: &str) -> (res: Vec<u8>)
    ensures
        res@ == selector_of("registerBroker(string,string,string)"@) + abi_three_strings(
            process_id@,
            broker_kns_id@,
            "http://localhost:8082"@,
        ),
{
    let mut res = selector("registerBroker(string,string,string)");
    let mut params = abi_encode_three_strings(process_id, broker_kns_id, "http://localhost:8082");
    res.append(&mut params);
    res
}

/// Pairs of a string and an account as plain values.
pub open spec fn pairs_view(s: Seq<(String, [u8; 20])>) -> Seq<(Seq<char>, Seq<u8>)> {
    s.map_values(|p: (String, [u8; 20])| (p.0@, p.1@))
}

/// The list of `(string, address)` tuples that the ABI blob `bytes` encodes, or nothing where
/// it encodes none.
pub uninterp spec fn abi_decoded_string_address_list(bytes: Seq<u8>) -> Option<
    Seq<(Seq<char>, Seq<u8>)>,
>;

/// `alloy_sol_types`: decodes `bytes` as an array of `(string, address)` without validation;
/// nothing where decoding fails.
#[verifier::external_body]
pub(crate) fn decode_string_address_list(bytes: &[u8]) -> (res: Option<Vec<(String, [u8; 20])>>)
    ensures
        match res {
            Some(v) => abi_decoded_string_address_list(bytes@) == Some(pairs_view(v@)),
            None => abi_decoded_string_address_list(bytes@) is None,
        },
{
    let list = <AbiArray<(AbiString, AbiAddress)> as SolType>::abi_decode(bytes, false).ok()?;
    Some(list.into_iter().map(|(id, account)| (id, account.0 .0)).collect())
}

} // verus!
