use ai_provider::broker::chain::{applications_from, brokers_from, processes_from, workers_from};
use ai_provider::contract::{
    get_applications_call, get_process_brokers_call, get_process_workers_call, get_processes_call,
    register_broker_call, selector,
};
use ai_provider::worker::chain::brokers_from as worker_brokers_from;
use alloy_sol_types::sol_data::{Address as AbiAddress, Array as AbiArray, String as AbiString};
use alloy_sol_types::SolType;

type Account = <AbiAddress as SolType>::RustType;

fn account(b: u8) -> Account {
    Account::from([b; 20])
}

fn word(n: usize) -> Vec<u8> {
    let mut w = vec![0u8; 24];
    w.extend_from_slice(&(n as u64).to_be_bytes());
    w
}

fn tail(s: &str) -> Vec<u8> {
    let mut t = word(s.len());
    t.extend_from_slice(s.as_bytes());
    while t.len() % 32 != 0 {
        t.push(0);
    }
    t
}

#[test]
fn selectors_are_the_first_hash_bytes_of_the_signatures() {
    assert_eq!(hex::encode(get_applications_call()), "43900e78");
    assert_eq!(hex::encode(get_processes_call()), "6e52b239");
    assert_eq!(hex::encode(selector("getProcessBrokers(string)")), "22a57e0b");
    assert_eq!(hex::encode(selector("getProcessWorkers(string)")), "c43ef1b2");
    assert_eq!(hex::encode(selector("registerBroker(string,string,string)")), "cc6a3631");
}

#[test]
fn one_string_call_data() {
    let p = "diffusion:ai_provider:meme-deck.os";
    let mut expected = hex::decode("22a57e0b").unwrap();
    expected.extend(word(32));
    expected.extend(tail(p));
    assert_eq!(get_process_brokers_call(p), expected);
    let workers = get_process_workers_call(p);
    assert_eq!(&workers[..4], &hex::decode("c43ef1b2").unwrap()[..]);
    assert_eq!(&workers[4..], &expected[4..]);
    assert_eq!(get_process_brokers_call("").len(), 4 + 64);
}

#[test]
fn three_string_call_data() {
    let data = register_broker_call("diffusion:ai_provider:meme-deck.os", "broker-1.os@broker:ai_provider:meme-deck.os");
    let (a, b, c) = ("diffusion:ai_provider:meme-deck.os", "broker-1.os@broker:ai_provider:meme-deck.os", "http://localhost:8082");
    let mut expected = hex::decode("cc6a3631").unwrap();
    expected.extend(word(96));
    expected.extend(word(96 + tail(a).len()));
    expected.extend(word(96 + tail(a).len() + tail(b).len()));
    expected.extend(tail(a));
    expected.extend(tail(b));
    expected.extend(tail(c));
    assert_eq!(data, expected);
}

#[test]
fn applications_are_decoded_from_the_answer() {
    let apps = vec![
        ("memedeck".to_string(), account(1), account(2), vec![account(3), account(4)]),
        ("other".to_string(), account(5), account(6), vec![]),
    ];
    let bytes = <AbiArray<(AbiString, AbiAddress, AbiAddress, AbiArray<AbiAddress>)> as SolType>::abi_encode(&apps);
    let decoded = applications_from(Some(bytes));
    assert_eq!(decoded.len(), 2);
    assert_eq!(decoded[0].name, "memedeck");
    assert_eq!(decoded[0].governance_token, [1; 20]);
    assert_eq!(decoded[0].usage_token, [2; 20]);
    assert_eq!(decoded[0].whitelist, vec![[3; 20], [4; 20]]);
    assert!(decoded[1].whitelist.is_empty());
}

#[test]
fn no_answer_or_garbage_gives_empty_lists() {
    assert!(applications_from(None).is_empty());
    assert!(applications_from(Some(vec![1, 2, 3])).is_empty());
    assert!(processes_from(None).is_empty());
    assert!(brokers_from(Some(vec![0xff; 7])).is_empty());
    assert!(workers_from(None).is_empty());
    assert!(worker_brokers_from(Some(vec![])).is_empty());
}

#[test]
fn processes_brokers_and_workers_are_decoded() {
    let procs = vec![("p".to_string(), "https://repo".to_string())];
    let bytes = <AbiArray<(AbiString, AbiString)> as SolType>::abi_encode(&procs);
    let decoded = processes_from(Some(bytes));
    assert_eq!(decoded[0].name, "p");
    assert_eq!(decoded[0].repo_url, "https://repo");

    let brokers = vec![("b.os".to_string(), account(7), "http://localhost:8082".to_string())];
    let bytes = <AbiArray<(AbiString, AbiAddress, AbiString)> as SolType>::abi_encode(&brokers);
    let decoded = brokers_from(Some(bytes));
    assert_eq!(decoded[0].broker_kns_id, "b.os");
    assert_eq!(decoded[0].broker_address, [7; 20]);
    assert_eq!(decoded[0].reachable_url, "http://localhost:8082");

    let pairs = vec![("w1.os".to_string(), account(8)), ("w2.os".to_string(), account(9))];
    let bytes = <AbiArray<(AbiString, AbiAddress)> as SolType>::abi_encode(&pairs);
    let workers = workers_from(Some(bytes.clone()));
    assert_eq!(workers.len(), 2);
    assert_eq!(workers[1].worker_kns_id, "w2.os");
    assert_eq!(workers[1].worker_address, [9; 20]);
    let brokers = worker_brokers_from(Some(bytes));
    assert_eq!(brokers[0].broker_kns_id, "w1.os");
    assert_eq!(brokers[0].broker_address, [8; 20]);
}
