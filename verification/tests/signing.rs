use ai_provider::broker::chain::ApplicationRecord;
use ai_provider::broker::http::{
    authorized_signer, handle_generate_request, has_whitelist, is_generate_image_request, signature_fits, whitelists,
    GenerateError,
};
use ai_provider::broker::types::{GenerateRequest, State, UserResponses};
use ai_provider::shared::{Address, ProcessId};
use ai_provider::signing::{eth_address_string, eth_message};
use ai_provider::string_map::StringMap;
use web3::signing::{Key, SecretKey, SecretKeyRef};

fn hex20(s: &str) -> [u8; 20] {
    let v = hex::decode(s).unwrap();
    let mut a = [0u8; 20];
    a.copy_from_slice(&v);
    a
}

/// The secret key 1, whose account is a well-known test account.
fn key_one() -> SecretKey {
    let mut k = [0u8; 32];
    k[31] = 1;
    SecretKey::from_slice(&k).unwrap()
}

const ACCOUNT_ONE: &str = "7e5f4552091a69125d5dfcb7b8c2659029395bdf";
const ACCOUNT_ONE_CHECKSUM: &str = "0x7E5F4552091A69125d5DfCb7b8C2659029395Bdf";

fn sign(key: &SecretKey, task: &str) -> String {
    let hash = eth_message(task.to_string());
    let sig = SecretKeyRef::new(key).sign(&hash, None).unwrap();
    let mut bytes = sig.r.as_bytes().to_vec();
    bytes.extend_from_slice(sig.s.as_bytes());
    bytes.push(sig.v as u8);
    hex::encode(bytes)
}

fn apps_listing(account: [u8; 20]) -> StringMap<ApplicationRecord> {
    let mut apps = StringMap::new();
    apps.insert(
        "memedeck".to_string(),
        ApplicationRecord { name: "memedeck".to_string(), governance_token: [0; 20], usage_token: [0; 20], whitelist: vec![account] },
    );
    apps
}

fn our() -> Address {
    Address::new(
        "broker-1.os".to_string(),
        ProcessId { process_name: "broker".into(), package_name: "ai_provider".into(), publisher_node: "meme-deck.os".into() },
    )
}

#[test]
fn eth_message_is_the_eip191_hash() {
    for m in ["", "hello", "{\"nodes\":{}}", "ünïcode ✓"] {
        assert_eq!(eth_message(m.to_string()), web3::signing::hash_message(m).0);
    }
}

#[test]
fn eth_message_of_hello_is_fixed() {
    assert_eq!(
        hex::encode(eth_message("hello".to_string())),
        "50b2c43fd39106bafbba0da34fc430e1f91e3c96ea2acee2bc34119f92b37750"
    );
}

#[test]
fn checksum_form_of_a_known_address() {
    let a = hex20("d8da6bf26964af9d7eed9e03e53415d37aa96045");
    assert_eq!(eth_address_string(&a), "0xd8dA6BF26964aF9D7eEd9e03E53415D37aA96045");
    assert_eq!(eth_address_string(&hex20(ACCOUNT_ONE)), ACCOUNT_ONE_CHECKSUM);
}

#[test]
fn checksum_form_differs_from_lower_case_only_in_case() {
    for s in ["d8da6bf26964af9d7eed9e03e53415d37aa96045", ACCOUNT_ONE, "0000000000000000000000000000000000000000"] {
        let a = hex20(s);
        assert_eq!(eth_address_string(&a).to_lowercase(), format!("0x{}", s));
    }
}

#[test]
fn key_one_has_the_expected_account() {
    let key = key_one();
    assert_eq!(SecretKeyRef::new(&key).address().0, hex20(ACCOUNT_ONE));
}

#[test]
fn a_listed_signer_is_authorized() {
    let task = "{\"nodes\":{}}".to_string();
    let req = GenerateRequest { signature: sign(&key_one(), &task), task, process_id: "a:b:c".to_string() };
    let signer = authorized_signer(&apps_listing(hex20(ACCOUNT_ONE)), &req).unwrap();
    assert_eq!(signer, hex20(ACCOUNT_ONE));
}

#[test]
fn whitelists_compares_account_bytes() {
    let apps = apps_listing(hex20(ACCOUNT_ONE));
    assert!(has_whitelist(&apps));
    assert!(whitelists(&apps, &hex20(ACCOUNT_ONE)));
    assert!(!whitelists(&apps, &[1; 20]));
    assert!(!has_whitelist(&StringMap::new()));
    assert!(!whitelists(&StringMap::new(), &hex20(ACCOUNT_ONE)));
}

#[test]
fn signature_fits_asks_for_65_bytes_where_accounts_are_listed() {
    let apps = apps_listing([1; 20]);
    let req = |sig: &str| GenerateRequest { signature: sig.to_string(), task: "{}".to_string(), process_id: "a:b:c".to_string() };
    assert!(!signature_fits(&apps, &req("00")));
    assert!(signature_fits(&apps, &req("zz")));
    assert!(signature_fits(&apps, &req(&"00".repeat(65))));
    assert!(signature_fits(&StringMap::new(), &req("00")));
}

#[test]
fn an_unlisted_signer_is_turned_down() {
    let task = "{}".to_string();
    let req = GenerateRequest { signature: sign(&key_one(), &task), task, process_id: "a:b:c".to_string() };
    let res = authorized_signer(&apps_listing(hex20("d8da6bf26964af9d7eed9e03e53415d37aa96045")), &req);
    assert_eq!(res, Err(GenerateError::NotWhitelisted));
}

#[test]
fn no_listed_account_turns_every_request_down() {
    let req = GenerateRequest { signature: "not hex".to_string(), task: "{}".to_string(), process_id: "a:b:c".to_string() };
    assert_eq!(authorized_signer(&StringMap::new(), &req), Err(GenerateError::NotWhitelisted));
}

#[test]
fn a_signature_that_is_not_hex_is_turned_down() {
    let req = GenerateRequest { signature: "zz".to_string(), task: "{}".to_string(), process_id: "a:b:c".to_string() };
    let res = authorized_signer(&apps_listing([1; 20]), &req);
    assert_eq!(res, Err(GenerateError::InvalidSignatureHex));
    let odd = GenerateRequest { signature: "abc".to_string(), task: "{}".to_string(), process_id: "a:b:c".to_string() };
    assert_eq!(authorized_signer(&apps_listing([1; 20]), &odd), Err(GenerateError::InvalidSignatureHex));
}

#[test]
fn a_signature_with_a_bad_recovery_id_is_turned_down() {
    let task = "{}".to_string();
    let mut sig = sign(&key_one(), &task);
    sig.truncate(128);
    sig.push_str("00");
    let req = GenerateRequest { signature: sig, task, process_id: "a:b:c".to_string() };
    assert_eq!(authorized_signer(&apps_listing([1; 20]), &req), Err(GenerateError::SignatureNotRecovered));
}

#[test]
fn a_signed_request_is_queued_for_its_signer() {
    let mut s = State::default();
    s.on_chain_state.set_apps(vec![ApplicationRecord {
        name: "memedeck".to_string(),
        governance_token: [0; 20],
        usage_token: [0; 20],
        whitelist: vec![[9; 20], hex20(ACCOUNT_ONE)],
    }]);
    let task = "{\"prompt\":\"a cat\"}".to_string();
    let req = GenerateRequest { signature: sign(&key_one(), &task), task: task.clone(), process_id: "diffusion:ai_provider:meme-deck.os".to_string() };
    let (response, sent) = handle_generate_request(&mut s, &our(), &req).unwrap().unwrap();
    assert!(sent.is_empty());
    let id = match response {
        UserResponses::TaskRequested { task_id, .. } => task_id,
        _ => panic!("expected TaskRequested"),
    };
    let (_, source, p) = s.task_queue.get(&id).unwrap();
    assert_eq!(source.node, "broker-1.os");
    assert_eq!(p.from_user, ACCOUNT_ONE_CHECKSUM);
    assert_eq!(p.task_parameters, task);
}

#[test]
fn a_signed_request_with_a_short_process_id_yields_nothing() {
    let mut s = State::default();
    s.on_chain_state.set_apps(vec![ApplicationRecord {
        name: "memedeck".to_string(),
        governance_token: [0; 20],
        usage_token: [0; 20],
        whitelist: vec![hex20(ACCOUNT_ONE)],
    }]);
    let task = "{}".to_string();
    let req = GenerateRequest { signature: sign(&key_one(), &task), task, process_id: "diffusion".to_string() };
    assert!(handle_generate_request(&mut s, &our(), &req).is_none());
    assert_eq!(s.task_queue.len(), 0);
}

#[test]
fn a_turned_down_request_leaves_the_state_alone() {
    let mut s = State::default();
    let req = GenerateRequest { signature: "00".to_string(), task: "{}".to_string(), process_id: "a:b:c".to_string() };
    assert_eq!(handle_generate_request(&mut s, &our(), &req).unwrap().err(), Some(GenerateError::NotWhitelisted));
    assert_eq!(s.task_queue.len(), 0);
}

#[test]
fn only_post_to_generate_image_generates() {
    assert!(is_generate_image_request("POST", "/generate_image"));
    assert!(!is_generate_image_request("GET", "/generate_image"));
    assert!(!is_generate_image_request("POST", "/generate_images"));
}
