use ai_provider::broker::types::string_to_process_id;
use ai_provider::shared::{Address, ProcessId, TaskParameters};
use ai_provider::text::decimal_string;

fn pid(a: &str, b: &str, c: &str) -> ProcessId {
    ProcessId { process_name: a.to_string(), package_name: b.to_string(), publisher_node: c.to_string() }
}

#[test]
fn process_id_is_read_from_its_three_parts() {
    let p = string_to_process_id("diffusion:ai_provider:meme-deck.os");
    assert_eq!(p.process_name, "diffusion");
    assert_eq!(p.package_name, "ai_provider");
    assert_eq!(p.publisher_node, "meme-deck.os");
}

#[test]
fn process_id_ignores_what_follows_a_third_colon() {
    let p = string_to_process_id("a:b:c:d:e");
    assert_eq!(p.process_name, "a");
    assert_eq!(p.package_name, "b");
    assert_eq!(p.publisher_node, "c");
}

#[test]
fn process_id_keeps_empty_parts() {
    let p = string_to_process_id("::x");
    assert_eq!(p.process_name, "");
    assert_eq!(p.package_name, "");
    assert_eq!(p.publisher_node, "x");
}

#[test]
fn process_id_text_round_trip() {
    let text = "worker:ai_provider:meme-deck.os";
    assert_eq!(string_to_process_id(text).to_string(), text);
    let p = pid("broker", "ai_provider", "node.os");
    let back = string_to_process_id(&p.to_string());
    assert!(back == p);
}

#[test]
fn address_is_written_node_at_process() {
    let a = Address::new("memedeck-broker-1.os".to_string(), pid("broker", "ai_provider", "meme-deck.os"));
    assert_eq!(a.to_string(), "memedeck-broker-1.os@broker:ai_provider:meme-deck.os");
}

#[test]
fn addresses_compare_by_every_part() {
    let a = Address::new("n".to_string(), pid("x", "y", "z"));
    let b = Address::new("n".to_string(), pid("x", "y", "z"));
    let c = Address::new("n".to_string(), pid("x", "y", "w"));
    assert!(a == b);
    assert!(!(a == c));
}

#[test]
fn decimal_strings_match_format() {
    for n in [0u64, 7, 9, 10, 42, 1234, 1_000_000, u64::MAX] {
        assert_eq!(decimal_string(n), format!("{}", n));
    }
}

#[test]
fn test_task_parameters_are_fixed() {
    let t = TaskParameters::test_task_parameters();
    assert_eq!(t.process_id.to_string(), "diffusion:ai_provider:meme-deck.os");
    assert_eq!(t.task_id, "123");
    assert_eq!(t.from_broker, "memedeck-broker-1.dev");
    assert_eq!(t.from_user, "memedeck-client-1.dev");
    assert_eq!(t.task_parameters, "{\"nodes\":{}}");
}
