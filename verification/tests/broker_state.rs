use ai_provider::broker::chain::{ApplicationRecord, Broker, ProcessRecord, Worker};
use ai_provider::broker::types::{OnChainState, State};
use ai_provider::broker::admin::{current_process, synced_chain_state};
use ai_provider::shared::{Address, ProcessId, Task, TaskParameters, TaskStatus};

fn pid(a: &str, b: &str, c: &str) -> ProcessId {
    ProcessId { process_name: a.to_string(), package_name: b.to_string(), publisher_node: c.to_string() }
}

fn addr(node: &str) -> Address {
    Address::new(node.to_string(), pid("worker", "ai_provider", "meme-deck.os"))
}

fn params(id: &str) -> TaskParameters {
    TaskParameters {
        process_id: pid("diffusion", "ai_provider", "meme-deck.os"),
        task_id: id.to_string(),
        from_broker: "b.os@broker:ai_provider:meme-deck.os".to_string(),
        from_user: "user.os".to_string(),
        task_parameters: "{\"workflow\":\"basic\"}".to_string(),
    }
}

fn app(name: &str, token: u8) -> ApplicationRecord {
    ApplicationRecord { name: name.to_string(), governance_token: [token; 20], usage_token: [0; 20], whitelist: vec![[token; 20]] }
}

#[test]
fn default_state_is_empty() {
    let s = State::default();
    assert_eq!(s.task_queue.len(), 0);
    assert_eq!(s.waiting_workers.len(), 0);
    assert_eq!(s.ongoing_tasks.len(), 0);
    let c = &s.on_chain_state;
    assert_eq!(c.queue_response_timeout_seconds, 10);
    assert_eq!(c.serve_timeout_seconds, 10);
    assert_eq!(c.max_outstanding_payments, 10);
    assert_eq!(c.payment_period_hours, 1);
    assert!(c.apps.is_empty() && c.processes.is_empty() && c.brokers.is_empty() && c.workers.is_empty());
}

#[test]
fn tasks_are_stamped_with_the_queue_length() {
    let mut s = State::default();
    s.add_task("t1".to_string(), addr("a"), params("t1"));
    s.add_task("t2".to_string(), addr("b"), params("t2"));
    assert_eq!(s.task_queue.get(&"t1".to_string()).unwrap().0, 0);
    assert_eq!(s.task_queue.get(&"t2".to_string()).unwrap().0, 1);
    assert_eq!(s.task_queue.len(), 2);
}

#[test]
fn adding_a_queued_task_id_again_changes_nothing() {
    let mut s = State::default();
    s.add_task("t1".to_string(), addr("first"), params("t1"));
    s.add_task("t1".to_string(), addr("second"), params("other"));
    assert_eq!(s.task_queue.len(), 1);
    let entry = s.task_queue.get(&"t1".to_string()).unwrap();
    assert_eq!(entry.1.node, "first");
    assert_eq!(entry.2.task_id, "t1");
}

#[test]
fn cancelling_a_new_task_undoes_adding_it() {
    let mut s = State::default();
    s.add_task("keep".to_string(), addr("a"), params("keep"));
    s.add_task("t".to_string(), addr("a"), params("t"));
    s.remove_task(&"t".to_string());
    assert_eq!(s.task_queue.len(), 1);
    assert!(s.task_queue.contains_key(&"keep".to_string()));
    assert!(!s.task_queue.contains_key(&"t".to_string()));
    s.remove_task(&"absent".to_string());
    assert_eq!(s.task_queue.len(), 1);
}

#[test]
fn tasks_are_fetched_in_the_order_queued() {
    let mut s = State::default();
    s.add_task("t1".to_string(), addr("a"), params("t1"));
    s.add_task("t2".to_string(), addr("b"), params("t2"));
    let (id1, src1, p1) = s.fetch_task().unwrap();
    assert_eq!(id1, "t1");
    assert_eq!(p1.task_id, id1);
    assert_eq!(src1.node, "a");
    let (id2, src2, _) = s.fetch_task().unwrap();
    assert_eq!(id2, "t2");
    assert_eq!(src2.node, "b");
    assert!(s.fetch_task().is_none());
    assert_eq!(s.task_queue.len(), 0);
}

#[test]
fn waiting_twice_is_waiting_once() {
    let mut s = State::default();
    s.add_waiting_worker(&addr("w1"));
    s.add_waiting_worker(&addr("w1"));
    assert_eq!(s.waiting_workers.len(), 1);
    assert!(s.is_waiting(&addr("w1")));
    assert!(!s.is_waiting(&addr("w2")));
}

#[test]
fn waiting_workers_leave_first_come_first_served() {
    let mut s = State::default();
    s.add_waiting_worker(&addr("w1"));
    s.add_waiting_worker(&addr("w2"));
    s.add_waiting_worker(&addr("w1"));
    s.add_waiting_worker(&addr("w3"));
    assert_eq!(s.remove_waiting_worker().unwrap().node, "w1");
    assert_eq!(s.remove_waiting_worker().unwrap().node, "w2");
    assert_eq!(s.remove_waiting_worker().unwrap().node, "w3");
    assert!(s.remove_waiting_worker().is_none());
}

#[test]
fn a_worker_that_left_may_wait_again() {
    let mut s = State::default();
    s.add_waiting_worker(&addr("w1"));
    let w = s.remove_waiting_worker().unwrap();
    s.add_waiting_worker(&w);
    assert_eq!(s.waiting_workers.len(), 1);
}

#[test]
fn completing_a_started_task_removes_it() {
    let mut s = State::default();
    let task = Task { task_id: "t".to_string(), status: TaskStatus::Claimed, parameters: params("t") };
    s.start_task(task, addr("w"));
    assert!(s.ongoing_tasks.contains_key(&"t".to_string()));
    let entry = s.ongoing_tasks.remove(&"t".to_string()).unwrap();
    assert_eq!(entry.0.node, "w");
    assert_eq!(entry.1.status, TaskStatus::Claimed);
    assert!(!s.ongoing_tasks.contains_key(&"t".to_string()));
}

#[test]
fn set_apps_keeps_the_last_record_of_each_name() {
    let mut c = OnChainState::default();
    c.set_apps(vec![app("a", 1), app("b", 2), app("a", 3)]);
    assert_eq!(c.apps.len(), 2);
    assert_eq!(c.apps.get(&"a".to_string()).unwrap().governance_token, [3; 20]);
    assert_eq!(c.apps.get(&"b".to_string()).unwrap().governance_token, [2; 20]);
    c.set_apps(vec![]);
    assert!(c.apps.is_empty());
}

#[test]
fn set_processes_keys_by_name() {
    let mut c = OnChainState::default();
    c.set_processes(vec![
        ProcessRecord { name: "p".to_string(), repo_url: "one".to_string() },
        ProcessRecord { name: "q".to_string(), repo_url: "two".to_string() },
        ProcessRecord { name: "p".to_string(), repo_url: "three".to_string() },
    ]);
    assert_eq!(c.processes.len(), 2);
    assert_eq!(c.processes.get(&"p".to_string()).unwrap().repo_url, "three");
}

#[test]
fn brokers_and_workers_are_set_per_process() {
    let mut c = OnChainState::default();
    let p = "diffusion:ai_provider:meme-deck.os".to_string();
    c.set_brokers(&p, vec![Broker { broker_kns_id: "b".to_string(), broker_address: [1; 20], reachable_url: "u".to_string() }]);
    c.set_workers(&p, vec![Worker { worker_kns_id: "w".to_string(), worker_address: [2; 20] }]);
    c.set_workers(&p, vec![]);
    assert_eq!(c.brokers.get(&p).unwrap().len(), 1);
    assert_eq!(c.workers.get(&p).unwrap().len(), 0);
    assert!(c.workers.get(&"other".to_string()).is_none());
}

#[test]
fn chain_sync_keeps_only_the_current_process() {
    let mut s = State::default();
    s.add_task("t".to_string(), addr("a"), params("t"));
    let mut old = OnChainState::default();
    old.set_workers(&"old:process:x".to_string(), vec![]);
    s.set_chain_state(old);
    let process = current_process();
    assert_eq!(process, "diffusion:ai_provider:meme-deck.os");
    s.sync_chain_state(
        process.clone(),
        vec![app("a", 1)],
        vec![ProcessRecord { name: "p".to_string(), repo_url: "r".to_string() }],
        vec![],
        vec![Worker { worker_kns_id: "w".to_string(), worker_address: [2; 20] }],
    );
    assert_eq!(s.task_queue.len(), 1);
    let c = &s.on_chain_state;
    assert_eq!(c.workers.len(), 1);
    assert_eq!(c.workers.get(&process).unwrap()[0].worker_kns_id, "w");
    assert_eq!(c.brokers.get(&process).unwrap().len(), 0);
    assert_eq!(c.apps.len(), 1);
    assert_eq!(c.processes.len(), 1);
    let fresh = synced_chain_state("x".to_string(), vec![], vec![], vec![], vec![]);
    assert_eq!(fresh.payment_period_hours, 1);
    assert_eq!(fresh.serve_timeout_seconds, 10);
}
