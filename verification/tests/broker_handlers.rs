use ai_provider::broker::admin::{handle_admin_request, AdminAction};
use ai_provider::broker::chain::Worker;
use ai_provider::broker::types::{AdminRequest, State, UserRequests, UserResponses, WorkerResponses};
use ai_provider::broker::user::{handle_user_request, request_task};
use ai_provider::broker::worker::{
    assign_tasks_to_waiting_workers, handle_worker_request, send_task_to_worker, TaskAssignment,
    WorkerRequestOutcome,
};
use ai_provider::shared::{Address, ProcessId, TaskParameters, TaskStatus, WorkerToBrokerRequests};

fn pid(a: &str, b: &str, c: &str) -> ProcessId {
    ProcessId { process_name: a.to_string(), package_name: b.to_string(), publisher_node: c.to_string() }
}

fn addr(node: &str) -> Address {
    Address::new(node.to_string(), pid("worker", "ai_provider", "meme-deck.os"))
}

fn our() -> Address {
    Address::new("broker-1.os".to_string(), pid("broker", "ai_provider", "meme-deck.os"))
}

fn params(id: &str) -> TaskParameters {
    TaskParameters {
        process_id: pid("diffusion", "ai_provider", "meme-deck.os"),
        task_id: id.to_string(),
        from_broker: "b".to_string(),
        from_user: "u".to_string(),
        task_parameters: "{}".to_string(),
    }
}

fn assigned(a: &TaskAssignment) -> (String, String, String, TaskStatus) {
    match &a.request {
        WorkerResponses::TaskAssigned { worker_id, process_id, task } => {
            (worker_id.clone(), process_id.clone(), task.task_id.clone(), task.status)
        }
        _ => panic!("not an assignment"),
    }
}

#[test]
fn send_task_to_worker_builds_the_assignment() {
    let task = ("t9".to_string(), addr("src"), params("t9"));
    let a = send_task_to_worker(&task, "worker-7.os".to_string());
    assert_eq!(a.worker.to_string(), "worker-7.os@worker:ai_provider:meme-deck.os");
    let (w, p, t, st) = assigned(&a);
    assert_eq!(w, "worker-7.os");
    assert_eq!(p, "diffusion:ai_provider:meme-deck.os");
    assert_eq!(t, "t9");
    assert_eq!(st, TaskStatus::Claimed);
}

#[test]
fn assigning_with_nobody_waiting_changes_nothing() {
    let mut s = State::default();
    s.add_task("t".to_string(), addr("a"), params("t"));
    let sent = assign_tasks_to_waiting_workers(&mut s);
    assert!(sent.is_empty());
    assert_eq!(s.task_queue.len(), 1);
}

#[test]
fn assigning_with_no_task_changes_nothing() {
    let mut s = State::default();
    s.add_waiting_worker(&addr("w"));
    let sent = assign_tasks_to_waiting_workers(&mut s);
    assert!(sent.is_empty());
    assert_eq!(s.waiting_workers.len(), 1);
}

#[test]
fn assigning_serves_waiting_workers_in_order() {
    let mut s = State::default();
    s.add_waiting_worker(&addr("w1"));
    s.add_waiting_worker(&addr("w2"));
    s.add_waiting_worker(&addr("w3"));
    s.add_task("t1".to_string(), addr("a"), params("t1"));
    s.add_task("t2".to_string(), addr("a"), params("t2"));
    let sent = assign_tasks_to_waiting_workers(&mut s);
    assert_eq!(sent.len(), 2);
    assert_eq!(assigned(&sent[0]).0, "w1");
    assert_eq!(assigned(&sent[1]).0, "w2");
    assert_eq!(assigned(&sent[0]).2, "t1");
    assert_eq!(assigned(&sent[1]).2, "t2");
    assert_eq!(s.task_queue.len(), 0);
    assert_eq!(s.waiting_workers.len(), 1);
    assert_eq!(s.waiting_workers[0].node, "w3");
}

#[test]
fn assigning_drops_tasks_beyond_the_waiting_workers() {
    let mut s = State::default();
    s.add_waiting_worker(&addr("w1"));
    for id in ["t1", "t2", "t3"] {
        s.add_task(id.to_string(), addr("a"), params(id));
    }
    let sent = assign_tasks_to_waiting_workers(&mut s);
    assert_eq!(sent.len(), 1);
    assert_eq!(s.task_queue.len(), 0);
    assert_eq!(s.waiting_workers.len(), 0);
}

#[test]
fn claim_with_empty_queue_makes_the_worker_wait_once() {
    let mut s = State::default();
    let w = addr("w1");
    let first = handle_worker_request(&mut s, &w, WorkerToBrokerRequests::ClaimNextTask);
    assert!(matches!(first, WorkerRequestOutcome::Done));
    let second = handle_worker_request(&mut s, &w, WorkerToBrokerRequests::ClaimNextTask);
    assert!(matches!(second, WorkerRequestOutcome::AlreadyWaiting));
    assert_eq!(s.waiting_workers.len(), 1);
}

#[test]
fn claim_hands_the_task_to_every_listed_worker_and_records_it() {
    let mut s = State::default();
    s.on_chain_state.set_workers(
        &"diffusion:ai_provider:meme-deck.os".to_string(),
        vec![
            Worker { worker_kns_id: "k1.os".to_string(), worker_address: [1; 20] },
            Worker { worker_kns_id: "k2.os".to_string(), worker_address: [2; 20] },
        ],
    );
    s.add_task("t".to_string(), addr("src"), params("t"));
    let claimer = addr("claimer");
    let outcome = handle_worker_request(&mut s, &claimer, WorkerToBrokerRequests::ClaimNextTask);
    match outcome {
        WorkerRequestOutcome::Assigned { assignments } => {
            assert_eq!(assignments.len(), 2);
            assert_eq!(assigned(&assignments[0]).0, "k1.os");
            assert_eq!(assigned(&assignments[1]).0, "k2.os");
            assert_eq!(assignments[1].worker.to_string(), "k2.os@worker:ai_provider:meme-deck.os");
        }
        _ => panic!("expected assignments"),
    }
    assert_eq!(s.task_queue.len(), 0);
    let (who, task) = s.ongoing_tasks.get(&"t".to_string()).unwrap();
    assert_eq!(who.node, "claimer");
    assert_eq!(task.status, TaskStatus::Claimed);
}

#[test]
fn claim_for_a_process_with_no_listed_workers_sends_nothing() {
    let mut s = State::default();
    s.add_task("t".to_string(), addr("src"), params("t"));
    let outcome = handle_worker_request(&mut s, &addr("c"), WorkerToBrokerRequests::ClaimNextTask);
    match outcome {
        WorkerRequestOutcome::Assigned { assignments } => assert!(assignments.is_empty()),
        _ => panic!("expected an empty assignment"),
    }
    assert!(s.ongoing_tasks.contains_key(&"t".to_string()));
}

#[test]
fn task_started_then_complete() {
    let mut s = State::default();
    s.add_task("t".to_string(), addr("src"), params("t"));
    let _ = handle_worker_request(&mut s, &addr("c"), WorkerToBrokerRequests::ClaimNextTask);
    let started = WorkerToBrokerRequests::TaskStarted { process_id: "p".to_string(), task_id: "t".to_string() };
    assert!(matches!(handle_worker_request(&mut s, &addr("c"), started), WorkerRequestOutcome::Done));
    assert_eq!(s.ongoing_tasks.get(&"t".to_string()).unwrap().1.status, TaskStatus::Running);
    let unknown = WorkerToBrokerRequests::TaskStarted { process_id: "p".to_string(), task_id: "x".to_string() };
    let _ = handle_worker_request(&mut s, &addr("c"), unknown);
    assert_eq!(s.ongoing_tasks.len(), 1);
    let done = WorkerToBrokerRequests::TaskComplete { process_id: "p".to_string(), task_id: "t".to_string() };
    assert!(matches!(handle_worker_request(&mut s, &addr("c"), done), WorkerRequestOutcome::Done));
    assert_eq!(s.ongoing_tasks.len(), 0);
    assert_eq!(s.waiting_workers.len(), 1);
    assert_eq!(s.waiting_workers[0].node, "c");
}

#[test]
fn a_worker_that_completes_waits_only_once() {
    let mut s = State::default();
    s.add_waiting_worker(&addr("c"));
    let done = WorkerToBrokerRequests::TaskComplete { process_id: "p".to_string(), task_id: "x".to_string() };
    let _ = handle_worker_request(&mut s, &addr("c"), done);
    assert_eq!(s.waiting_workers.len(), 1);
}

#[test]
fn a_worker_that_completes_waits_beside_queued_tasks() {
    let mut s = State::default();
    s.add_task("t1".to_string(), addr("src"), params("t1"));
    let _ = handle_worker_request(&mut s, &addr("c"), WorkerToBrokerRequests::ClaimNextTask);
    s.add_task("t2".to_string(), addr("src"), params("t2"));
    let done = WorkerToBrokerRequests::TaskComplete { process_id: "p".to_string(), task_id: "t1".to_string() };
    assert!(matches!(handle_worker_request(&mut s, &addr("c"), done), WorkerRequestOutcome::Done));
    assert!(!s.ongoing_tasks.contains_key(&"t1".to_string()));
    assert_eq!(s.task_queue.len(), 1);
    assert!(s.task_queue.contains_key(&"t2".to_string()));
    assert_eq!(s.waiting_workers.len(), 1);
    assert_eq!(s.waiting_workers[0].node, "c");
}

#[test]
fn no_task_and_worker_wait_together_after_messages() {
    let mut s = State::default();
    let settled = |s: &State| s.task_queue.len() == 0 || s.waiting_workers.len() == 0;
    let _ = handle_worker_request(&mut s, &addr("w1"), WorkerToBrokerRequests::ClaimNextTask);
    assert!(settled(&s));
    let req = UserRequests::RequestTask {
        process_id: "diffusion:ai_provider:meme-deck.os".to_string(),
        task_parameters: "{}".to_string(),
    };
    let _ = handle_user_request(&mut s, &our(), &"user.os".to_string(), req);
    assert!(settled(&s));
    assert_eq!(s.waiting_workers.len(), 0);
    let req2 = UserRequests::RequestTask {
        process_id: "diffusion:ai_provider:meme-deck.os".to_string(),
        task_parameters: "{}".to_string(),
    };
    let _ = handle_user_request(&mut s, &our(), &"user.os".to_string(), req2);
    assert!(settled(&s));
    assert_eq!(s.task_queue.len(), 1);
    let started = WorkerToBrokerRequests::TaskStarted { process_id: "p".to_string(), task_id: "none".to_string() };
    let _ = handle_worker_request(&mut s, &addr("w2"), started);
    assert!(settled(&s));
    let _ = handle_worker_request(&mut s, &addr("w2"), WorkerToBrokerRequests::ClaimNextTask);
    assert!(settled(&s));
    assert_eq!(s.task_queue.len(), 0);
}

#[test]
fn user_request_queues_a_task_with_a_fresh_id() {
    let mut s = State::default();
    let req = UserRequests::RequestTask {
        process_id: "diffusion:ai_provider:meme-deck.os".to_string(),
        task_parameters: "{\"workflow\":\"basic\"}".to_string(),
    };
    let (response, sent) = handle_user_request(&mut s, &our(), &"user.os".to_string(), req);
    assert!(sent.is_empty());
    let id = match response {
        UserResponses::TaskRequested { process_id, task_id } => {
            assert_eq!(process_id.to_string(), "diffusion:ai_provider:meme-deck.os");
            task_id
        }
        _ => panic!("expected TaskRequested"),
    };
    assert_eq!(id.len(), 36);
    assert_eq!(id.chars().nth(14), Some('4'));
    for (i, c) in id.chars().enumerate() {
        if [8, 13, 18, 23].contains(&i) {
            assert_eq!(c, '-');
        } else {
            assert!(c.is_ascii_hexdigit() && !c.is_ascii_uppercase());
        }
    }
    let (ts, source, p) = s.task_queue.get(&id).unwrap();
    assert_eq!(*ts, 0);
    assert_eq!(source.to_string(), "broker-1.os@broker:ai_provider:meme-deck.os");
    assert_eq!(p.from_broker, "broker-1.os@broker:ai_provider:meme-deck.os");
    assert_eq!(p.from_user, "user.os");
    assert_eq!(p.task_id, id);
    assert_eq!(p.task_parameters, "{\"workflow\":\"basic\"}");
}

#[test]
fn two_user_requests_get_different_ids() {
    let mut s = State::default();
    let mk = || UserRequests::RequestTask { process_id: "a:b:c".to_string(), task_parameters: "{}".to_string() };
    let _ = handle_user_request(&mut s, &our(), &"u".to_string(), mk());
    let _ = handle_user_request(&mut s, &our(), &"u".to_string(), mk());
    assert_eq!(s.task_queue.len(), 2);
}

#[test]
fn user_request_goes_to_a_waiting_worker() {
    let mut s = State::default();
    s.add_waiting_worker(&addr("w1"));
    let (_, sent) = request_task(&mut s, &our(), "u".to_string(), &"a:b:c".to_string(), "{}".to_string(), "fixed-id".to_string());
    assert_eq!(sent.len(), 1);
    let (w, p, t, _) = assigned(&sent[0]);
    assert_eq!((w.as_str(), p.as_str(), t.as_str()), ("w1", "a:b:c", "fixed-id"));
    assert_eq!(s.task_queue.len(), 0);
    assert_eq!(s.waiting_workers.len(), 0);
}

#[test]
fn user_cancel_drops_the_queued_task() {
    let mut s = State::default();
    let _ = request_task(&mut s, &our(), "u".to_string(), &"a:b:c".to_string(), "{}".to_string(), "id1".to_string());
    let req = UserRequests::CancelTask { process_id: ProcessId { process_name: "a".into(), package_name: "b".into(), publisher_node: "c".into() }, task_id: "id1".to_string() };
    let (response, sent) = handle_user_request(&mut s, &our(), &"u".to_string(), req);
    assert!(sent.is_empty());
    assert!(matches!(response, UserResponses::TaskCancelled { ref task_id, .. } if task_id == "id1"));
    assert_eq!(s.task_queue.len(), 0);
}

#[test]
fn admin_requests_map_to_actions() {
    match handle_admin_request(&our(), AdminRequest::SyncChainState) {
        AdminAction::SyncChainState { process_id } => assert_eq!(process_id, "diffusion:ai_provider:meme-deck.os"),
        _ => panic!("expected a sync"),
    }
    match handle_admin_request(&our(), AdminRequest::RegisterBroker { process_id: "p:q:r".to_string() }) {
        AdminAction::RegisterBroker { broker_kns_id, process_id } => {
            assert_eq!(broker_kns_id, "broker-1.os@broker:ai_provider:meme-deck.os");
            assert_eq!(process_id, "p:q:r");
        }
        _ => panic!("expected a registration"),
    }
    assert!(matches!(handle_admin_request(&our(), AdminRequest::GetState), AdminAction::ShowState));
    assert!(matches!(handle_admin_request(&our(), AdminRequest::SetIsReady { is_ready: true }), AdminAction::Log));
}
