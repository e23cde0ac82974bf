use vstd::prelude::*;
use vstd::string::*;

use crate::text::{is_first_colon, lemma_no_colon, lemma_split_nonempty, lemma_split_step, split_colons};

verus! {

/// The name of a process: `process_name:package_name:publisher_node`.
pub struct ProcessId {
    pub process_name: String,
    pub package_name: String,
    pub publisher_node: String,
}

impl View for ProcessId {
    type V = (Seq<char>, Seq<char>, Seq<char>);

    open spec fn view(&self) -> Self::V {
        (self.process_name@, self.package_name@, self.publisher_node@)
    }
}

impl Clone for ProcessId {
    fn clone(&self) -> (res: Self)
        ensures
            res == *self,
    {
        ProcessId {
            process_name: self.process_name.clone(),
            package_name: self.package_name.clone(),
            publisher_node: self.publisher_node.clone(),
        }
    }
}

impl PartialEq for ProcessId {
    fn eq(&self, other: &Self) -> (res: bool) {
        self.process_name == other.process_name && self.package_name == other.package_name
            && self.publisher_node == other.publisher_node
    }
}

impl vstd::std_specs::cmp::PartialEqSpecImpl for ProcessId {
    open spec fn obeys_eq_spec() -> bool {
        true
    }

    open spec fn eq_spec(&self, other: &ProcessId) -> bool {
        self@ == other@
    }
}


/// The text form of a process id: its three parts joined by `:`.
pub open spec fn process_id_text(p: (Seq<char>, Seq<char>, Seq<char>)) -> Seq<char> {
    p.0 + seq![':'] + p.1 + seq![':'] + p.2
}

/// Reading a process id back from its text gives its parts, where no part holds a `:`.
pub proof fn lemma_process_id_text_splits(p: (Seq<char>, Seq<char>, Seq<char>))
    requires
        !p.0.contains(':'),
        !p.1.contains(':'),
        !p.2.contains(':'),
    ensures
        split_colons(process_id_text(p)) == seq![p.0, p.1, p.2],
{
    let t = process_id_text(p);
    let a = p.0.len() as int;
    assert forall|j: int| 0 <= j < a implies t[j] != ':' by {
        assert(t[j] == p.0[j]);
    }
    lemma_split_step(t, a);
    assert(t.take(a) =~= p.0);
    let t1 = t.skip(a + 1);
    assert(t1 =~= p.1 + seq![':'] + p.2);
    let b = p.1.len() as int;
    assert forall|j: int| 0 <= j < b implies t1[j] != ':' by {
        assert(t1[j] == p.1[j]);
    }
    lemma_split_step(t1, b);
    assert(t1.take(b) =~= p.1);
    let t2 = t1.skip(b + 1);
    assert(t2 =~= p.2);
    lemma_split_step(t2, p.2.len() as int);
    assert(split_colons(t) =~= seq![p.0, p.1, p.2]);
}

/// Writing out a process id read from text with exactly three parts gives the text back.
pub proof fn lemma_process_id_text_round_trip(s: Seq<char>)
    requires
        split_colons(s).len() == 3,
    ensures
        process_id_text((split_colons(s)[0], split_colons(s)[1], split_colons(s)[2])) == s,
{
    if !exists|i: int| is_first_colon(s, i) {
        lemma_no_colon(s);
        lemma_split_step(s, s.len() as int);
    } else {
        let i1 = choose|i: int| is_first_colon(s, i);
        lemma_split_step(s, i1);
        let t = s.skip(i1 + 1);
        if !exists|i: int| is_first_colon(t, i) {
            lemma_no_colon(t);
            lemma_split_step(t, t.len() as int);
        } else {
            let i2 = choose|i: int| is_first_colon(t, i);
            lemma_split_step(t, i2);
            let u = t.skip(i2 + 1);
            if exists|i: int| is_first_colon(u, i) {
                let i3 = choose|i: int| is_first_colon(u, i);
                lemma_split_step(u, i3);
                lemma_split_nonempty(u.skip(i3 + 1));
            } else {
                lemma_no_colon(u);
                lemma_split_step(u, u.len() as int);
                assert(process_id_text((s.take(i1), t.take(i2), u)) =~= s);
            }
        }
    }
}

impl ProcessId {
    /// The id as text, `process_name:package_name:publisher_node`.
    pub fn to_string(&self) -> (res: String)
        ensures
            res@ == process_id_text(self@),
    {
        let res = self.process_name.clone();
        let res = res.concat(":");
        let res = res.concat(self.package_name.as_str());
        let res = res.concat(":");
        let res = res.concat(self.publisher_node.as_str());
        proof {
            reveal_strlit(":");
        }
        res
    }
}


/// The address of a process on a node: `node@process_id`.
pub struct Address {
    pub node: String,
    pub process: ProcessId,
}

impl View for Address {
    type V = (Seq<char>, (Seq<char>, Seq<char>, Seq<char>));

    open spec fn view(&self) -> Self::V {
        (self.node@, self.process@)
    }
}

impl Clone for Address {
    fn clone(&self) -> (res: Self)
        ensures
            res == *self,
    {
        Address { node: self.node.clone(), process: self.process.clone() }
    }
}

impl PartialEq for Address {
    fn eq(&self, other: &Self) -> (res: bool) {
        self.node == other.node && self.process == other.process
    }
}

impl vstd::std_specs::cmp::PartialEqSpecImpl for Address {
    open spec fn obeys_eq_spec() -> bool {
        true
    }

    open spec fn eq_spec(&self, other: &Address) -> bool {
        self@ == other@
    }
}

/// The text form of an address: `node@process_id`.
pub open spec fn address_text(a: (Seq<char>, (Seq<char>, Seq<char>, Seq<char>))) -> Seq<char> {
    a.0 + seq!['@'] + process_id_text(a.1)
}

impl Address {
    /// The address of `process` on `node`.
    pub fn new(node: String, process: ProcessId) -> (res: Address)
        ensures
            res.node == node,
            res.process == process,
    {
        Address { node, process }
    }

    /// The address as text, `node@process_name:package_name:publisher_node`.
    pub fn to_string(&self) -> (res: String)
        ensures
            res@ == address_text(self@),
    {
        let res = self.node.clone();
        let res = res.concat("@");
        let p = self.process.to_string();
        let res = res.concat(p.as_str());
        proof {
            reveal_strlit("@");
            assert(res@ =~= address_text(self@));
        }
        res
    }
}

/// Where a task stands.
#[derive(Clone, Copy, Debug, PartialEq, Eq, Structural)]
pub enum TaskStatus {
    Claimed,
    Pending,
    Running,
    Completed,
    Failed,
}

/// What a user asked for: the process that runs the task, its id, the broker and user it
/// came through, and its parameters as JSON text.
pub struct TaskParameters {
    pub process_id: ProcessId,
    pub task_id: String,
    pub from_broker: String,
    pub from_user: String,
    pub task_parameters: String,
}

impl Clone for TaskParameters {
    fn clone(&self) -> (res: Self)
        ensures
            res == *self,
    {
        TaskParameters {
            process_id: self.process_id.clone(),
            task_id: self.task_id.clone(),
            from_broker: self.from_broker.clone(),
            from_user: self.from_user.clone(),
            task_parameters: self.task_parameters.clone(),
        }
    }
}

impl TaskParameters {
    /// A fixed set of parameters for a diffusion task, for trying the system out.
    pub fn test_task_parameters() -> (res: TaskParameters)
        ensures
            res.process_id@ == ("diffusion"@, "ai_provider"@, "meme-deck.os"@),
            res.task_id@ == "123"@,
            res.from_broker@ == "memedeck-broker-1.dev"@,
            res.from_user@ == "memedeck-client-1.dev"@,
            res.task_parameters@ == "{\"nodes\":{}}"@,
    {
        TaskParameters {
            process_id: ProcessId {
                process_name: "diffusion".to_owned(),
                package_name: "ai_provider".to_owned(),
                publisher_node: "meme-deck.os".to_owned(),
            },
            task_id: "123".to_owned(),
            from_broker: "memedeck-broker-1.dev".to_owned(),
            from_user: "memedeck-client-1.dev".to_owned(),
            task_parameters: "{\"nodes\":{}}".to_owned(),
        }
    }
}

/// A task with its status.
pub struct Task {
    pub task_id: String,
    pub status: TaskStatus,
    pub parameters: TaskParameters,
}

impl Clone for Task {
    fn clone(&self) -> (res: Self)
        ensures
            res == *self,
    {
        Task {
            task_id: self.task_id.clone(),
            status: self.status,
            parameters: self.parameters.clone(),
        }
    }
}

/// What the process running a task tells the worker.
pub enum ProcessToWorkerRequests {
    TaskUpdate { task_id: String },
    TaskComplete { task_id: String, process_id: String, broker: Address },
}

/// What the worker tells the process that runs its tasks.
pub enum WorkerToProcessRequests {
    StartTask { task_id: String, params: String, process_id: String, broker: Address },
}

/// What a worker tells a broker.
pub enum WorkerToBrokerRequests {
    ClaimNextTask,
    TaskStarted { process_id: String, task_id: String },
    TaskComplete { process_id: String, task_id: String },
}

} // verus!
