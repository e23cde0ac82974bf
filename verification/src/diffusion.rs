use vstd::prelude::*;
use vstd::string::*;
use vstd::utf8::encode_utf8;

use crate::string_map::StringMap;
use crate::text::{
    decimal, decimal_string, decimal_value, is_decimal_digits, lemma_decimal_reads_back, same_text,
};

verus! {

/// The state of the process that runs diffusion tasks on a ComfyUI instance: the job at hand,
/// how to reach ComfyUI, and whether a job is running.
pub struct DiffusionState {
    pub current_job: Option<u64>,
    pub comfyui_scheme: String,
    pub comfyui_host: String,
    pub comfyui_port: u16,
    pub comfyui_client_id: u32,
    pub is_working: bool,
}

/// What the operator of the diffusion process asks of it.
pub enum AdminRequest {
    GetState,
    SetComfyUI { host: String, port: u16, client_id: u32, scheme: Option<String> },
}

/// A node of a ComfyUI workflow: its inputs (as JSON text, by name), its class and its title.
pub struct Node {
    pub inputs: StringMap<String>,
    pub class_type: String,
    pub meta: Meta,
}

/// The title of a workflow node.
pub struct Meta {
    pub title: String,
}

/// A task to generate an image: the workflow nodes by id, the node whose output is the
/// image, where to report progress, and what the image is for (JSON values as text).
pub struct GenerateImageTask {
    pub client_id: String,
    pub nodes: StringMap<Node>,
    pub ws_id: String,
    pub final_node_id: String,
    pub user_config: String,
    pub dimensions: (i64, i64),
    pub prompt: String,
    pub meme_id: String,
    pub panel_id: String,
    pub callback_url: Option<String>,
}

/// Why the diffusion process did not run a task.
#[derive(Clone, Copy, Debug, PartialEq, Eq, Structural)]
pub enum DiffusionError {
    /// The ComfyUI connection is not set up, or a job is running.
    NotReady,
    /// A ComfyUI address is not a valid URL.
    InvalidUrl,
}

impl DiffusionState {
    /// No job, scheme `https`, no host, port 0, client id 0, not working.
    pub fn default() -> (res: DiffusionState)
        ensures
            res.current_job is None,
            res.comfyui_scheme@ == "https"@,
            res.comfyui_host@ == Seq::<char>::empty(),
            res.comfyui_port == 0,
            res.comfyui_client_id == 0,
            !res.is_working,
    {
        DiffusionState {
            current_job: None,
            comfyui_scheme: "https".to_owned(),
            comfyui_host: String::new(),
            comfyui_port: 0,
            comfyui_client_id: 0,
            is_working: false,
        }
    }

    /// Ready for a job: none is running, and a host, a port and a client id are set.
    pub open spec fn spec_is_ready(&self) -> bool {
        !self.is_working && self.comfyui_host@.len() > 0 && self.comfyui_port != 0
            && self.comfyui_client_id != 0
    }

    /// Whether the process is ready for a job: none is running, and a host, a port and a client
    /// id are set.
    pub fn is_ready(&self) -> (res: bool)
        ensures
            res == self.spec_is_ready(),
    {
        !self.is_working && self.comfyui_host.as_str().unicode_len() > 0 && self.comfyui_port != 0
            && self.comfyui_client_id != 0
    }

    /// Sets how to reach ComfyUI; the scheme stays as it is unless one is given.
    pub fn set_comfy_ui(&mut self, host: String, port: u16, client_id: u32, scheme: Option<String>)
        ensures
            final(self).comfyui_host == host,
            final(self).comfyui_port == port,
            final(self).comfyui_client_id == client_id,
            final(self).comfyui_scheme == match scheme {
                Some(s) => s,
                None => old(self).comfyui_scheme,
            },
            final(self).current_job == old(self).current_job,
            final(self).is_working == old(self).is_working,
    {
        match scheme {
            None => {},
            Some(s) => {
                self.comfyui_scheme = s;
            },
        }
        self.comfyui_host = host;
        self.comfyui_port = port;
        self.comfyui_client_id = client_id;
    }

    /// Starts a job if the process is ready for one; says whether it did.
    pub fn begin_job(&mut self) -> (res: bool)
        ensures
            res == old(self).spec_is_ready(),
            final(self).is_working == (res || old(self).is_working),
            final(self).current_job == old(self).current_job,
            final(self).comfyui_scheme == old(self).comfyui_scheme,
            final(self).comfyui_host == old(self).comfyui_host,
            final(self).comfyui_port == old(self).comfyui_port,
            final(self).comfyui_client_id == old(self).comfyui_client_id,
    {
        if self.is_ready() {
            self.is_working = true;
            true
        } else {
            false
        }
    }

    /// Ends the job at hand.
    pub fn finish_job(&mut self)
        ensures
            !final(self).is_working,
            final(self).current_job == old(self).current_job,
            final(self).comfyui_scheme == old(self).comfyui_scheme,
            final(self).comfyui_host == old(self).comfyui_host,
            final(self).comfyui_port == old(self).comfyui_port,
            final(self).comfyui_client_id == old(self).comfyui_client_id,
    {
        self.is_working = false;
    }
}

/// The diffusion process runs one job at a time: while a job runs it is not ready for another,
/// so a second start fails until the first job finishes.
pub proof fn lemma_one_job_at_a_time(state: DiffusionState)
    ensures
        state.is_working ==> !state.spec_is_ready(),
{
}

/// A diffusion process is ready exactly when no job runs and ComfyUI is fully set up: a host,
/// a port other than 0 and a client id other than 0. Any of them unset, it is not ready.
pub proof fn lemma_ready_needs_full_setup(state: DiffusionState)
    ensures
        state.comfyui_port == 0 ==> !state.spec_is_ready(),
        state.comfyui_client_id == 0 ==> !state.spec_is_ready(),
        state.comfyui_host@.len() == 0 ==> !state.spec_is_ready(),
        !state.is_working && state.comfyui_host@.len() > 0 && state.comfyui_port != 0
            && state.comfyui_client_id != 0 ==> state.spec_is_ready(),
{
}

/// Handles `request` of the operator of the diffusion process; says whether to print the state.
pub fn handle_admin_request(state: &mut DiffusionState, request: AdminRequest) -> (res: bool)
    ensures
        match request {
            AdminRequest::GetState => res && *final(state) == *old(state),
            AdminRequest::SetComfyUI { host, port, client_id, scheme } => {
                &&& !res
                &&& final(state).comfyui_host == host
                &&& final(state).comfyui_port == port
                &&& final(state).comfyui_client_id == client_id
                &&& final(state).comfyui_scheme == match scheme {
                    Some(s) => s,
                    None => old(state).comfyui_scheme,
                }
                &&& final(state).current_job == old(state).current_job
                &&& final(state).is_working == old(state).is_working
            },
        },
{
    match request {
        AdminRequest::GetState => true,
        AdminRequest::SetComfyUI { host, port, client_id, scheme } => {
            state.set_comfy_ui(host, port, client_id, scheme);
            false
        },
    }
}

/// The user name and the password (if any) of the URL `text`, as `url::Url::parse` reads
/// them, or nothing where `text` is not a valid URL.
pub uninterp spec fn parsed_url_userinfo(text: Seq<char>) -> Option<(Seq<char>, Option<Seq<char>>)>;

/// The text of an optional string.
pub open spec fn optional_text(s: Option<String>) -> Option<Seq<char>> {
    match s {
        Some(s) => Some(s@),
        None => None,
    }
}

/// `url::Url::parse`, then its `username` and `password`: the user name and password of the
/// URL `text`, or nothing where it is not a valid URL.
#[verifier::external_body]
pub(crate) fn url_userinfo(text: &str) -> (res: Option<(String, Option<String>)>)
    ensures
        match res {
            Some((user, password)) => parsed_url_userinfo(text@) == Some(
                (user@, optional_text(password)),
            ),
            None => parsed_url_userinfo(text@) is None,
        },
{
    match url::Url::parse(text) {
        Ok(url) => {
            let password = match url.password() {
                Some(p) => Some(p.to_string()),
                None => None,
            };
            Some((url.username().to_string(), password))
        },
        Err(_) => None,
    }
}

/// The digit for the six-bit value `v` in the standard base64 alphabet: `A`-`Z`, `a`-`z`,
/// `0`-`9`, `+` and `/`.
pub open spec fn base64_digit(v: int) -> char {
    if v < 26 {
        ('A' as int + v) as char
    } else if v < 52 {
        ('a' as int + v - 26) as char
    } else if v < 62 {
        ('0' as int + v - 52) as char
    } else if v == 62 {
        '+'
    } else {
        '/'
    }
}

/// The standard base64 encoding of `bytes` (RFC 4648): each group of three bytes becomes four
/// digits of six bits each, and a last group of one or two bytes is padded with `=`.
pub open spec fn base64_standard(bytes: Seq<u8>) -> Seq<char>
    decreases bytes.len(),
{
    if bytes.len() == 0 {
        Seq::empty()
    } else if bytes.len() == 1 {
        let b0 = bytes[0] as int;
        seq![base64_digit(b0 / 4), base64_digit(b0 % 4 * 16), '=', '=']
    } else if bytes.len() == 2 {
        let b0 = bytes[0] as int;
        let b1 = bytes[1] as int;
        seq![
            base64_digit(b0 / 4),
            base64_digit(b0 % 4 * 16 + b1 / 16),
            base64_digit(b1 % 16 * 4),
            '=',
        ]
    } else {
        let b0 = bytes[0] as int;
        let b1 = bytes[1] as int;
        let b2 = bytes[2] as int;
        seq![
            base64_digit(b0 / 4),
            base64_digit(b0 % 4 * 16 + b1 / 16),
            base64_digit(b1 % 16 * 4 + b2 / 64),
            base64_digit(b2 % 64),
        ] + base64_standard(bytes.skip(3))
    }
}

/// `http_auth_basic::Credentials::new(user, password).as_http_header()`: `Basic ` and the
/// standard base64 encoding of `user:password`.
#[verifier::external_body]
pub(crate) fn basic_auth_header(user: &str, password: &str) -> (res: String)
    ensures
        res@ == "Basic "@ + base64_standard(encode_utf8(user@ + ":"@ + password@)),
{
    http_auth_basic::Credentials::new(user, password).as_http_header()
}

/// The websocket URL of ComfyUI for `state`: `wss` where the scheme is `https` (else `ws`),
/// the host, and the client id.
pub open spec fn ws_url_text(state: DiffusionState) -> Seq<char> {
    (if state.comfyui_scheme@ == "https"@ {
        "wss"@
    } else {
        "ws"@
    }) + "://"@ + state.comfyui_host@ + "/ws?clientId="@ + decimal(
        state.comfyui_client_id as nat,
    )
}

/// The URL to which prompts for ComfyUI go: scheme, host, port and `/prompt`.
pub open spec fn prompt_url_text(state: DiffusionState) -> Seq<char> {
    state.comfyui_scheme@ + "://"@ + state.comfyui_host@ + ":"@ + decimal(
        state.comfyui_port as nat,
    ) + "/prompt"@
}

/// The prompt URL carries the configured port whatever the scheme: it is the scheme, `://`,
/// the host and `:`, then digits that read back as the port, then `/prompt`.
pub proof fn lemma_prompt_url_carries_port(state: DiffusionState)
    ensures
        ({
            let t = prompt_url_text(state);
            let head = state.comfyui_scheme@ + "://"@ + state.comfyui_host@ + ":"@;
            let digits = t.subrange(head.len() as int, t.len() - "/prompt"@.len());
            &&& t.len() >= head.len() + "/prompt"@.len()
            &&& t.take(head.len() as int) == head
            &&& t.skip(t.len() - "/prompt"@.len()) == "/prompt"@
            &&& is_decimal_digits(digits)
            &&& decimal_value(digits) == state.comfyui_port
        }),
{
    let t = prompt_url_text(state);
    let head = state.comfyui_scheme@ + "://"@ + state.comfyui_host@ + ":"@;
    let d = decimal(state.comfyui_port as nat);
    lemma_decimal_reads_back(state.comfyui_port as nat);
    assert(t =~= head + d + "/prompt"@);
    assert(t.take(head.len() as int) =~= head);
    assert(t.skip(t.len() - "/prompt"@.len()) =~= "/prompt"@);
    assert(t.subrange(head.len() as int, t.len() - "/prompt"@.len()) =~= d);
}

/// The websocket URL ends in the whole client id: after the scheme (`wss` for `https`, else
/// `ws`), `://`, the host and `/ws?clientId=` come digits that read back as the client id.
pub proof fn lemma_ws_url_carries_client_id(state: DiffusionState)
    ensures
        ({
            let t = ws_url_text(state);
            let head = (if state.comfyui_scheme@ == "https"@ {
                "wss"@
            } else {
                "ws"@
            }) + "://"@ + state.comfyui_host@ + "/ws?clientId="@;
            let digits = t.skip(head.len() as int);
            &&& t.len() >= head.len()
            &&& t.take(head.len() as int) == head
            &&& is_decimal_digits(digits)
            &&& decimal_value(digits) == state.comfyui_client_id
        }),
{
    let t = ws_url_text(state);
    let head = (if state.comfyui_scheme@ == "https"@ {
        "wss"@
    } else {
        "ws"@
    }) + "://"@ + state.comfyui_host@ + "/ws?clientId="@;
    let d = decimal(state.comfyui_client_id as nat);
    lemma_decimal_reads_back(state.comfyui_client_id as nat);
    assert(t =~= head + d);
    assert(t.take(head.len() as int) =~= head);
    assert(t.skip(head.len() as int) =~= d);
}

/// The websocket URL of ComfyUI, and the basic authorization header made of the user name and
/// password that it holds; fails where the URL is not valid. Gives nothing where the URL holds
/// no password, a case in which no header can be made.
pub fn comfy_ws_request(state: &DiffusionState) -> (res: Option<
    Result<(String, String), DiffusionError>,
>)
    ensures
        match parsed_url_userinfo(ws_url_text(*state)) {
            Some((user, password)) => match password {
                Some(password) => res matches Some(Ok((url, header))) && url@ == ws_url_text(*state)
                    && header@ == "Basic "@ + base64_standard(encode_utf8(user + ":"@ + password)),
                None => res is None,
            },
            None => res == Some(Err::<(String, String), DiffusionError>(DiffusionError::InvalidUrl)),
        },
{
    let https = "https";
    proof {
        reveal_strlit("https");
    }
    let url = if same_text(state.comfyui_scheme.as_str(), https) {
        "wss".to_owned()
    } else {
        "ws".to_owned()
    };
    let url = url.concat("://");
    let url = url.concat(state.comfyui_host.as_str());
    let url = url.concat("/ws?clientId=");
    let url = url.concat(decimal_string(state.comfyui_client_id as u64).as_str());
    proof {
        assert(url@ =~= ws_url_text(*state));
    }
    match url_userinfo(url.as_str()) {
        Some((user, password)) => match password {
            Some(password) => {
                let header = basic_auth_header(user.as_str(), password.as_str());
                Some(Ok((url, header)))
            },
            None => None,
        },
        None => Some(Err(DiffusionError::InvalidUrl)),
    }
}

/// The URL to which prompts for ComfyUI go; fails where it is not a valid URL.
pub fn comfy_prompt_url(state: &DiffusionState) -> (res: Result<String, DiffusionError>)
    ensures
        match parsed_url_userinfo(prompt_url_text(*state)) {
            Some(_) => res matches Ok(url) && url@ == prompt_url_text(*state),
            None => res == Err::<String, DiffusionError>(DiffusionError::InvalidUrl),
        },
{
    let url = state.comfyui_scheme.clone();
    let url = url.concat("://");
    let url = url.concat(state.comfyui_host.as_str());
    let url = url.concat(":");
    let url = url.concat(decimal_string(state.comfyui_port as u64).as_str());
    let url = url.concat("/prompt");
    proof {
        assert(url@ =~= prompt_url_text(*state));
    }
    match url_userinfo(url.as_str()) {
        Some(_) => Ok(url),
        None => Err(DiffusionError::InvalidUrl),
    }
}

/// How far a ComfyUI job has come: the prompt it runs, the node whose output is the image, the
/// node running now, and the number of images received.
pub struct JobProgress {
    pub prompt_id: String,
    pub final_node_id: String,
    pub current_node: String,
    pub progress: i32,
}

/// What to report after an image arrives: whether it is the final image, and the progress to
/// report (100 for the final image).
pub struct ProgressReport {
    pub is_final: bool,
    pub progress: i32,
}

impl JobProgress {
    /// A job for the prompt `prompt_id`, before any update.
    pub fn new(prompt_id: String, final_node_id: String) -> (res: JobProgress)
        ensures
            res.prompt_id == prompt_id,
            res.final_node_id == final_node_id,
            res.current_node@ == Seq::<char>::empty(),
            res.progress == 0,
    {
        JobProgress { prompt_id, final_node_id, current_node: String::new(), progress: 0 }
    }

    /// Takes in an `executing` update for the prompt `prompt_id` (none counts as the empty
    /// one) at the node `node`; says whether the job is done. An update for another prompt
    /// changes nothing; one for this prompt with no node ends the job; any other moves the job
    /// to the node.
    pub fn on_executing(&mut self, prompt_id: Option<String>, node: Option<String>) -> (res: bool)
        ensures
            ({
                let ours = match prompt_id {
                    Some(p) => p@ == old(self).prompt_id@,
                    None => old(self).prompt_id@.len() == 0,
                };
                if ours && node is None {
                    res && *final(self) == *old(self)
                } else if ours {
                    &&& !res
                    &&& final(self).current_node == node->0
                    &&& final(self).prompt_id == old(self).prompt_id
                    &&& final(self).final_node_id == old(self).final_node_id
                    &&& final(self).progress == old(self).progress
                } else {
                    !res && *final(self) == *old(self)
                }
            }),
    {
        let ours = match &prompt_id {
            Some(p) => *p == self.prompt_id,
            None => self.prompt_id.as_str().unicode_len() == 0,
        };
        if !ours {
            return false;
        }
        match node {
            None => true,
            Some(n) => {
                self.current_node = n;
                false
            },
        }
    }

    /// Takes in an image: counts it, and says whether it is the final one (the running node is
    /// the final node) and what progress to report.
    pub fn on_image(&mut self) -> (res: ProgressReport)
        requires
            old(self).progress < i32::MAX,
        ensures
            final(self).progress == old(self).progress + 1,
            final(self).prompt_id == old(self).prompt_id,
            final(self).final_node_id == old(self).final_node_id,
            final(self).current_node == old(self).current_node,
            res.is_final == (old(self).current_node@ == old(self).final_node_id@),
            res.progress == if res.is_final {
                100
            } else {
                final(self).progress
            },
    {
        self.progress = self.progress + 1;
        let is_final = self.current_node == self.final_node_id;
        let progress = if is_final {
            100
        } else {
            self.progress
        };
        ProgressReport { is_final, progress }
    }
}

/// A message that the ComfyUI websocket pushes while a job runs, as the job sees it.
pub enum ComfyEvent {
    /// A text update of type `executing`: the prompt it is for and the node now running.
    Executing { prompt_id: Option<String>, node: Option<String> },
    /// A text update of type `status`.
    Status,
    /// A text update of any other type.
    UnknownText,
    /// An image, in a binary message.
    Image,
    /// A message of any other kind.
    Other,
}

/// What a running job does after a websocket message.
pub enum JobStep {
    /// Wait for the next message.
    Continue,
    /// The job is over.
    Finished,
    /// Report an image with `report`; the job is over where the report says it is final.
    Report { report: ProgressReport },
}

/// Whether the prompt id `prompt_id` of an update (none counts as the empty one) is `ours`.
pub open spec fn is_our_prompt(prompt_id: Option<String>, ours: Seq<char>) -> bool {
    match prompt_id {
        Some(p) => p@ == ours,
        None => ours.len() == 0,
    }
}

impl JobProgress {
    /// Takes in one websocket message of the running job. An `executing` update is taken in as
    /// `on_executing` says, and finishes the job where that says it is done; an image is taken
    /// in as `on_image` says and reported; every other message changes nothing.
    pub fn on_event(&mut self, event: ComfyEvent) -> (res: JobStep)
        requires
            event is Image ==> old(self).progress < i32::MAX,
        ensures
            match event {
                ComfyEvent::Executing { prompt_id, node } => {
                    let ours = is_our_prompt(prompt_id, old(self).prompt_id@);
                    if ours && node is None {
                        res is Finished && *final(self) == *old(self)
                    } else if ours {
                        &&& res is Continue
                        &&& final(self).current_node == node->0
                        &&& final(self).prompt_id == old(self).prompt_id
                        &&& final(self).final_node_id == old(self).final_node_id
                        &&& final(self).progress == old(self).progress
                    } else {
                        res is Continue && *final(self) == *old(self)
                    }
                },
                ComfyEvent::Image => {
                    &&& final(self).progress == old(self).progress + 1
                    &&& final(self).prompt_id == old(self).prompt_id
                    &&& final(self).final_node_id == old(self).final_node_id
                    &&& final(self).current_node == old(self).current_node
                    &&& res matches JobStep::Report { report }
                    &&& report.is_final == (old(self).current_node@ == old(self).final_node_id@)
                    &&& report.progress == if report.is_final {
                        100
                    } else {
                        final(self).progress
                    }
                },
                _ => res is Continue && *final(self) == *old(self),
            },
    {
        match event {
            ComfyEvent::Executing { prompt_id, node } => {
                if self.on_executing(prompt_id, node) {
                    JobStep::Finished
                } else {
                    JobStep::Continue
                }
            },
            ComfyEvent::Image => JobStep::Report { report: self.on_image() },
            _ => JobStep::Continue,
        }
    }
}

impl ProgressReport {
    /// The kind of update to send the caller: `image_generated` for the final image, else
    /// `image_generating`.
    pub fn kind(&self) -> (res: &'static str)
        ensures
            res@ == if self.is_final {
                "image_generated"@
            } else {
                "image_generating"@
            },
    {
        if self.is_final {
            "image_generated"
        } else {
            "image_generating"
        }
    }
}

} // verus!
