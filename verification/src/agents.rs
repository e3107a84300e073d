//! Local command-line agents: what detection reports of them, checking a
//! call, and what the events of a call add up to.
use crate::jobs::AGENT_REQUIRED;
use crate::tasks::opt_view;
use crate::text::{is_blank, owned, push_str, trim};
use vstd::prelude::*;

verus! {

/// How an agent takes its prompt.
#[derive(Clone, Copy, Debug, PartialEq, Eq, Structural)]
pub enum AgentProtocol {
    Stdin,
    Argv,
    ArgvMessage,
    Acp,
}

/// An agent as detection found it on this machine.
#[derive(Clone, Debug)]
pub struct DetectedAgent {
    pub id: String,
    pub label: String,
    pub vendor: String,
    pub available: bool,
    pub path: Option<String>,
    pub protocol: AgentProtocol,
    pub unsupported: Option<bool>,
}

/// An agent as the window lists it.
#[derive(Clone, Debug)]
pub struct DetectedAgentDto {
    pub id: String,
    pub label: String,
    pub vendor: String,
    pub available: bool,
    pub path: Option<String>,
    pub protocol: String,
    pub unsupported: bool,
}

/// The protocol's name in lower case.
pub open spec fn protocol_name(p: AgentProtocol) -> Seq<char> {
    match p {
        AgentProtocol::Stdin => "stdin"@,
        AgentProtocol::Argv => "argv"@,
        AgentProtocol::ArgvMessage => "argvmessage"@,
        AgentProtocol::Acp => "acp"@,
    }
}

/// The protocol's name in lower case.
pub fn protocol_label(p: AgentProtocol) -> (r: &'static str)
    ensures
        r@ == protocol_name(p),
{
    match p {
        AgentProtocol::Stdin => "stdin",
        AgentProtocol::Argv => "argv",
        AgentProtocol::ArgvMessage => "argvmessage",
        AgentProtocol::Acp => "acp",
    }
}

/// `d` lists the detected agent `a`; an unknown support flag counts as supported.
pub open spec fn lists_agent(d: DetectedAgentDto, a: DetectedAgent) -> bool {
    &&& d.id == a.id
    &&& d.label == a.label
    &&& d.vendor == a.vendor
    &&& d.available == a.available
    &&& d.path == a.path
    &&& d.protocol@ == protocol_name(a.protocol)
    &&& d.unsupported == (a.unsupported == Some(true))
}

/// The detected agents as the window lists them, in the same order.
pub fn list_detected_agents(agents: Vec<DetectedAgent>) -> (r: Vec<DetectedAgentDto>)
    ensures
        r@.len() == agents@.len(),
        forall|i: int| 0 <= i < r@.len() ==> lists_agent(#[trigger] r@[i], agents@[i]),
{
    let ghost all = agents@;
    let mut r: Vec<DetectedAgentDto> = Vec::new();
    for a in it: agents.into_iter()
        invariant
            it.seq() == all,
            r@.len() == it.index(),
            forall|i: int| 0 <= i < r@.len() ==> lists_agent(#[trigger] r@[i], all[i]),
    {
        let unsupported = match a.unsupported {
            Some(b) => b,
            None => false,
        };
        let protocol = owned(protocol_label(a.protocol));
        r.push(
            DetectedAgentDto {
                id: a.id,
                label: a.label,
                vendor: a.vendor,
                available: a.available,
                path: a.path,
                protocol,
                unsupported,
            },
        );
    }
    r
}

// ---------------------------------------------------------------------
// Calling an agent
// ---------------------------------------------------------------------

/// A direct call of a local agent.
#[derive(Clone, Debug)]
pub struct AgentInvokeRequest {
    pub agent: String,
    pub prompt: String,
    pub cwd: Option<String>,
    pub model: Option<String>,
    pub bin_override: Option<String>,
    pub job_id: Option<String>,
}

pub const PROMPT_REQUIRED: &'static str = "Prompt 不能为空";

pub const INVOKE_CANCELED: &'static str = "Agent 调用已取消";

/// A call needs an agent and a prompt that are not blank, checked in that order.
pub fn check_invoke_request(request: &AgentInvokeRequest) -> (r: Result<(), String>)
    ensures
        trim(request.agent@).len() == 0 ==> (r matches Err(e) && e@ == AGENT_REQUIRED@),
        trim(request.agent@).len() > 0 && trim(request.prompt@).len() == 0 ==> (r matches Err(e)
            && e@ == PROMPT_REQUIRED@),
        trim(request.agent@).len() > 0 && trim(request.prompt@).len() > 0 ==> r is Ok,
{
    if is_blank(request.agent.as_str()) {
        return Err(owned(AGENT_REQUIRED));
    }
    if is_blank(request.prompt.as_str()) {
        return Err(owned(PROMPT_REQUIRED));
    }
    Ok(())
}

/// What a running agent reports.
#[derive(Clone, Debug)]
pub enum AgentEvent {
    Start { bin: String, argv: Vec<String>, prompt_bytes: usize, cwd: Option<String> },
    Delta { text: String },
    Html { text: String },
    /// A named value; `value` is its JSON text.
    Meta { key: String, value: String },
    Stderr { text: String },
    Raw { text: String },
    Canceled,
    Done { code: Option<i32> },
    Error { message: String },
}

/// A named value an agent reported; `value` is its JSON text.
#[derive(Clone, Debug)]
pub struct AgentMetaEvent {
    pub key: String,
    pub value: String,
}

/// What a finished call produced.
#[derive(Clone, Debug)]
pub struct AgentInvokeResult {
    pub success: bool,
    pub text: String,
    pub html: Option<String>,
    pub exit_code: Option<i32>,
    pub stderr: Vec<String>,
    pub meta: Vec<AgentMetaEvent>,
}

/// The output of a call gathered event by event.
pub struct InvokeCollector {
    pub text: String,
    pub html: Option<String>,
    pub exit_code: Option<i32>,
    pub stderr: Vec<String>,
    pub meta: Vec<AgentMetaEvent>,
}

impl InvokeCollector {
    /// Nothing gathered yet.
    pub fn new() -> (c: Self)
        ensures
            c.text@ == Seq::<char>::empty(),
            c.html is None,
            c.exit_code is None,
            c.stderr@.len() == 0,
            c.meta@.len() == 0,
    {
        InvokeCollector {
            text: String::new(),
            html: None,
            exit_code: None,
            stderr: Vec::new(),
            meta: Vec::new(),
        }
    }

    /// Takes in one event. Text pieces are appended, the latest HTML and
    /// exit code are kept, stderr lines and named values are collected.
    /// A cancelation or an error ends the call: its message is returned.
    pub fn absorb(&mut self, event: &AgentEvent) -> (r: Option<String>)
        ensures
            final(self).text@ == (match *event {
                AgentEvent::Delta { text } => old(self).text@ + text@,
                _ => old(self).text@,
            }),
            final(self).html == (match *event {
                AgentEvent::Html { text } => Some(text),
                _ => old(self).html,
            }),
            final(self).exit_code == (match *event {
                AgentEvent::Done { code } => code,
                _ => old(self).exit_code,
            }),
            final(self).stderr@ == (match *event {
                AgentEvent::Stderr { text } => old(self).stderr@.push(text),
                _ => old(self).stderr@,
            }),
            final(self).meta@ == (match *event {
                AgentEvent::Meta { key, value } => old(self).meta@.push((AgentMetaEvent { key, value })),
                _ => old(self).meta@,
            }),
            opt_view(r) == (match *event {
                AgentEvent::Canceled => Some(INVOKE_CANCELED@),
                AgentEvent::Error { message } => Some(message@),
                _ => None,
            }),
    {
        match event {
            AgentEvent::Delta { text } => {
                push_str(&mut self.text, text.as_str());
                None
            },
            AgentEvent::Html { text } => {
                self.html = Some(text.clone());
                None
            },
            AgentEvent::Meta { key, value } => {
                self.meta.push(AgentMetaEvent { key: key.clone(), value: value.clone() });
                None
            },
            AgentEvent::Stderr { text } => {
                self.stderr.push(text.clone());
                None
            },
            AgentEvent::Done { code } => {
                self.exit_code = *code;
                None
            },
            AgentEvent::Canceled => Some(owned(INVOKE_CANCELED)),
            AgentEvent::Error { message } => Some(message.clone()),
            _ => None,
        }
    }

    /// The result of a call that ran to its end: it succeeded unless it
    /// reported a non-zero exit code.
    pub fn finish(self) -> (r: AgentInvokeResult)
        ensures
            r.success == (match self.exit_code {
                Some(c) => c == 0,
                None => true,
            }),
            r.text == self.text,
            r.html == self.html,
            r.exit_code == self.exit_code,
            r.stderr == self.stderr,
            r.meta == self.meta,
    {
        let success = match self.exit_code {
            Some(c) => c == 0,
            None => true,
        };
        AgentInvokeResult {
            success,
            text: self.text,
            html: self.html,
            exit_code: self.exit_code,
            stderr: self.stderr,
            meta: self.meta,
        }
    }
}

} // verus!
