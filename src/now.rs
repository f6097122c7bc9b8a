use vstd::prelude::*;
use vstd::string::StringExecFns;
use crate::clock::{get_current_time_info, reports_time};
use crate::content::{ComputedPrompt, Payload, PromptMessage, PromptRole, ToolContent};
use crate::dispatch::{finish, Answer, Request, RequestId, Response, RpcError, Server, Step};
use crate::registry::{Capability, Descriptor, Registry};

verus! {

/// The tool that reports the local time.
pub struct NowTool;

/// The prompt that carries the local time.
pub struct NowPrompt;

/// The behaviours this host can run: a closed set, one per capability.
pub enum Behavior {
    NowTool(NowTool),
    NowPrompt(NowPrompt),
}

/// `v` is what the time tool returns: one text block with a report of the
/// local clock.
pub open spec fn is_time_tool_output(v: Seq<ToolContent>) -> bool {
    v.len() == 1 && (v[0] matches ToolContent::Text { text } && reports_time(text@))
}

/// `p` is what the time prompt returns: its description and one user message
/// with a report of the local clock.
pub open spec fn is_time_prompt_output(p: ComputedPrompt) -> bool {
    p.description@ == "Current time information"@ && p.messages@.len() == 1
        && p.messages@[0].role == PromptRole::User && reports_time(p.messages@[0].text@)
}

/// `d` describes the time tool.
pub open spec fn is_time_tool_descriptor(d: Descriptor) -> bool {
    d.name@ == "now"@ && (d.description matches Some(t) && t@
        == "Retrieve the current local time, week of the year, and day of the week."@)
        && d.schema@ == "{\"properties\":{},\"type\":\"object\"}"@
}

/// `d` describes the time prompt.
pub open spec fn is_time_prompt_descriptor(d: Descriptor) -> bool {
    d.name@ == "Now"@ && d.description is None && d.schema@ == "[]"@
}

impl NowTool {
    /// Reports the local time; takes no arguments.
    pub fn execute(&self, _arguments: Option<String>) -> (r: Vec<ToolContent>)
        ensures
            is_time_tool_output(r@),
    {
        let result = get_current_time_info();
        vec![ToolContent::Text { text: result }]
    }

    pub fn to_tool(&self) -> (r: Descriptor)
        ensures
            is_time_tool_descriptor(r),
    {
        Descriptor {
            name: String::from_str("now"),
            description: Some(
                String::from_str(
                    "Retrieve the current local time, week of the year, and day of the week.",
                ),
            ),
            schema: String::from_str("{\"properties\":{},\"type\":\"object\"}"),
        }
    }
}

impl NowPrompt {
    pub fn name(&self) -> (r: &'static str)
        ensures
            r@ == "Now"@,
    {
        "Now"
    }

    /// Builds the prompt around a report of the local time; takes no
    /// arguments.
    pub fn compute(&self, _arguments: Option<String>) -> (r: ComputedPrompt)
        ensures
            is_time_prompt_output(r),
    {
        let content = get_current_time_info();
        ComputedPrompt {
            description: String::from_str("Current time information"),
            messages: vec![PromptMessage { role: PromptRole::User, text: content }],
        }
    }

    pub fn to_prompt(&self) -> (r: Descriptor)
        ensures
            is_time_prompt_descriptor(r),
    {
        Descriptor {
            name: String::from_str(self.name()),
            description: None,
            schema: String::from_str("[]"),
        }
    }
}

/// `result` is what running behaviour `b` can answer.
pub open spec fn is_output_of(b: Behavior, result: Result<Answer, RpcError>) -> bool {
    match b {
        Behavior::NowTool(_) => result matches Ok(Answer::Invoked(Payload::Tool(v)))
            && is_time_tool_output(v@),
        Behavior::NowPrompt(_) => result matches Ok(Answer::Invoked(Payload::Prompt(p)))
            && is_time_prompt_output(p),
    }
}

impl Behavior {
    /// Runs the behaviour once.
    pub fn invoke(&self, arguments: Option<String>) -> (r: Result<Payload, String>)
        ensures
            match *self {
                Behavior::NowTool(_) => r matches Ok(Payload::Tool(v)) && is_time_tool_output(v@),
                Behavior::NowPrompt(_) => r matches Ok(Payload::Prompt(p))
                    && is_time_prompt_output(p),
            },
    {
        match self {
            Behavior::NowTool(t) => Ok(Payload::Tool(t.execute(arguments))),
            Behavior::NowPrompt(p) => Ok(Payload::Prompt(p.compute(arguments))),
        }
    }
}

/// The host: a dispatcher over the time tool and the time prompt.
pub struct ContextServerState {
    pub rpc: Server<Behavior>,
}

impl ContextServerState {
    /// Registers the time tool and the time prompt, with no resources,
    /// under the server identity `name` and `version`.
    pub fn new(name: String, version: String) -> (r: Self)
        ensures
            r.rpc.wf(),
            r.rpc.name == name,
            r.rpc.version == version,
            r.rpc.tools@.len() == 1,
            is_time_tool_descriptor(r.rpc.tools@[0].descriptor),
            r.rpc.tools@[0].behavior is NowTool,
            r.rpc.prompts@.len() == 1,
            is_time_prompt_descriptor(r.rpc.prompts@[0].descriptor),
            r.rpc.prompts@[0].behavior is NowPrompt,
            r.rpc.resources@.len() == 0,
    {
        let resources: Registry<Behavior> = Registry::new();
        let mut tools: Registry<Behavior> = Registry::new();
        let tool = NowTool;
        let registered = tools.register(
            Capability { descriptor: tool.to_tool(), behavior: Behavior::NowTool(tool) },
        );
        assert(registered is Ok);
        let mut prompts: Registry<Behavior> = Registry::new();
        let prompt = NowPrompt;
        let registered = prompts.register(
            Capability { descriptor: prompt.to_prompt(), behavior: Behavior::NowPrompt(prompt) },
        );
        assert(registered is Ok);
        ContextServerState { rpc: Server { tools, prompts, resources, name, version } }
    }

    /// `resp` answers `req` (with identifier `id`): directly where the
    /// request has no target, else with what the target's behaviour returns.
    pub open spec fn responds(&self, req: Request, id: RequestId, resp: Response) -> bool {
        match self.rpc.target(req) {
            None => self.rpc.answers(req, id, resp),
            Some((k, c)) => resp.id == id && is_output_of(c.behavior, resp.result),
        }
    }

    /// Handles one request: no response for a notification; otherwise the
    /// direct answer, or the outcome of running the one capability that the
    /// request names.
    pub fn process_request(&self, request: Request) -> (r: Option<Response>)
        requires
            self.rpc.wf(),
        ensures
            request.id is None ==> r is None,
            request.id matches Some(id) ==> (r matches Some(resp) && self.responds(
                request,
                id,
                resp,
            )),
    {
        match self.rpc.dispatch(request) {
            Step::Silent => None,
            Step::Reply(resp) => Some(resp),
            Step::Invoke { id, kind: _, capability, arguments } => {
                let outcome = capability.behavior.invoke(arguments);
                Some(finish(id, outcome))
            },
        }
    }

    /// Handles one input line, decoded or not. A line that failed to decode
    /// is skipped with its error for the log, and nothing else happens; the
    /// next line is handled as if it had not been there.
    pub fn handle_line(&self, decoded: Result<Request, String>) -> (r: LineOutcome)
        requires
            self.rpc.wf(),
        ensures
            decoded matches Err(e) ==> r == (LineOutcome::Skipped { error: e }),
            decoded matches Ok(req) ==> (req.id is None ==> (r is Quiet)),
            decoded matches Ok(req) ==> (req.id matches Some(id) ==> (r matches LineOutcome::Answered(
                resp,
            ) && self.responds(req, id, resp))),
    {
        match decoded {
            Err(error) => LineOutcome::Skipped { error },
            Ok(request) => match self.process_request(request) {
                None => LineOutcome::Quiet,
                Some(resp) => LineOutcome::Answered(resp),
            },
        }
    }
}

/// What became of one input line.
pub enum LineOutcome {
    /// The line did not decode: log the error and go on.
    Skipped { error: String },
    /// A notification: nothing to send.
    Quiet,
    /// Send this response.
    Answered(Response),
}

} // verus!
