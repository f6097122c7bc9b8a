use vstd::prelude::*;
use vstd::string::StringExecFns;
use crate::content::Payload;
use crate::registry::{descriptors_of, lookup_in, Capability, Descriptor, Registry};

verus! {

/// The kinds of capability; each has a registry of its own.
#[derive(PartialEq, Eq, Structural, Clone, Copy, Debug)]
pub enum Kind {
    Tool,
    Prompt,
    Resource,
}

/// What a method name asks of the dispatcher.
#[derive(PartialEq, Eq, Structural, Clone, Copy, Debug)]
pub enum Route {
    /// The opening handshake: the server's identity.
    Initialize,
    /// The descriptors of one registry.
    List(Kind),
    /// One capability of one registry, by name.
    Invoke(Kind),
}

/// The route of each method name that the dispatcher serves.
pub open spec fn route_of(method: Seq<char>) -> Option<Route> {
    if method == "initialize"@ {
        Some(Route::Initialize)
    } else if method == "tools/list"@ {
        Some(Route::List(Kind::Tool))
    } else if method == "tools/call"@ {
        Some(Route::Invoke(Kind::Tool))
    } else if method == "prompts/list"@ {
        Some(Route::List(Kind::Prompt))
    } else if method == "prompts/get"@ {
        Some(Route::Invoke(Kind::Prompt))
    } else if method == "resources/list"@ {
        Some(Route::List(Kind::Resource))
    } else if method == "resources/read"@ {
        Some(Route::Invoke(Kind::Resource))
    } else {
        None
    }
}

/// Finds the route of a method name.
pub fn route(method: &String) -> (r: Option<Route>)
    ensures
        r == route_of(method@),
{
    if *method == String::from_str("initialize") {
        Some(Route::Initialize)
    } else if *method == String::from_str("tools/list") {
        Some(Route::List(Kind::Tool))
    } else if *method == String::from_str("tools/call") {
        Some(Route::Invoke(Kind::Tool))
    } else if *method == String::from_str("prompts/list") {
        Some(Route::List(Kind::Prompt))
    } else if *method == String::from_str("prompts/get") {
        Some(Route::Invoke(Kind::Prompt))
    } else if *method == String::from_str("resources/list") {
        Some(Route::List(Kind::Resource))
    } else if *method == String::from_str("resources/read") {
        Some(Route::Invoke(Kind::Resource))
    } else {
        None
    }
}

/// The identifier that ties a response to its request.
pub enum RequestId {
    Number(i64),
    Text(String),
}

/// A decoded request. One without an identifier is a notification and gets
/// no response.
pub struct Request {
    pub id: Option<RequestId>,
    pub method: String,
    /// The capability named, for the methods that invoke one.
    pub name: Option<String>,
    /// The arguments handed to the capability, as JSON text.
    pub arguments: Option<String>,
}

/// A successful answer.
pub enum Answer {
    Identity { name: String, version: String },
    Listing { kind: Kind, descriptors: Vec<Descriptor> },
    Invoked(Payload),
}

/// Why a request failed.
pub enum RpcError {
    /// No route serves the method.
    MethodNotFound { method: String },
    /// The method invokes a capability but the request names none.
    MissingName,
    /// The registry of the kind holds no capability of that name.
    NotFound { kind: Kind, name: String },
    /// The capability ran and reported a failure.
    InvocationFailed { message: String },
}

/// The JSON-RPC error code of each error.
pub open spec fn error_code(e: RpcError) -> int {
    match e {
        RpcError::MethodNotFound { .. } => -32601,
        RpcError::MissingName => -32602,
        RpcError::NotFound { .. } => -32602,
        RpcError::InvocationFailed { .. } => -32603,
    }
}

/// The word for each kind in messages.
pub open spec fn kind_label(k: Kind) -> Seq<char> {
    match k {
        Kind::Tool => "Tool"@,
        Kind::Prompt => "Prompt"@,
        Kind::Resource => "Resource"@,
    }
}

/// The human-readable message of each error.
pub open spec fn error_message(e: RpcError) -> Seq<char> {
    match e {
        RpcError::MethodNotFound { method } => "Method not found: "@ + method@,
        RpcError::MissingName => "Missing capability name"@,
        RpcError::NotFound { kind, name } => kind_label(kind) + " not found: "@ + name@,
        RpcError::InvocationFailed { message } => message@,
    }
}

impl RpcError {
    pub fn code(&self) -> (r: i64)
        ensures
            r == error_code(*self),
    {
        match self {
            RpcError::MethodNotFound { .. } => -32601,
            RpcError::MissingName => -32602,
            RpcError::NotFound { .. } => -32602,
            RpcError::InvocationFailed { .. } => -32603,
        }
    }

    pub fn message(&self) -> (r: String)
        ensures
            r@ == error_message(*self),
    {
        match self {
            RpcError::MethodNotFound { method } => {
                let mut out = String::from_str("Method not found: ");
                out.append(method.as_str());
                out
            },
            RpcError::MissingName => String::from_str("Missing capability name"),
            RpcError::NotFound { kind, name } => {
                let mut out = match kind {
                    Kind::Tool => String::from_str("Tool"),
                    Kind::Prompt => String::from_str("Prompt"),
                    Kind::Resource => String::from_str("Resource"),
                };
                out.append(" not found: ");
                out.append(name.as_str());
                out
            },
            RpcError::InvocationFailed { message } => message.clone(),
        }
    }
}

/// The answer to one request.
pub struct Response {
    pub id: RequestId,
    pub result: Result<Answer, RpcError>,
}

/// What the host does next with a request.
pub enum Step<'a, B> {
    /// Nothing: the request was a notification.
    Silent,
    /// Send this response; nothing is invoked.
    Reply(Response),
    /// Invoke this capability once with these arguments, then send what
    /// `finish` makes of its outcome.
    Invoke { id: RequestId, kind: Kind, capability: &'a Capability<B>, arguments: Option<String> },
}

/// The dispatcher's state: one registry per kind and the server's identity.
pub struct Server<B> {
    pub tools: Registry<B>,
    pub prompts: Registry<B>,
    pub resources: Registry<B>,
    pub name: String,
    pub version: String,
}

impl<B> Server<B> {
    pub open spec fn wf(&self) -> bool {
        self.tools.wf() && self.prompts.wf() && self.resources.wf()
    }

    pub open spec fn registry_of(&self, k: Kind) -> Registry<B> {
        match k {
            Kind::Tool => self.tools,
            Kind::Prompt => self.prompts,
            Kind::Resource => self.resources,
        }
    }

    /// The registry of kind `k`.
    pub fn registry(&self, k: Kind) -> (r: &Registry<B>)
        ensures
            *r == self.registry_of(k),
    {
        match k {
            Kind::Tool => &self.tools,
            Kind::Prompt => &self.prompts,
            Kind::Resource => &self.resources,
        }
    }

    /// The capability that a request asks to invoke, with its kind: there
    /// is one where the method invokes a kind and the name is registered there.
    pub open spec fn target(&self, req: Request) -> Option<(Kind, Capability<B>)> {
        match route_of(req.method@) {
            Some(Route::Invoke(k)) => match req.name {
                Some(n) => match lookup_in(self.registry_of(k)@, n@) {
                    Some(c) => Some((k, c)),
                    None => None,
                },
                None => None,
            },
            _ => None,
        }
    }

    /// `resp` is the direct answer to `req` (with identifier `id`), for a
    /// request that has no target.
    pub open spec fn answers(&self, req: Request, id: RequestId, resp: Response) -> bool {
        resp.id == id && match route_of(req.method@) {
            None => resp.result == Err::<Answer, RpcError>(
                RpcError::MethodNotFound { method: req.method },
            ),
            Some(Route::Initialize) => resp.result matches Ok(Answer::Identity { name, version })
                && name == self.name && version == self.version,
            Some(Route::List(k)) => resp.result matches Ok(Answer::Listing { kind, descriptors })
                && kind == k && descriptors@ == descriptors_of(self.registry_of(k)@),
            Some(Route::Invoke(k)) => match req.name {
                None => resp.result == Err::<Answer, RpcError>(RpcError::MissingName),
                Some(n) => resp.result == Err::<Answer, RpcError>(
                    RpcError::NotFound { kind: k, name: n },
                ),
            },
        }
    }

    /// Resolves a request: a notification is left unanswered; a listing, the
    /// handshake and every failure to resolve (an unknown method, a missing
    /// or unregistered name) are answered at once, with nothing invoked; a
    /// request naming a registered capability asks for exactly that
    /// capability to be invoked, once.
    pub fn dispatch(&self, req: Request) -> (r: Step<'_, B>)
        requires
            self.wf(),
        ensures
            req.id is None ==> r is Silent,
            req.id matches Some(id) ==> match self.target(req) {
                None => r matches Step::Reply(resp) && self.answers(req, id, resp),
                Some((k, c)) => r matches Step::Invoke { id: i, kind, capability, arguments }
                    && i == id && kind == k && *capability == c && arguments == req.arguments,
            },
    {
        let id = match req.id {
            None => {
                return Step::Silent;
            },
            Some(id) => id,
        };
        match route(&req.method) {
            None => Step::Reply(
                Response { id, result: Err(RpcError::MethodNotFound { method: req.method }) },
            ),
            Some(Route::Initialize) => Step::Reply(
                Response {
                    id,
                    result: Ok(
                        Answer::Identity { name: self.name.clone(), version: self.version.clone() },
                    ),
                },
            ),
            Some(Route::List(k)) => Step::Reply(
                Response { id, result: Ok(Answer::Listing { kind: k, descriptors: self.registry(k).list() }) },
            ),
            Some(Route::Invoke(k)) => match req.name {
                None => Step::Reply(Response { id, result: Err(RpcError::MissingName) }),
                Some(n) => match self.registry(k).lookup(&n) {
                    None => Step::Reply(
                        Response { id, result: Err(RpcError::NotFound { kind: k, name: n }) },
                    ),
                    Some(c) => Step::Invoke { id, kind: k, capability: c, arguments: req.arguments },
                },
            },
        }
    }
}

/// Packs the outcome of an invocation into the response to its request: a
/// success as the answer, a failure as a capability-level error carrying
/// its message.
pub fn finish(id: RequestId, outcome: Result<Payload, String>) -> (r: Response)
    ensures
        r.id == id,
        match outcome {
            Ok(p) => r.result == Ok::<Answer, RpcError>(Answer::Invoked(p)),
            Err(m) => r.result == Err::<Answer, RpcError>(RpcError::InvocationFailed { message: m }),
        },
{
    match outcome {
        Ok(p) => Response { id, result: Ok(Answer::Invoked(p)) },
        Err(message) => Response { id, result: Err(RpcError::InvocationFailed { message }) },
    }
}

} // verus!
