use vstd::prelude::*;

verus! {

/// One block of what a tool returns.
pub enum ToolContent {
    Text { text: String },
}

/// Who speaks a prompt message.
#[derive(PartialEq, Eq, Structural, Clone, Copy, Debug)]
pub enum PromptRole {
    User,
    Assistant,
}

/// One role-tagged message of a computed prompt.
pub struct PromptMessage {
    pub role: PromptRole,
    pub text: String,
}

/// What a prompt returns: a description and its messages, in order.
pub struct ComputedPrompt {
    pub description: String,
    pub messages: Vec<PromptMessage>,
}

/// One addressable piece of what a resource returns.
pub struct ResourceContent {
    pub uri: String,
    pub text: String,
}

/// What a capability returns when it succeeds, by kind.
pub enum Payload {
    Tool(Vec<ToolContent>),
    Prompt(ComputedPrompt),
    Resource(Vec<ResourceContent>),
}

} // verus!
