//! A host for named capabilities (tools, prompts and resources): per-kind
//! registries, a request dispatcher over them, and a sample capability that
//! reports the local time.

pub mod registry;
pub mod content;
pub mod dispatch;
pub mod clock;
pub mod now;
