//! The OpenClaw bridge: what the daemon asks of the OpenClaw CLI, and how
//! it turns the CLI's answers and its log files into responses.
//!
//! The processes, files and clocks are driven by the caller; every decision
//! between them is made here.
pub mod runtime;
pub mod logs;
pub mod chat;
pub mod output;
pub mod report;

pub use runtime::{
    CommandRequest, LogStream, OpenClawError, OpenClawRuntime, OpenClawRuntimeConfig,
    OpenClawStatusResponse, RequestCounter, generate_idempotency_key, spawn_error, timeout_error,
};
pub use logs::{
    LogFileStat, LogReadOutcome, LogReadPlan, LogReadStep, LogWindow, OpenClawLogChunkResponse,
    OpenClawLogQuery,
};
pub use chat::{ChatPlan, OpenClawChatRequest, needs_generated_key};
pub use output::{command_outcome, command_result, extract_last_json_object, parse_json_output};
pub use report::{
    OpenClawChatResponse, OpenClawUsage, build_usage, distinct_entries, entry_texts_of, get_string,
    get_u64, kept_entries, list_entry_names, normalize_chat_response, present_string,
    usage_from_counts,
};
