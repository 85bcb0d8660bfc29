//! The agent runtime: message history, tool scheduling, streaming and session rules of a coding
//! agent, with every rule stated as a contract and proved.
pub mod agent;
pub mod agent_laws;
pub mod base_laws;
pub mod call_laws;
pub mod clock;
pub mod command;
pub mod compact;
pub mod compact_laws;
pub mod completion_laws;
pub mod content;
pub mod effects;
pub mod enabling_laws;
pub mod error;
pub mod event;
pub mod extensions;
pub mod host;
pub mod host_laws;
pub mod input;
pub mod json;
pub mod latency;
pub mod limits;
pub mod loop_laws;
pub mod model;
pub mod part_laws;
pub mod pi_ai;
pub mod prompt_laws;
pub mod queue;
pub mod run;
pub mod run_laws;
pub mod selection;
pub mod selection_laws;
pub mod semantic;
pub mod semantic_laws;
pub mod session;
pub mod stream;
pub mod stream_laws;
pub mod text;
pub mod tool_exec;
pub mod tool_laws;
pub mod tool_run;
pub mod turn;
pub mod turn_laws;
pub mod view_laws;
