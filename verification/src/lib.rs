pub mod text;
pub mod shell;
pub mod json;
pub mod assistant_ui;
pub mod fleet_policy;
pub mod order;
pub mod playbooks;
pub mod llm;
pub mod prompts;
pub mod playbook_runtime;
pub mod tools;
pub mod context;
pub mod sessions;
pub mod turn;
pub mod dashboard;
pub mod consumer;
pub mod proactive;
pub mod autoheal;
pub mod mobile;
pub mod linux_tools;
pub mod windows_tools;
pub mod reports;
pub mod tool_output;
pub mod health;
pub mod host_info;
pub mod laws;
