//! Verified command-line logic of an agent terminal session manager.
pub mod text;
pub mod json;
pub mod cli;
pub mod harness;
pub mod list_peers;
pub mod close_session;
pub mod purge_wg;
pub mod raise_hand;
pub mod self_clear;
pub mod self_restart;
pub mod self_switch;
pub mod agency_templates;
pub mod coding_agent;
pub mod api_client;
pub mod injected_messages;
pub mod create_agent;
pub mod create_agent_matrix;
pub mod session_safety;
pub mod role_experiment;
pub mod send;
pub mod reason_codes;
pub mod loop_cmd;
pub mod new_project;
