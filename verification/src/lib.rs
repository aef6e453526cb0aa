//! Planning and judging logic of a process-tree test harness.

pub mod text;
pub mod number;
pub mod agents;
pub mod protocol;
pub mod routing;
pub mod errno;
pub mod inherit;
pub mod agent;
pub mod agent_run;
pub mod script;
pub mod stages;
pub mod plan_basic;
pub mod plan_node;
pub mod plan_vscode;
pub mod registry;
pub mod asks;
pub mod fork_plans;
pub mod fork_verdicts;
pub mod fork_runs;
pub mod wait_status;
pub mod fork_probes;
pub mod clone3;
pub mod clone_runs;
pub mod echo;
pub mod dns;
pub mod broker;
pub mod epoll;
pub mod spin;
pub mod observers;
pub mod epoll_plans;
pub mod epoll_runs;
pub mod common;
pub mod canary;
pub mod concurrent;
pub mod program_runs;
pub mod df_parent;
pub mod random;
pub mod file_tcp;
pub mod file_runs;
pub mod eventfd;
pub mod counter_runs;
