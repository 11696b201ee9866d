//! Verified core of the hellox command-line assistant: configuration values,
//! startup dialogs, task lists, workflow scripts and their runs, the workspace
//! brief, and the local gateway's routing, uploads and metrics.

pub mod brief;
pub mod config;
pub mod gateway;
pub mod gateway_files;
pub mod interactive_select;
pub mod keys;
pub mod language;
pub mod metrics;
pub mod named_map;
pub mod onboarding;
pub mod onboarding_copy;
pub mod paths;
pub mod session_text;
pub mod step_input;
pub mod task_commands;
pub mod tasks;
pub mod text;
pub mod trust;
pub mod trust_copy;
pub mod width;
pub mod workflow_catalog;
pub mod workflow_commands;
pub mod workflow_doc;
pub mod workflow_render;
pub mod workflow_runs;
pub mod workflow_validation;
pub mod wrap;
