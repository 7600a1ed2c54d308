//! The logic of the Senka Panel, a personal server management platform: the
//! process manager and its monitor decisions, directory subscriptions, file
//! descriptions, tasks and fast commands, language resources, loggers, the shell
//! protocol and configuration loading, verified by Verus.

pub mod config;
pub mod database;
pub mod directory_monitoring;
pub mod fast_command;
pub mod file_info;
pub mod language_helper;
pub mod logger;
pub mod process_manager;
pub mod process_monitor;
pub mod senka_error;
pub mod shell;
pub mod str_table;
pub mod task;
pub mod text;
pub mod user;

