//! Diagnosis of failed hosting builds: log extraction, corpus assembly and
//! classification of failures by literal pattern rules.

pub mod amplify;
pub mod catalog;
pub mod config;
pub mod logs;
pub mod markers;
pub mod migration;
pub mod migration_report;
pub mod output;
pub mod parser;
pub mod search;
pub mod text;
