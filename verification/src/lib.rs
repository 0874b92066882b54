pub mod auth;
pub mod cli;
pub mod config;
pub mod error;
pub mod events;
pub mod ids;
pub mod orgs;
pub mod output;
pub mod projects;
pub mod queries;
pub mod rbac;
pub mod slug;
pub mod status;
pub mod storage;
pub mod store;
pub mod tasks;
pub mod text;
pub mod time;
