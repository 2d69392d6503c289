//! Queue and session logic of the PlayNow matchmaking service.

pub mod decimal;
pub mod ids;
pub mod keys;
pub mod store;
pub mod backend;
pub mod cron;
pub mod laws;
pub mod operation_laws;
pub mod wshandler;
pub mod form;
pub mod prefs;
pub mod login;
