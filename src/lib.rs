//! A desktop companion's core: the login session state machine, the reconnecting event
//! stream's decisions, the parsing of stream events, and the resolution of friend-online
//! notifications.

pub mod auth;
pub mod event;
pub mod notify;
pub mod pipeline;
pub mod store;
pub mod text;
