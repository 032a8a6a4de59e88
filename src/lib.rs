//! Server-side core of a line-oriented chat service: the login and
//! registration flow, the per-connection command dispatch, the admin
//! console's account provisioning, and channel history keys and replay order.

pub mod text;
pub mod model;
pub mod history;
pub mod session;
pub mod auth;
pub mod admin;
