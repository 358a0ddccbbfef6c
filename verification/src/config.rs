//! The server's settings, as read from the environment.
use vstd::prelude::*;

verus! {

/// Ports the server listens on.
#[derive(Debug, Clone, Copy)]
pub struct ServerSettings {
    pub port: u16,
    pub http_port: u16,
    pub monitor_port: u16,
}

/// Where the PostgreSQL database is and how to log in.
#[derive(Debug)]
pub struct DatabaseSettings {
    pub host: String,
    pub port: u16,
    pub user: String,
    pub password: String,
    pub name: String,
}

/// The SSH account through which the database is reached, when there is one.
#[derive(Debug)]
pub struct SshSettings {
    pub user: Option<String>,
    pub host: Option<String>,
    pub key_path: Option<String>,
    pub tunnel_port: Option<u16>,
}

/// The addresses that are notified.
#[derive(Debug)]
pub struct WebhookSettings {
    pub nauticoncept_url: String,
    pub teams_url: String,
}

/// All settings of the server.
#[derive(Debug)]
pub struct Settings {
    pub server: ServerSettings,
    pub database: DatabaseSettings,
    pub ssh: SshSettings,
    pub webhook: WebhookSettings,
    pub env: String,
}

} // verus!
