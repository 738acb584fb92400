//! Configuration and command-line data: plain records the gateway is
//! steered by.  Reading the configuration file and parsing the command line
//! happen outside the library, which receives the finished values.

use vstd::prelude::*;

verus! {

/// The gateway's configuration.
#[derive(Debug)]
pub struct Config {
    pub github: GithubConfig,
    pub copilot: CopilotConfig,
    pub server: ServerConfig,
}

/// The endpoints and client identifier of the credential flow.
#[derive(Debug)]
pub struct GithubConfig {
    pub device_code_url: String,
    pub oauth_token_url: String,
    pub copilot_token_url: String,
    pub copilot_models_url: String,
    pub client_id: String,
}

/// Where the upstream chat API lives.
#[derive(Debug)]
pub struct CopilotConfig {
    pub api_base_url: String,
}

/// Where the gateway listens.
#[derive(Debug)]
pub struct ServerConfig {
    pub port: u16,
    pub host: String,
}

/// The parsed command line.
#[derive(Debug)]
pub struct Args {
    pub config: String,
    pub login: bool,
    pub refresh_token: bool,
    pub access_token_path: Option<String>,
    pub copilot_token_path: Option<String>,
    pub version: bool,
}

} // verus!
