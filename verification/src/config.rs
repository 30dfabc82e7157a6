//! Where the server is, and where history is kept.

use vstd::prelude::*;
use vstd::string::*;

use crate::text::option_view;

verus! {

/// The configuration of a client.
#[derive(Debug, Clone)]
pub struct Config {
    pub api_url: String,
    pub websocket_url: String,
    pub history_dir: Option<String>,
}

impl Config {
    /// The configuration that holds until the user changes it, with the directory in which the
    /// operating system keeps data, if it has one.
    pub fn initial(history_dir: Option<String>) -> (config: Config)
        ensures
            config.api_url@ == "https://api.aingl.net"@,
            config.websocket_url@ == "wss://api.aingl.net/v1/socket"@,
            option_view(config.history_dir) == option_view(history_dir),
    {
        Config {
            api_url: "https://api.aingl.net".to_owned(),
            websocket_url: "wss://api.aingl.net/v1/socket".to_owned(),
            history_dir,
        }
    }
}

} // verus!
