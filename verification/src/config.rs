//! The ambient configuration of the process.

use vstd::prelude::*;

verus! {

/// The options of the background server for health and metrics.
#[derive(Debug)]
pub struct RuntimeConfig {
    /// Whether the background server is started at all.
    pub system_enabled: bool,
    /// Host to bind the background server to.
    pub system_host: String,
    /// Port to bind the background server to.
    pub system_port: u16,
}

/// What a [`RuntimeConfig`] holds.
pub struct RuntimeConfigView {
    pub system_enabled: bool,
    pub system_host: Seq<char>,
    pub system_port: u16,
}

impl View for RuntimeConfig {
    type V = RuntimeConfigView;

    open spec fn view(&self) -> RuntimeConfigView {
        RuntimeConfigView {
            system_enabled: self.system_enabled,
            system_host: self.system_host@,
            system_port: self.system_port,
        }
    }
}

impl RuntimeConfig {
    /// The configuration used where none can be loaded: no background server;
    /// were one started, it would listen on every interface, port 9090.
    pub open spec fn default_view() -> RuntimeConfigView {
        RuntimeConfigView { system_enabled: false, system_host: "0.0.0.0"@, system_port: 9090 }
    }

    /// What was loaded, or the default where loading failed.
    pub open spec fn or_default_view(loaded: Option<RuntimeConfigView>) -> RuntimeConfigView {
        match loaded {
            Some(config) => config,
            None => RuntimeConfig::default_view(),
        }
    }

    /// What was loaded, or the default where loading failed.
    pub fn from_settings(loaded: Option<RuntimeConfig>) -> (config: RuntimeConfig)
        ensures
            config@ == RuntimeConfig::or_default_view(
                match loaded {
                    Some(config) => Some(config@),
                    None => None,
                },
            ),
    {
        match loaded {
            Some(config) => config,
            None => RuntimeConfig::default(),
        }
    }

    /// Whether the background server is to be started.
    pub fn system_server_enabled(&self) -> (enabled: bool)
        ensures
            enabled == self@.system_enabled,
    {
        self.system_enabled
    }
}

impl Default for RuntimeConfig {
    fn default() -> (config: RuntimeConfig)
        ensures
            config@ == RuntimeConfig::default_view(),
    {
        RuntimeConfig {
            system_enabled: false,
            system_host: String::from_str("0.0.0.0"),
            system_port: 9090,
        }
    }
}

impl Clone for RuntimeConfig {
    fn clone(&self) -> (copy: RuntimeConfig)
        ensures
            copy@ == self@,
    {
        RuntimeConfig {
            system_enabled: self.system_enabled,
            system_host: self.system_host.clone(),
            system_port: self.system_port,
        }
    }
}

} // verus!
