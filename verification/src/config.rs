//! Service configuration.
//!
//! The settings are plain values; reading them from the process
//! environment is the caller's business. `Default` gives the documented
//! fallback for every field.

use vstd::prelude::*;

verus! {

#[derive(Clone, Debug)]
pub struct Settings {
    pub service_name: String,
    pub service_port: u16,
    pub mt5_terminal_path: Option<String>,
    pub mt5_data_path: Option<String>,
    pub mt5_account_number: Option<u64>,
    pub mt5_password: Option<String>,
    pub mt5_server: Option<String>,
    pub mt5_symbol_prefix: String,
    pub mt5_timeout_ms: u64,
    pub mt5_retry_attempts: u32,
    pub mt5_retry_delay_ms: u64,
    pub mt5_testnet: bool,
    pub mt5_bridge_url: Option<String>,
}

impl Default for Settings {
    /// The fallback configuration: every field as it stands when nothing
    /// overrides it.
    fn default() -> (r: Settings)
        ensures
            r.service_name@ == "fks_meta"@,
            r.service_port == 8005,
            r.mt5_terminal_path is None,
            r.mt5_data_path is None,
            r.mt5_account_number is None,
            r.mt5_password is None,
            r.mt5_server is None,
            r.mt5_symbol_prefix@ == Seq::<char>::empty(),
            r.mt5_timeout_ms == 5000,
            r.mt5_retry_attempts == 3,
            r.mt5_retry_delay_ms == 1000,
            r.mt5_testnet == false,
            r.mt5_bridge_url is None,
    {
        Settings {
            service_name: String::from_str("fks_meta"),
            service_port: 8005,
            mt5_terminal_path: None,
            mt5_data_path: None,
            mt5_account_number: None,
            mt5_password: None,
            mt5_server: None,
            mt5_symbol_prefix: String::new(),
            mt5_timeout_ms: 5000,
            mt5_retry_attempts: 3,
            mt5_retry_delay_ms: 1000,
            mt5_testnet: false,
            mt5_bridge_url: None,
        }
    }
}

} // verus!
